use vstd::prelude::*;

verus! {

/// Picks the image path out of a command line `PROGRAM IMAGE`: present
/// exactly when there is one argument after the program name.
pub fn image_path_arg(args: &Vec<String>) -> (r: Option<&String>)
    ensures
        match r {
            Some(path) => args@.len() == 2 && *path == args@[1],
            None => args@.len() != 2,
        },
{
    if args.len() == 2 {
        Some(&args[1])
    } else {
        None
    }
}

} // verus!
