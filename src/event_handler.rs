use std::sync::Arc;
use vstd::prelude::*;

use crate::event::Event;
use crate::window::{ImageInfo, WindowInner};

verus! {

/// The context handed to each event handler while one event is dispatched.
///
/// It borrows the event, the window and the list that collects the tasks
/// spawned during this dispatch; it lives no longer than the dispatch.
pub struct EventHandlerContext<'a, T> {
    /// The list that spawned tasks are added to.
    background_tasks: &'a mut Vec<T>,
    /// Whether the handlers after the current one are to be skipped.
    stop_propagation: bool,
    /// The event being handled.
    event: &'a Event,
    /// The window that the event belongs to.
    window: &'a WindowInner,
}

impl<'a, T> EventHandlerContext<'a, T> {
    /// The tasks collected so far, those from before the dispatch included.
    pub closed spec fn tasks(&self) -> Seq<T> {
        self.background_tasks@
    }

    /// Whether propagation of the event was stopped.
    pub closed spec fn stopped(&self) -> bool {
        self.stop_propagation
    }

    pub closed spec fn spec_event(&self) -> Event {
        *self.event
    }

    pub closed spec fn spec_window(&self) -> WindowInner {
        *self.window
    }

    /// A fresh context for one event: propagation not stopped, tasks as given.
    pub fn new(background_tasks: &'a mut Vec<T>, event: &'a Event, window: &'a WindowInner) -> (r: Self)
        ensures
            r.tasks() == old(background_tasks)@,
            !r.stopped(),
            r.spec_event() == *event,
            r.spec_window() == *window,
    {
        EventHandlerContext { background_tasks, stop_propagation: false, event, window }
    }

    /// Skips the handlers that come after the current one, for this event.
    pub fn stop_propagation(&mut self)
        ensures
            final(self).stopped(),
            final(self).tasks() == old(self).tasks(),
            final(self).spec_event() == old(self).spec_event(),
            final(self).spec_window() == old(self).spec_window(),
    {
        self.stop_propagation = true;
    }

    /// Whether a handler has stopped the propagation of this event.
    pub fn should_stop_propagation(&self) -> (r: bool)
        ensures
            r == self.stopped(),
    {
        self.stop_propagation
    }

    /// The event being handled.
    pub fn event(&self) -> (r: &'a Event)
        ensures
            *r == self.spec_event(),
    {
        self.event
    }

    /// The image the window shows: its pixels, their description and its name.
    pub fn image(&self) -> (r: Option<&'a (Arc<[u8]>, ImageInfo, String)>)
        ensures
            match r {
                None => self.spec_window().spec_image() is None,
                Some(shown) => self.spec_window().spec_image() == Some(*shown),
            },
    {
        self.window.image()
    }

    /// The window that the event belongs to.
    pub fn window(&self) -> (r: &'a WindowInner)
        ensures
            *r == self.spec_window(),
    {
        self.window
    }

    /// Hands a task to the background list of this dispatch; it is kept
    /// there until the application joins it.
    pub fn spawn_task(&mut self, task: T)
        ensures
            final(self).tasks() == old(self).tasks().push(task),
            final(self).stopped() == old(self).stopped(),
            final(self).spec_event() == old(self).spec_event(),
            final(self).spec_window() == old(self).spec_window(),
    {
        self.background_tasks.push(task);
    }
}

/// The task list after `spawned` are handed to `spawn_task` one by one, in order.
pub open spec fn spawn_all<T>(tasks: Seq<T>, spawned: Seq<T>) -> Seq<T>
    decreases spawned.len(),
{
    if spawned.len() == 0 {
        tasks
    } else {
        spawn_all(tasks.push(spawned[0]), spawned.drop_first())
    }
}

/// Each `spawn_task` adds exactly one entry: after `n` calls the list holds
/// its earlier entries followed by the `n` new ones.
pub proof fn lemma_spawn_all_appends<T>(tasks: Seq<T>, spawned: Seq<T>)
    ensures
        spawn_all(tasks, spawned) == tasks + spawned,
        spawn_all(tasks, spawned).len() == tasks.len() + spawned.len(),
    decreases spawned.len(),
{
    if spawned.len() > 0 {
        lemma_spawn_all_appends(tasks.push(spawned[0]), spawned.drop_first());
        assert(tasks.push(spawned[0]) + spawned.drop_first() =~= tasks + spawned);
    } else {
        assert(tasks + spawned =~= tasks);
    }
}

/// A handler of the events of one window.
pub trait EventHandler<T> {
    /// Reacts to the event in `context`.
    fn handle(&mut self, context: &mut EventHandlerContext<'_, T>);
}

/// The handler to invoke next, after `invoked` of `count` handlers have run
/// and with the propagation flag at `stopped`.
pub open spec fn spec_next_handler(count: nat, invoked: nat, stopped: bool) -> Option<nat> {
    if !stopped && invoked < count {
        Some(invoked)
    } else {
        None
    }
}

/// The handlers that a dispatch invokes, in order, when handler `i` leaves
/// the propagation flag at `flags[i]`, starting after `invoked` handlers
/// with the flag at `stopped`.
pub open spec fn invocations_from(flags: Seq<bool>, invoked: nat, stopped: bool) -> Seq<nat>
    decreases flags.len() - invoked,
{
    match spec_next_handler(flags.len(), invoked, stopped) {
        Some(i) => seq![i] + invocations_from(flags, i + 1, flags[i as int]),
        None => Seq::empty(),
    }
}

/// The handlers that a dispatch over `flags.len()` handlers invokes.
pub open spec fn invocations(flags: Seq<bool>) -> Seq<nat> {
    invocations_from(flags, 0, false)
}

/// Picks the handler to invoke next: the following one, unless propagation
/// was stopped or every handler has run.
pub fn next_handler(count: usize, invoked: usize, stopped: bool) -> (r: Option<usize>)
    ensures
        match r {
            Some(i) => spec_next_handler(count as nat, invoked as nat, stopped) == Some(i as nat),
            None => spec_next_handler(count as nat, invoked as nat, stopped) is None,
        },
{
    if !stopped && invoked < count {
        Some(invoked)
    } else {
        None
    }
}

proof fn lemma_invocations_run_to(flags: Seq<bool>, start: nat, last: nat)
    requires
        start <= last <= flags.len(),
        forall|j: int| start <= j < last ==> !flags[j],
        last < flags.len() ==> flags[last as int],
    ensures
        invocations_from(flags, start, false) =~= Seq::new(
            ((if last < flags.len() { last + 1int } else { last as int }) - start) as nat,
            |j: int| (j + start) as nat,
        ),
    decreases flags.len() - start,
{
    if start < flags.len() {
        if start < last {
            lemma_invocations_run_to(flags, start + 1, last);
        } else {
            assert(invocations_from(flags, start + 1, true) =~= Seq::<nat>::empty());
        }
    }
}

/// When handler `k` is the first to stop propagation, the handlers up to and
/// including `k` are invoked once each, in order, and no handler after it.
pub proof fn lemma_stop_propagation_skips_rest(flags: Seq<bool>, k: nat)
    requires
        k < flags.len(),
        flags[k as int],
        forall|j: int| 0 <= j < k ==> !flags[j],
    ensures
        invocations(flags) =~= Seq::new(k + 1, |j: int| j as nat),
{
    lemma_invocations_run_to(flags, 0, k);
}

/// When no handler stops propagation, every handler is invoked once, in order.
pub proof fn lemma_no_stop_invokes_all(flags: Seq<bool>)
    requires
        forall|j: int| 0 <= j < flags.len() ==> !flags[j],
    ensures
        invocations(flags) =~= Seq::new(flags.len(), |j: int| j as nat),
{
    lemma_invocations_run_to(flags, 0, flags.len());
}

/// Offers `event` to `handlers` in order, each once, until one of them stops
/// propagation. Returns how many handlers were invoked and whether
/// propagation was stopped. The invoked handlers are the first ones, in
/// order, as `invocations` gives them for the flags that the handlers left.
pub fn dispatch_event<T, H: EventHandler<T>>(
    handlers: &mut Vec<H>,
    event: &Event,
    window: &WindowInner,
    background_tasks: &mut Vec<T>,
) -> (r: (usize, bool))
    ensures
        final(handlers)@.len() == old(handlers)@.len(),
        r.0 <= old(handlers)@.len(),
        !r.1 ==> r.0 == old(handlers)@.len(),
        r.1 ==> r.0 >= 1,
        exists|flags: Seq<bool>|
            flags.len() == old(handlers)@.len()
            && #[trigger] invocations(flags) == Seq::new(r.0 as nat, |j: int| j as nat)
            && (r.1 <==> (r.0 > 0 && flags[r.0 - 1])),
{
    let ghost count = handlers@.len();
    let mut context = EventHandlerContext::new(background_tasks, event, window);
    let mut invoked: usize = 0;
    let ghost mut flags: Seq<bool> = Seq::empty();
    loop
        invariant
            handlers@.len() == count,
            invoked <= count,
            flags.len() == invoked,
            forall|j: int| 0 <= j < invoked - 1 ==> !flags[j],
            context.stopped() <==> (invoked > 0 && flags[invoked - 1]),
        ensures
            context.stopped() || invoked == count,
        decreases count - invoked,
    {
        match next_handler(handlers.len(), invoked, context.should_stop_propagation()) {
            None => break,
            Some(i) => {
                handlers[i].handle(&mut context);
                invoked = i + 1;
                proof {
                    flags = flags.push(context.stopped());
                }
            },
        }
    }
    let stopped = context.should_stop_propagation();
    proof {
        if stopped {
            let padded = flags + Seq::new((count - invoked) as nat, |j: int| false);
            lemma_stop_propagation_skips_rest(padded, (invoked - 1) as nat);
            assert(padded[invoked - 1] == flags[invoked - 1]);
        } else {
            lemma_no_stop_invokes_all(flags);
        }
    }
    (invoked, stopped)
}

} // verus!
