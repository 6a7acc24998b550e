use std::sync::Arc;
use vstd::prelude::*;

verus! {

/// The layout of one pixel in an image buffer.
#[derive(Clone, Copy, Debug, PartialEq, Eq, Structural)]
pub enum PixelFormat {
    Mono8,
    MonoAlpha8,
    Rgb8,
    Rgba8,
    Bgr8,
    Bgra8,
}

impl PixelFormat {
    pub open spec fn spec_bytes_per_pixel(self) -> nat {
        match self {
            PixelFormat::Mono8 => 1,
            PixelFormat::MonoAlpha8 => 2,
            PixelFormat::Rgb8 | PixelFormat::Bgr8 => 3,
            PixelFormat::Rgba8 | PixelFormat::Bgra8 => 4,
        }
    }

    pub fn bytes_per_pixel(&self) -> (r: u8)
        ensures
            r as nat == self.spec_bytes_per_pixel(),
    {
        match self {
            PixelFormat::Mono8 => 1,
            PixelFormat::MonoAlpha8 => 2,
            PixelFormat::Rgb8 | PixelFormat::Bgr8 => 3,
            PixelFormat::Rgba8 | PixelFormat::Bgra8 => 4,
        }
    }
}

/// What a pixel buffer holds: its pixel format, its size in pixels, and the
/// number of bytes from the start of one row to the start of the next.
#[derive(Clone, Copy, Debug, PartialEq, Eq, Structural)]
pub struct ImageInfo {
    pub pixel_format: PixelFormat,
    pub width: u32,
    pub height: u32,
    pub row_stride: u32,
}

impl ImageInfo {
    /// The fewest bytes a row can take.
    pub open spec fn min_row_stride(self) -> nat {
        self.width as nat * self.pixel_format.spec_bytes_per_pixel()
    }

    /// The bytes the whole buffer takes.
    pub open spec fn byte_size(self) -> nat {
        self.row_stride as nat * self.height as nat
    }

    /// A buffer of `len` bytes can be displayed with this description.
    pub open spec fn describes(self, len: nat) -> bool {
        self.min_row_stride() <= self.row_stride && len == self.byte_size()
    }
}

/// Why a pixel buffer could not be taken as a displayable image.
#[derive(Clone, Copy, Debug, PartialEq, Eq, Structural)]
pub enum DecodeError {
    /// The rows are shorter than the width and pixel format need.
    RowStrideTooSmall { row_stride: u64, min_row_stride: u64 },
    /// The buffer length differs from what the description says.
    BufferSizeMismatch { expected: u64, actual: u64 },
}

/// The state of one window that its event handlers can read.
pub struct WindowInner {
    id: u64,
    image: Option<(Arc<[u8]>, ImageInfo, String)>,
}

impl WindowInner {
    pub closed spec fn spec_id(&self) -> u64 {
        self.id
    }

    /// The image shown in the window, if one was set.
    pub closed spec fn spec_image(&self) -> Option<(Arc<[u8]>, ImageInfo, String)> {
        self.image
    }

    /// A window with no image yet.
    pub fn new(id: u64) -> (r: Self)
        ensures
            r.spec_id() == id,
            r.spec_image() is None,
    {
        WindowInner { id, image: None }
    }

    pub fn id(&self) -> (r: u64)
        ensures
            r == self.spec_id(),
    {
        self.id
    }

    /// The image shown in the window: its pixels, their description and its name.
    pub fn image(&self) -> (r: Option<&(Arc<[u8]>, ImageInfo, String)>)
        ensures
            match r {
                None => self.spec_image() is None,
                Some(shown) => self.spec_image() == Some(*shown),
            },
    {
        self.image.as_ref()
    }

    /// Replaces the shown image as a whole, when `info` describes `data`;
    /// otherwise leaves the window as it was.
    pub fn set_image(&mut self, name: String, info: ImageInfo, data: Arc<[u8]>) -> (r: Result<(), DecodeError>)
        ensures
            final(self).spec_id() == old(self).spec_id(),
            r is Ok <==> info.describes(data@.len()),
            r is Ok ==> final(self).spec_image() == Some((data, info, name)),
            r is Err ==> final(self).spec_image() == old(self).spec_image(),
            r matches Err(DecodeError::RowStrideTooSmall { row_stride, min_row_stride }) ==>
                info.row_stride < info.min_row_stride()
                && row_stride == info.row_stride
                && min_row_stride == info.min_row_stride(),
            r matches Err(DecodeError::BufferSizeMismatch { expected, actual }) ==>
                info.min_row_stride() <= info.row_stride
                && expected == info.byte_size()
                && actual == data@.len(),
    {
        let bpp = info.pixel_format.bytes_per_pixel() as u64;
        assert(info.width as nat * bpp as nat <= 0xffff_ffff * 4) by (nonlinear_arith)
            requires
                info.width <= 0xffff_ffff,
                bpp <= 4,
        ;
        let min_row_stride: u64 = info.width as u64 * bpp;
        if (info.row_stride as u64) < min_row_stride {
            return Err(DecodeError::RowStrideTooSmall { row_stride: info.row_stride as u64, min_row_stride });
        }
        assert(info.row_stride as nat * info.height as nat <= 0xffff_ffff * 0xffff_ffff) by (nonlinear_arith)
            requires
                info.row_stride <= 0xffff_ffff,
                info.height <= 0xffff_ffff,
        ;
        let expected: u64 = info.row_stride as u64 * info.height as u64;
        let actual: u64 = data.len() as u64;
        if expected != actual {
            return Err(DecodeError::BufferSizeMismatch { expected, actual });
        }
        self.image = Some((data, info, name));
        Ok(())
    }
}

} // verus!
