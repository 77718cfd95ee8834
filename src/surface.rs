//! The values exchanged with the host window: its client rectangle, and the header
//! that describes the colour buffer when it is presented.
use vstd::prelude::*;

verus! {

/// A window rectangle in pixels, as the host reports it.
#[allow(non_camel_case_types)]
#[derive(Clone, Copy, Debug, PartialEq, Eq, Structural)]
pub struct RECT {
    pub left: i32,
    pub top: i32,
    pub right: i32,
    pub bottom: i32,
}

impl RECT {
    /// The size of a client rectangle, `(width, height)`: its left and top edges are
    /// at zero, so its right and bottom edges give the size.
    pub fn client_size(&self) -> (r: (i32, i32))
        ensures
            r == (self.right, self.bottom),
    {
        (self.right, self.bottom)
    }
}

/// The byte size of the header in its C layout.
pub const BITMAPINFOHEADER_SIZE: u32 = 40;

/// Uncompressed pixels.
pub const BI_RGB: u32 = 0;

/// The description of a device-independent bitmap.
#[allow(non_camel_case_types)]
#[derive(Clone, Copy, Debug, PartialEq, Eq, Structural)]
pub struct BITMAPINFOHEADER {
    pub size: u32,
    pub width: i32,
    pub height: i32,
    pub planes: u16,
    pub bit_count: u16,
    pub compression: u32,
    pub size_image: u32,
    pub x_pels_per_meter: i32,
    pub y_pels_per_meter: i32,
    pub clr_used: u32,
    pub clr_important: u32,
}

impl BITMAPINFOHEADER {
    /// The header that presents a `width` x `height` colour buffer: 32 bits per
    /// pixel, one plane, uncompressed.
    pub open spec fn for_surface_spec(width: i32, height: i32) -> BITMAPINFOHEADER {
        BITMAPINFOHEADER {
            size: BITMAPINFOHEADER_SIZE,
            width,
            height,
            planes: 1,
            bit_count: 32,
            compression: BI_RGB,
            size_image: 0,
            x_pels_per_meter: 0,
            y_pels_per_meter: 0,
            clr_used: 0,
            clr_important: 0,
        }
    }

    /// The header that presents a `width` x `height` colour buffer: 32 bits per
    /// pixel, one plane, uncompressed.
    pub fn for_surface(width: i32, height: i32) -> (r: BITMAPINFOHEADER)
        ensures
            r == Self::for_surface_spec(width, height),
    {
        BITMAPINFOHEADER {
            size: BITMAPINFOHEADER_SIZE,
            width,
            height,
            planes: 1,
            bit_count: 32,
            compression: BI_RGB,
            size_image: 0,
            x_pels_per_meter: 0,
            y_pels_per_meter: 0,
            clr_used: 0,
            clr_important: 0,
        }
    }
}

} // verus!
