//! Pixel formats and filters, and what they are called on the GL side.

use vstd::prelude::*;
use vstd::std_specs::convert::FromSpecImpl;
use crate::gl::{gl_linear, gl_nearest, gl_r8, gl_red, gl_rgba, linear, nearest, r8, red, rgba};

verus! {

/// Layout of a pixel, in GPU storage or in the data handed to the GPU.
#[derive(Clone, Copy, Debug, PartialEq, Eq, Structural)]
pub enum TextureFormat {
    Rgba,
    Red,
    R8,
}

/// How a texture is sampled when drawn smaller or larger than it is.
#[derive(Clone, Copy, Debug, PartialEq, Eq, Structural)]
pub enum TextureFilter {
    Linear,
    Nearest,
}

/// Bytes that one pixel takes in an upload buffer: one for single-channel
/// data stored as `R8`, four for every other pairing.
pub open spec fn bytes_per_pixel(internal: TextureFormat, format: TextureFormat) -> nat {
    if internal == TextureFormat::R8 && format == TextureFormat::Red {
        1
    } else {
        4
    }
}

/// The GL constant that names a pixel format.
pub open spec fn format_code(f: TextureFormat) -> u32 {
    match f {
        TextureFormat::Rgba => gl_rgba(),
        TextureFormat::Red => gl_red(),
        TextureFormat::R8 => gl_r8(),
    }
}

/// The GL constant that names a filter.
pub open spec fn filter_code(f: TextureFilter) -> u32 {
    match f {
        TextureFilter::Linear => gl_linear(),
        TextureFilter::Nearest => gl_nearest(),
    }
}

/// Bytes per pixel of an upload buffer for the given storage layout and
/// data layout.
pub fn byte_per_pixel(internal: TextureFormat, format: TextureFormat) -> (bpp: usize)
    ensures
        bpp == bytes_per_pixel(internal, format),
        bpp == 1 <==> (internal == TextureFormat::R8 && format == TextureFormat::Red),
        bpp == 1 || bpp == 4,
{
    match (internal, format) {
        (TextureFormat::R8, TextureFormat::Red) => 1,
        _ => 4,
    }
}

impl From<TextureFilter> for u32 {
    fn from(f: TextureFilter) -> (code: u32) {
        match f {
            TextureFilter::Linear => linear(),
            TextureFilter::Nearest => nearest(),
        }
    }
}

impl FromSpecImpl<TextureFilter> for u32 {
    open spec fn obeys_from_spec() -> bool {
        true
    }

    open spec fn from_spec(f: TextureFilter) -> u32 {
        filter_code(f)
    }
}

impl From<TextureFilter> for i32 {
    fn from(f: TextureFilter) -> (code: i32) {
        let code: u32 = u32::from(f);
        code as i32
    }
}

impl FromSpecImpl<TextureFilter> for i32 {
    open spec fn obeys_from_spec() -> bool {
        true
    }

    open spec fn from_spec(f: TextureFilter) -> i32 {
        filter_code(f) as i32
    }
}

impl From<TextureFormat> for u32 {
    fn from(f: TextureFormat) -> (code: u32) {
        match f {
            TextureFormat::Rgba => rgba(),
            TextureFormat::Red => red(),
            TextureFormat::R8 => r8(),
        }
    }
}

impl FromSpecImpl<TextureFormat> for u32 {
    open spec fn obeys_from_spec() -> bool {
        true
    }

    open spec fn from_spec(f: TextureFormat) -> u32 {
        format_code(f)
    }
}

impl From<TextureFormat> for i32 {
    fn from(f: TextureFormat) -> (code: i32) {
        let code: u32 = u32::from(f);
        code as i32
    }
}

impl FromSpecImpl<TextureFormat> for i32 {
    open spec fn obeys_from_spec() -> bool {
        true
    }

    open spec fn from_spec(f: TextureFormat) -> i32 {
        format_code(f) as i32
    }
}

/// Every GL code of a format or a filter is a positive `i32`, so the signed
/// and the unsigned conversion give the same number.
pub proof fn lemma_codes_fit_i32(format: TextureFormat, filter: TextureFilter)
    ensures
        0 < format_code(format) <= i32::MAX,
        0 < filter_code(filter) <= i32::MAX,
        (format_code(format) as i32) as int == format_code(format) as int,
        (filter_code(filter) as i32) as int == filter_code(filter) as int,
{
}

} // verus!
