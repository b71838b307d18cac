//! The GL constants the texture code needs, and the GL calls it asks for.

use vstd::prelude::*;

verus! {

/// Name of a texture object, as the GL context handed it out.
pub type TextureKey = u32;

/// Value of `GL_RGBA`.
pub open spec fn gl_rgba() -> u32 { 0x1908 }

/// Value of `GL_RED`.
pub open spec fn gl_red() -> u32 { 0x1903 }

/// Value of `GL_R8`.
pub open spec fn gl_r8() -> u32 { 0x8229 }

/// Value of `GL_NEAREST`.
pub open spec fn gl_nearest() -> u32 { 0x2600 }

/// Value of `GL_LINEAR`.
pub open spec fn gl_linear() -> u32 { 0x2601 }

/// Value of `GL_TEXTURE_2D`.
pub open spec fn gl_texture_2d() -> u32 { 0x0DE1 }

/// Value of `GL_TEXTURE_WRAP_S`.
pub open spec fn gl_texture_wrap_s() -> u32 { 0x2802 }

/// Value of `GL_TEXTURE_WRAP_T`.
pub open spec fn gl_texture_wrap_t() -> u32 { 0x2803 }

/// Value of `GL_TEXTURE_MAG_FILTER`.
pub open spec fn gl_texture_mag_filter() -> u32 { 0x2800 }

/// Value of `GL_TEXTURE_MIN_FILTER`.
pub open spec fn gl_texture_min_filter() -> u32 { 0x2801 }

/// Value of `GL_CLAMP_TO_EDGE`.
pub open spec fn gl_clamp_to_edge() -> u32 { 0x812F }

/// Value of `GL_UNSIGNED_BYTE`.
pub open spec fn gl_unsigned_byte() -> u32 { 0x1401 }

/// Value of `GL_UNPACK_ALIGNMENT`.
pub open spec fn gl_unpack_alignment() -> u32 { 0x0CF5 }

/// Trusted: `glow::RGBA` is 0x1908.
#[verifier::external_body]
pub(crate) fn rgba() -> (r: u32)
    ensures r == gl_rgba(),
{
    glow::RGBA
}

/// Trusted: `glow::RED` is 0x1903.
#[verifier::external_body]
pub(crate) fn red() -> (r: u32)
    ensures r == gl_red(),
{
    glow::RED
}

/// Trusted: `glow::R8` is 0x8229.
#[verifier::external_body]
pub(crate) fn r8() -> (r: u32)
    ensures r == gl_r8(),
{
    glow::R8
}

/// Trusted: `glow::NEAREST` is 0x2600.
#[verifier::external_body]
pub(crate) fn nearest() -> (r: u32)
    ensures r == gl_nearest(),
{
    glow::NEAREST
}

/// Trusted: `glow::LINEAR` is 0x2601.
#[verifier::external_body]
pub(crate) fn linear() -> (r: u32)
    ensures r == gl_linear(),
{
    glow::LINEAR
}

/// Trusted: `glow::TEXTURE_2D` is 0x0DE1.
#[verifier::external_body]
pub(crate) fn texture_2d() -> (r: u32)
    ensures r == gl_texture_2d(),
{
    glow::TEXTURE_2D
}

/// Trusted: `glow::TEXTURE_WRAP_S` is 0x2802.
#[verifier::external_body]
pub(crate) fn texture_wrap_s() -> (r: u32)
    ensures r == gl_texture_wrap_s(),
{
    glow::TEXTURE_WRAP_S
}

/// Trusted: `glow::TEXTURE_WRAP_T` is 0x2803.
#[verifier::external_body]
pub(crate) fn texture_wrap_t() -> (r: u32)
    ensures r == gl_texture_wrap_t(),
{
    glow::TEXTURE_WRAP_T
}

/// Trusted: `glow::TEXTURE_MAG_FILTER` is 0x2800.
#[verifier::external_body]
pub(crate) fn texture_mag_filter() -> (r: u32)
    ensures r == gl_texture_mag_filter(),
{
    glow::TEXTURE_MAG_FILTER
}

/// Trusted: `glow::TEXTURE_MIN_FILTER` is 0x2801.
#[verifier::external_body]
pub(crate) fn texture_min_filter() -> (r: u32)
    ensures r == gl_texture_min_filter(),
{
    glow::TEXTURE_MIN_FILTER
}

/// Trusted: `glow::CLAMP_TO_EDGE` is 0x812F.
#[verifier::external_body]
pub(crate) fn clamp_to_edge() -> (r: u32)
    ensures r == gl_clamp_to_edge(),
{
    glow::CLAMP_TO_EDGE
}

/// Trusted: `glow::UNSIGNED_BYTE` is 0x1401.
#[verifier::external_body]
pub(crate) fn unsigned_byte() -> (r: u32)
    ensures r == gl_unsigned_byte(),
{
    glow::UNSIGNED_BYTE
}

/// Trusted: `glow::UNPACK_ALIGNMENT` is 0x0CF5.
#[verifier::external_body]
pub(crate) fn unpack_alignment() -> (r: u32)
    ensures r == gl_unpack_alignment(),
{
    glow::UNPACK_ALIGNMENT
}

/// One call to be made on the GL context, with the arguments that `glow`
/// takes for it.
#[allow(inconsistent_fields)]
#[derive(Debug, PartialEq, Eq)]
pub enum GlCommand {
    /// `pixel_store_i32(parameter, value)`
    PixelStoreI32 { parameter: u32, value: i32 },
    /// `bind_texture(target, texture)`
    BindTexture { target: u32, texture: Option<TextureKey> },
    /// `tex_parameter_i32(target, parameter, value)`
    TexParameterI32 { target: u32, parameter: u32, value: i32 },
    /// `tex_image_2d(target, level, internal_format, width, height, border,
    /// format, ty, pixels)`, the pixels given as a slice
    TexImage2d {
        target: u32,
        level: i32,
        internal_format: i32,
        width: i32,
        height: i32,
        border: i32,
        format: u32,
        ty: u32,
        pixels: Vec<u8>,
    },
    /// `delete_texture(texture)`
    DeleteTexture { texture: TextureKey },
}

/// A [`GlCommand`] as a mathematical value: the pixel buffer is a sequence.
#[allow(inconsistent_fields)]
pub enum GlCall {
    PixelStoreI32 { parameter: u32, value: i32 },
    BindTexture { target: u32, texture: Option<TextureKey> },
    TexParameterI32 { target: u32, parameter: u32, value: i32 },
    TexImage2d {
        target: u32,
        level: i32,
        internal_format: i32,
        width: i32,
        height: i32,
        border: i32,
        format: u32,
        ty: u32,
        pixels: Seq<u8>,
    },
    DeleteTexture { texture: TextureKey },
}

impl View for GlCommand {
    type V = GlCall;

    open spec fn view(&self) -> GlCall {
        match *self {
            GlCommand::PixelStoreI32 { parameter, value } => GlCall::PixelStoreI32 {
                parameter,
                value,
            },
            GlCommand::BindTexture { target, texture } => GlCall::BindTexture { target, texture },
            GlCommand::TexParameterI32 { target, parameter, value } => GlCall::TexParameterI32 {
                target,
                parameter,
                value,
            },
            GlCommand::TexImage2d {
                target,
                level,
                internal_format,
                width,
                height,
                border,
                format,
                ty,
                pixels,
            } => GlCall::TexImage2d {
                target,
                level,
                internal_format,
                width,
                height,
                border,
                format,
                ty,
                pixels: pixels@,
            },
            GlCommand::DeleteTexture { texture } => GlCall::DeleteTexture { texture },
        }
    }
}

/// The calls that a list of commands stands for, in order.
pub open spec fn command_views(commands: Seq<GlCommand>) -> Seq<GlCall> {
    commands.map_values(|c: GlCommand| c@)
}

/// The call that sets the unpack alignment to one byte.
pub open spec fn alignment_call() -> GlCall {
    GlCall::PixelStoreI32 { parameter: gl_unpack_alignment(), value: 1 }
}

/// The calls that configure and fill a freshly created texture object:
/// bind it, clamp both axes to the edge, set the magnification and the
/// minification filter, upload `data` as level 0, and unbind.
pub open spec fn configure_calls(
    tex: TextureKey,
    width: i32,
    height: i32,
    data: Seq<u8>,
    internal: i32,
    format: u32,
    min_filter: i32,
    mag_filter: i32,
) -> Seq<GlCall> {
    seq![
        GlCall::BindTexture { target: gl_texture_2d(), texture: Some(tex) },
        GlCall::TexParameterI32 {
            target: gl_texture_2d(),
            parameter: gl_texture_wrap_s(),
            value: gl_clamp_to_edge() as i32,
        },
        GlCall::TexParameterI32 {
            target: gl_texture_2d(),
            parameter: gl_texture_wrap_t(),
            value: gl_clamp_to_edge() as i32,
        },
        GlCall::TexParameterI32 {
            target: gl_texture_2d(),
            parameter: gl_texture_mag_filter(),
            value: mag_filter,
        },
        GlCall::TexParameterI32 {
            target: gl_texture_2d(),
            parameter: gl_texture_min_filter(),
            value: min_filter,
        },
        GlCall::TexImage2d {
            target: gl_texture_2d(),
            level: 0,
            internal_format: internal,
            width,
            height,
            border: 0,
            format,
            ty: gl_unsigned_byte(),
            pixels: data,
        },
        GlCall::BindTexture { target: gl_texture_2d(), texture: None },
    ]
}

/// All calls that follow the creation of texture object `tex`, in the order
/// in which they are to be made: the alignment call first where a pixel is
/// one byte wide, then [`configure_calls`].
pub open spec fn creation_calls(
    tex: TextureKey,
    width: i32,
    height: i32,
    data: Seq<u8>,
    internal: i32,
    format: u32,
    min_filter: i32,
    mag_filter: i32,
    bytes_per_pixel: usize,
) -> Seq<GlCall> {
    let configure = configure_calls(
        tex,
        width,
        height,
        data,
        internal,
        format,
        min_filter,
        mag_filter,
    );
    if bytes_per_pixel == 1 {
        seq![alignment_call()] + configure
    } else {
        configure
    }
}

/// Lists the GL calls that turn the new texture object `tex` into a
/// `width` by `height` texture holding `data`, and leave no texture bound.
pub fn create_gl_tex_ext(
    tex: TextureKey,
    width: i32,
    height: i32,
    data: Vec<u8>,
    internal: i32,
    format: u32,
    min_filter: i32,
    mag_filter: i32,
    bytes_per_pixel: usize,
) -> (commands: Vec<GlCommand>)
    ensures
        command_views(commands@) == creation_calls(
            tex,
            width,
            height,
            data@,
            internal,
            format,
            min_filter,
            mag_filter,
            bytes_per_pixel,
        ),
{
    let mut commands: Vec<GlCommand> = Vec::new();
    if bytes_per_pixel == 1 {
        commands.push(GlCommand::PixelStoreI32 { parameter: unpack_alignment(), value: 1 });
    }
    let target: u32 = texture_2d();
    let clamp: i32 = clamp_to_edge() as i32;
    commands.push(GlCommand::BindTexture { target, texture: Some(tex) });
    commands.push(
        GlCommand::TexParameterI32 { target, parameter: texture_wrap_s(), value: clamp },
    );
    commands.push(
        GlCommand::TexParameterI32 { target, parameter: texture_wrap_t(), value: clamp },
    );
    commands.push(
        GlCommand::TexParameterI32 { target, parameter: texture_mag_filter(), value: mag_filter },
    );
    commands.push(
        GlCommand::TexParameterI32 { target, parameter: texture_min_filter(), value: min_filter },
    );
    commands.push(
        GlCommand::TexImage2d {
            target,
            level: 0,
            internal_format: internal,
            width,
            height,
            border: 0,
            format,
            ty: unsigned_byte(),
            pixels: data,
        },
    );
    commands.push(GlCommand::BindTexture { target, texture: None });
    assert(command_views(commands@) =~= creation_calls(
        tex,
        width,
        height,
        data@,
        internal,
        format,
        min_filter,
        mag_filter,
        bytes_per_pixel,
    ));
    commands
}

/// The alignment is set to one byte exactly where a pixel is one byte wide,
/// and then before anything else; the upload is the last call but one, and
/// the last call leaves no texture bound.
pub proof fn lemma_alignment_precedes_upload(
    tex: TextureKey,
    width: i32,
    height: i32,
    data: Seq<u8>,
    internal: i32,
    format: u32,
    min_filter: i32,
    mag_filter: i32,
    bytes_per_pixel: usize,
)
    ensures
        ({
            let calls = creation_calls(
                tex,
                width,
                height,
                data,
                internal,
                format,
                min_filter,
                mag_filter,
                bytes_per_pixel,
            );
            let n = calls.len() as int;
            &&& n == if bytes_per_pixel == 1 { 8int } else { 7int }
            &&& bytes_per_pixel == 1 ==> calls[0] == alignment_call()
            &&& bytes_per_pixel != 1 ==> forall|i: int|
                0 <= i < n ==> !(#[trigger] calls[i] is PixelStoreI32)
            &&& forall|i: int| 0 <= i < n && #[trigger] calls[i] is PixelStoreI32 ==> i == 0
            &&& calls[n - 2] is TexImage2d
            &&& calls[n - 2]->TexImage2d_pixels == data
            &&& forall|i: int| 0 <= i < n && #[trigger] calls[i] is TexImage2d ==> i == n - 2
            &&& calls[n - 7] == (GlCall::BindTexture {
                target: gl_texture_2d(),
                texture: Some(tex),
            })
            &&& calls[n - 1] == (GlCall::BindTexture { target: gl_texture_2d(), texture: None })
        }),
{
}

} // verus!
