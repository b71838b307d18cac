use nae_glow::format::{TextureFilter, TextureFormat};
use nae_glow::gl::{create_gl_tex_ext, GlCommand};
use nae_glow::texture::{GlContext, InnerTexture, Texture, TextureError, TexturePool};
use nae_glow::{byte_per_pixel, checked_buffer_len};

const GL: GlContext = GlContext { id: 11 };

fn configure(tex: u32, width: i32, height: i32, code: u32, filter: i32, len: usize) -> Vec<GlCommand> {
    vec![
        GlCommand::BindTexture { target: glow::TEXTURE_2D, texture: Some(tex) },
        GlCommand::TexParameterI32 {
            target: glow::TEXTURE_2D,
            parameter: glow::TEXTURE_WRAP_S,
            value: glow::CLAMP_TO_EDGE as i32,
        },
        GlCommand::TexParameterI32 {
            target: glow::TEXTURE_2D,
            parameter: glow::TEXTURE_WRAP_T,
            value: glow::CLAMP_TO_EDGE as i32,
        },
        GlCommand::TexParameterI32 {
            target: glow::TEXTURE_2D,
            parameter: glow::TEXTURE_MAG_FILTER,
            value: filter,
        },
        GlCommand::TexParameterI32 {
            target: glow::TEXTURE_2D,
            parameter: glow::TEXTURE_MIN_FILTER,
            value: filter,
        },
        GlCommand::TexImage2d {
            target: glow::TEXTURE_2D,
            level: 0,
            internal_format: code as i32,
            width,
            height,
            border: 0,
            format: code,
            ty: glow::UNSIGNED_BYTE,
            pixels: vec![0u8; len],
        },
        GlCommand::BindTexture { target: glow::TEXTURE_2D, texture: None },
    ]
}

#[test]
fn byte_per_pixel_is_one_only_for_r8_red() {
    let all = [TextureFormat::Rgba, TextureFormat::Red, TextureFormat::R8];
    for internal in all {
        for format in all {
            let expected = if internal == TextureFormat::R8 && format == TextureFormat::Red {
                1
            } else {
                4
            };
            assert_eq!(byte_per_pixel(internal, format), expected);
        }
    }
    assert_eq!(byte_per_pixel(TextureFormat::R8, TextureFormat::Red), 1);
    assert_eq!(byte_per_pixel(TextureFormat::Rgba, TextureFormat::Rgba), 4);
    assert_eq!(byte_per_pixel(TextureFormat::Red, TextureFormat::R8), 4);
}

#[test]
fn format_codes_are_those_of_glow() {
    assert_eq!(u32::from(TextureFormat::Rgba), glow::RGBA);
    assert_eq!(u32::from(TextureFormat::Red), glow::RED);
    assert_eq!(u32::from(TextureFormat::R8), glow::R8);
    assert_eq!(u32::from(TextureFormat::Rgba), 0x1908);
    assert_eq!(u32::from(TextureFormat::Red), 0x1903);
    assert_eq!(u32::from(TextureFormat::R8), 0x8229);
    assert_eq!(i32::from(TextureFormat::Rgba), 0x1908);
    assert_eq!(i32::from(TextureFormat::Red), 0x1903);
    assert_eq!(i32::from(TextureFormat::R8), 0x8229);
}

#[test]
fn filter_codes_are_those_of_glow() {
    assert_eq!(u32::from(TextureFilter::Linear), glow::LINEAR);
    assert_eq!(u32::from(TextureFilter::Nearest), glow::NEAREST);
    assert_eq!(u32::from(TextureFilter::Linear), 0x2601);
    assert_eq!(u32::from(TextureFilter::Nearest), 0x2600);
    assert_eq!(i32::from(TextureFilter::Linear), 0x2601);
    assert_eq!(i32::from(TextureFilter::Nearest), 0x2600);
}

#[test]
fn create_gl_tex_ext_lists_the_calls_in_order() {
    let commands = create_gl_tex_ext(5, 2, 3, vec![1, 2, 3], 10, 20, 30, 40, 4);
    assert_eq!(
        commands,
        vec![
            GlCommand::BindTexture { target: 0x0DE1, texture: Some(5) },
            GlCommand::TexParameterI32 { target: 0x0DE1, parameter: 0x2802, value: 0x812F },
            GlCommand::TexParameterI32 { target: 0x0DE1, parameter: 0x2803, value: 0x812F },
            GlCommand::TexParameterI32 { target: 0x0DE1, parameter: 0x2800, value: 40 },
            GlCommand::TexParameterI32 { target: 0x0DE1, parameter: 0x2801, value: 30 },
            GlCommand::TexImage2d {
                target: 0x0DE1,
                level: 0,
                internal_format: 10,
                width: 2,
                height: 3,
                border: 0,
                format: 20,
                ty: 0x1401,
                pixels: vec![1, 2, 3],
            },
            GlCommand::BindTexture { target: 0x0DE1, texture: None },
        ]
    );
}

#[test]
fn create_gl_tex_ext_sets_alignment_for_one_byte_pixels() {
    let commands = create_gl_tex_ext(5, 3, 1, vec![0, 0, 0], 10, 20, 30, 40, 1);
    assert_eq!(commands.len(), 8);
    assert_eq!(commands[0], GlCommand::PixelStoreI32 { parameter: 0x0CF5, value: 1 });
    assert_eq!(commands[0], GlCommand::PixelStoreI32 { parameter: glow::UNPACK_ALIGNMENT, value: 1 });
    assert_eq!(commands[1], GlCommand::BindTexture { target: 0x0DE1, texture: Some(5) });
    assert!(matches!(commands[6], GlCommand::TexImage2d { .. }));
    let wide = create_gl_tex_ext(5, 3, 1, vec![0; 12], 10, 20, 30, 40, 4);
    assert_eq!(wide.len(), 7);
    assert!(wide.iter().all(|c| !matches!(c, GlCommand::PixelStoreI32 { .. })));
}

#[test]
fn default_texture_three_by_five() {
    let mut pool = TexturePool::new();
    let pending = Texture::from_size(3, 5).unwrap();
    assert_eq!(pending.byte_len(), 60);
    let (texture, commands) = pending.realize(&mut pool, GL, Ok(7)).unwrap();
    assert_eq!(texture.width(&pool), 3);
    assert_eq!(texture.height(&pool), 5);
    assert_eq!(texture.width(&pool) as f32, 3.0);
    assert_eq!(texture.height(&pool) as f32, 5.0);
    assert_eq!(texture.format(&pool), TextureFormat::Rgba);
    assert_eq!(texture.tex(&pool), Some(7));
    assert!(texture.is_live(&pool));
    assert_eq!(commands, configure(7, 3, 5, glow::RGBA, glow::NEAREST as i32, 60));
    match &commands[5] {
        GlCommand::TexImage2d { pixels, .. } => {
            assert_eq!(pixels.len(), 60);
            assert!(pixels.iter().all(|b| *b == 0));
        }
        other => panic!("expected an upload, got {:?}", other),
    }
}

#[test]
fn r8_red_texture_two_by_two() {
    let mut pool = TexturePool::new();
    let pending = Texture::from(
        2,
        2,
        TextureFormat::R8,
        TextureFormat::Red,
        TextureFilter::Nearest,
        TextureFilter::Nearest,
    )
    .unwrap();
    assert_eq!(pending.byte_len(), 4);
    let (texture, commands) = pending.realize(&mut pool, GL, Ok(1)).unwrap();
    assert_eq!(commands.len(), 8);
    assert_eq!(commands[0], GlCommand::PixelStoreI32 { parameter: glow::UNPACK_ALIGNMENT, value: 1 });
    assert_eq!(
        commands[6],
        GlCommand::TexImage2d {
            target: glow::TEXTURE_2D,
            level: 0,
            internal_format: glow::R8 as i32,
            width: 2,
            height: 2,
            border: 0,
            format: glow::RED,
            ty: glow::UNSIGNED_BYTE,
            pixels: vec![0, 0, 0, 0],
        }
    );
    assert_eq!(commands[7], GlCommand::BindTexture { target: glow::TEXTURE_2D, texture: None });
    assert_eq!(texture.format(&pool), TextureFormat::Red);
    assert_eq!(texture.width(&pool), 2);
    assert_eq!(texture.height(&pool), 2);
}

#[test]
fn linear_filters_and_odd_width() {
    let mut pool = TexturePool::new();
    let pending = Texture::from(
        3,
        1,
        TextureFormat::Rgba,
        TextureFormat::Rgba,
        TextureFilter::Linear,
        TextureFilter::Nearest,
    )
    .unwrap();
    let (_, commands) = pending.realize(&mut pool, GL, Ok(2)).unwrap();
    assert_eq!(commands.len(), 7);
    assert_eq!(
        commands[3],
        GlCommand::TexParameterI32 {
            target: glow::TEXTURE_2D,
            parameter: glow::TEXTURE_MAG_FILTER,
            value: glow::NEAREST as i32,
        }
    );
    assert_eq!(
        commands[4],
        GlCommand::TexParameterI32 {
            target: glow::TEXTURE_2D,
            parameter: glow::TEXTURE_MIN_FILTER,
            value: glow::LINEAR as i32,
        }
    );
    assert!(commands.iter().all(|c| !matches!(c, GlCommand::PixelStoreI32 { .. })));
}

#[test]
fn sizes_that_are_not_positive_are_refused() {
    assert_eq!(Texture::from_size(0, 5).err(), Some(TextureError::InvalidSize));
    assert_eq!(Texture::from_size(5, 0).err(), Some(TextureError::InvalidSize));
    assert_eq!(Texture::from_size(-1, 5).err(), Some(TextureError::InvalidSize));
    assert_eq!(Texture::from_size(5, i32::MIN).err(), Some(TextureError::InvalidSize));
    assert!(Texture::from_size(1, 1).is_ok());
}

#[test]
fn buffers_beyond_any_allocation_are_refused() {
    let r = Texture::from_size(i32::MAX, i32::MAX);
    assert_eq!(r.err(), Some(TextureError::TooLarge));
}

#[test]
fn refused_creation_passes_the_message_on() {
    let mut pool = TexturePool::new();
    let pending = Texture::from_size(3, 5).unwrap();
    let r = pending.realize(&mut pool, GL, Err(String::from("out of texture names")));
    assert_eq!(r.err(), Some(TextureError::Context(String::from("out of texture names"))));
    assert_eq!(pool.len(), 0);
}

#[test]
fn last_release_deletes_once() {
    let mut pool = TexturePool::new();
    let (first, _) = Texture::from_size(4, 4).unwrap().realize(&mut pool, GL, Ok(21)).unwrap();
    let second = first.share(&mut pool).unwrap();
    let third = second.share(&mut pool).unwrap();
    let stale = Texture::from_size(1, 1);
    assert!(stale.is_ok());
    assert_eq!(first.release(&mut pool), None);
    assert!(second.is_live(&pool));
    assert_eq!(third.release(&mut pool), None);
    assert_eq!(second.tex(&pool), Some(21));
    let probe = second.share(&mut pool).unwrap();
    assert_eq!(probe.release(&mut pool), None);
    let watcher = second.share(&mut pool).unwrap();
    assert_eq!(second.release(&mut pool), None);
    assert_eq!(watcher.tex(&pool), Some(21));
    let call = {
        let again = watcher.share(&mut pool).unwrap();
        assert_eq!(watcher.release(&mut pool), None);
        let inner_before = again.inner(&pool);
        assert_eq!(inner_before.gl, Some(GL));
        again.release(&mut pool)
    };
    assert_eq!(call, Some((GL, GlCommand::DeleteTexture { texture: 21 })));
    assert_eq!(pool.len(), 1);
}

#[test]
fn release_after_teardown_deletes_nothing() {
    let mut pool = TexturePool::new();
    let (texture, _) = Texture::from_size(4, 4).unwrap().realize(&mut pool, GL, Ok(3)).unwrap();
    let (other, _) = Texture::from_size(2, 2).unwrap().realize(&mut pool, GL, Ok(4)).unwrap();
    let alias = texture.share(&mut pool).unwrap();
    assert_eq!(alias.release(&mut pool), None);
    let alias = texture.share(&mut pool).unwrap();
    assert_eq!(texture.release(&mut pool), None);
    let probe = other.share(&mut pool).unwrap();
    assert_eq!(alias.release(&mut pool), Some((GL, GlCommand::DeleteTexture { texture: 3 })));
    assert!(probe.is_live(&pool));
    assert_eq!(probe.tex(&pool), Some(4));
    assert_eq!(probe.release(&mut pool), None);
    assert_eq!(other.release(&mut pool), Some((GL, GlCommand::DeleteTexture { texture: 4 })));
}

#[test]
fn handles_to_a_torn_down_texture_are_dead() {
    let mut pool = TexturePool::new();
    let (texture, _) = Texture::from_size(4, 6).unwrap().realize(&mut pool, GL, Ok(3)).unwrap();
    let mut scratch = TexturePool::new();
    let (stale, _) = Texture::from_size(1, 1).unwrap().realize(&mut scratch, GL, Ok(9)).unwrap();
    assert_eq!(texture.release(&mut pool), Some((GL, GlCommand::DeleteTexture { texture: 3 })));
    assert!(!stale.is_live(&pool));
    assert_eq!(stale.tex(&pool), None);
    assert_eq!(stale.width(&pool), 4);
    assert_eq!(stale.height(&pool), 6);
    assert!(stale.share(&mut pool).is_none());
    assert_eq!(stale.release(&mut pool), None);
    assert_eq!(pool.len(), 1);
}

#[test]
fn empty_state_has_nothing_to_delete() {
    let mut inner = InnerTexture::empty(8, 9);
    assert_eq!(inner.width, 8);
    assert_eq!(inner.height, 9);
    assert_eq!(inner.gl, None);
    assert_eq!(inner.tex, None);
    assert_eq!(inner.format, TextureFormat::Rgba);
    assert_eq!(inner.teardown(), None);
}

#[test]
fn teardown_deletes_once() {
    let mut inner = InnerTexture::empty(8, 9);
    inner.gl = Some(GL);
    inner.tex = Some(5);
    assert_eq!(inner.teardown(), Some((GL, GlCommand::DeleteTexture { texture: 5 })));
    assert_eq!(inner.tex, None);
    assert_eq!(inner.gl, None);
    assert_eq!(inner.width, 8);
    assert_eq!(inner.teardown(), None);
}

#[test]
fn teardown_without_context_skips_the_deletion() {
    let mut inner = InnerTexture::empty(8, 9);
    inner.tex = Some(5);
    assert_eq!(inner.teardown(), None);
    assert_eq!(inner.tex, None);
}

#[test]
fn handles_in_one_pool_get_slots_in_order() {
    let mut pool = TexturePool::new();
    let (a, _) = Texture::from_size(1, 2).unwrap().realize(&mut pool, GL, Ok(1)).unwrap();
    let (b, _) = Texture::from_size(3, 4).unwrap().realize(&mut pool, GlContext { id: 2 }, Ok(2)).unwrap();
    assert_eq!(pool.len(), 2);
    assert_eq!((a.width(&pool), a.height(&pool)), (1, 2));
    assert_eq!((b.width(&pool), b.height(&pool)), (3, 4));
    assert_eq!(b.inner(&pool).gl, Some(GlContext { id: 2 }));
    assert_eq!(a.inner(&pool).gl, Some(GL));
}

#[test]
fn checked_buffer_len_multiplies_size_and_pixel_width() {
    assert_eq!(checked_buffer_len(3, 5, TextureFormat::Rgba, TextureFormat::Rgba), Ok(60));
    assert_eq!(checked_buffer_len(2, 2, TextureFormat::R8, TextureFormat::Red), Ok(4));
    assert_eq!(checked_buffer_len(7, 3, TextureFormat::Red, TextureFormat::Red), Ok(84));
    assert_eq!(
        checked_buffer_len(0, 2, TextureFormat::R8, TextureFormat::Red),
        Err(TextureError::InvalidSize)
    );
    assert_eq!(
        checked_buffer_len(i32::MAX, i32::MAX, TextureFormat::Rgba, TextureFormat::Rgba),
        Err(TextureError::TooLarge)
    );
    assert_eq!(
        checked_buffer_len(i32::MAX, 1, TextureFormat::R8, TextureFormat::Red),
        Ok(i32::MAX as usize)
    );
}

#[test]
fn from_pixels_keeps_the_pixels() {
    let mut pool = TexturePool::new();
    let pending = Texture::from_pixels(
        3,
        1,
        TextureFormat::R8,
        TextureFormat::Red,
        TextureFilter::Linear,
        TextureFilter::Linear,
        vec![9, 8, 7],
    )
    .unwrap();
    assert_eq!(pending.byte_len(), 3);
    let (texture, commands) = pending.realize(&mut pool, GL, Ok(6)).unwrap();
    assert_eq!(commands.len(), 8);
    assert_eq!(commands[0], GlCommand::PixelStoreI32 { parameter: glow::UNPACK_ALIGNMENT, value: 1 });
    assert_eq!(
        commands[6],
        GlCommand::TexImage2d {
            target: glow::TEXTURE_2D,
            level: 0,
            internal_format: glow::R8 as i32,
            width: 3,
            height: 1,
            border: 0,
            format: glow::RED,
            ty: glow::UNSIGNED_BYTE,
            pixels: vec![9, 8, 7],
        }
    );
    assert_eq!(texture.width(&pool), 3);
    assert_eq!(texture.format(&pool), TextureFormat::Red);
}

#[test]
fn from_pixels_refuses_a_wrong_length() {
    let short = Texture::from_pixels(
        2,
        2,
        TextureFormat::Rgba,
        TextureFormat::Rgba,
        TextureFilter::Nearest,
        TextureFilter::Nearest,
        vec![0; 15],
    );
    assert_eq!(short.err(), Some(TextureError::WrongLength));
    let sized = Texture::from_pixels(
        0,
        2,
        TextureFormat::Rgba,
        TextureFormat::Rgba,
        TextureFilter::Nearest,
        TextureFilter::Nearest,
        vec![],
    );
    assert_eq!(sized.err(), Some(TextureError::InvalidSize));
    let exact = Texture::from_pixels(
        2,
        2,
        TextureFormat::Rgba,
        TextureFormat::Rgba,
        TextureFilter::Nearest,
        TextureFilter::Nearest,
        vec![0; 16],
    );
    assert!(exact.is_ok());
}

#[test]
fn error_messages() {
    assert_eq!(TextureError::InvalidSize.message(), "texture width and height must be positive");
    assert_eq!(TextureError::TooLarge.message(), "texture is too large to allocate");
    assert_eq!(TextureError::WrongLength.message(), "pixel data does not match the texture size");
    assert_eq!(TextureError::Context(String::from("no context")).message(), "no context");
}

#[test]
fn lost_context_skips_the_deletion() {
    let mut pool = TexturePool::new();
    let other = GlContext { id: 12 };
    let (a, _) = Texture::from_size(1, 2).unwrap().realize(&mut pool, GL, Ok(1)).unwrap();
    let (b, _) = Texture::from_size(3, 4).unwrap().realize(&mut pool, other, Ok(1)).unwrap();
    let (c, _) = Texture::from_size(5, 6).unwrap().realize(&mut pool, GL, Ok(2)).unwrap();
    let a2 = a.share(&mut pool).unwrap();
    pool.context_lost(GL);
    assert_eq!(pool.len(), 3);
    assert!(a.is_live(&pool));
    assert_eq!(a.tex(&pool), None);
    assert_eq!(a.inner(&pool).gl, None);
    assert_eq!((a.width(&pool), a.height(&pool)), (1, 2));
    assert_eq!(b.tex(&pool), Some(1));
    assert_eq!(b.inner(&pool).gl, Some(other));
    assert_eq!(c.tex(&pool), None);
    assert_eq!((c.width(&pool), c.height(&pool)), (5, 6));
    assert_eq!(a.release(&mut pool), None);
    assert_eq!(a2.release(&mut pool), None);
    assert_eq!(c.release(&mut pool), None);
    assert_eq!(b.release(&mut pool), Some((other, GlCommand::DeleteTexture { texture: 1 })));
}
