//! Lifecycle of GPU textures for an OpenGL renderer: the GL constants of
//! pixel formats and filters, the exact sequence of GL calls that realizes a
//! texture, and shared ownership with a single deletion on the last release.
//!
//! The library never talks to the GPU itself. It decides which calls are to
//! be made and hands them out as [`GlCommand`] values; the caller performs
//! them on its `glow` context and reports back what the context answered.

pub mod format;
pub mod gl;
pub mod lifecycle;
pub mod texture;

pub use format::{byte_per_pixel, TextureFilter, TextureFormat};
pub use gl::{create_gl_tex_ext, GlCall, GlCommand, TextureKey};
pub use texture::{checked_buffer_len, GlContext, InnerTexture, Pending, PendingTexture};
pub use texture::{Slot, Texture, TextureError, TexturePool};
