//! Textures: the state behind each one, the handles that share it, and the
//! pipeline that creates it.

use vstd::prelude::*;
use crate::format::{byte_per_pixel, bytes_per_pixel, filter_code, format_code};
use crate::format::{lemma_codes_fit_i32, TextureFilter, TextureFormat};
use crate::gl::{command_views, create_gl_tex_ext, creation_calls};
use crate::gl::{GlCall, GlCommand, TextureKey};

verus! {

/// Names the GL context that a texture object lives in. The caller keeps the
/// context itself and finds it again by this number.
#[derive(Clone, Copy, Debug, PartialEq, Eq)]
pub struct GlContext {
    pub id: u64,
}

/// Why no texture was created.
#[derive(Debug, PartialEq, Eq)]
pub enum TextureError {
    /// The width or the height is zero or negative.
    InvalidSize,
    /// The pixel buffer would be larger than any allocation can be.
    TooLarge,
    /// The pixels handed in are not as many as the size and the format ask
    /// for.
    WrongLength,
    /// The GL context could not create a texture object; its message.
    Context(String),
}

impl TextureError {
    /// The error in words; for a refusal by the context, the context's own
    /// message.
    pub open spec fn message_spec(self) -> Seq<char> {
        match self {
            TextureError::InvalidSize => "texture width and height must be positive"@,
            TextureError::TooLarge => "texture is too large to allocate"@,
            TextureError::WrongLength => "pixel data does not match the texture size"@,
            TextureError::Context(message) => message@,
        }
    }

    /// The error in words; for a refusal by the context, the context's own
    /// message.
    pub fn message(&self) -> (text: String)
        ensures
            text@ == self.message_spec(),
    {
        match self {
            TextureError::InvalidSize => "texture width and height must be positive".to_owned(),
            TextureError::TooLarge => "texture is too large to allocate".to_owned(),
            TextureError::WrongLength => "pixel data does not match the texture size".to_owned(),
            TextureError::Context(message) => message.clone(),
        }
    }
}

/// The state behind a texture: its size and format, the texture object on
/// the GPU, if there is one, and the context that the object lives in.
#[derive(Clone, Copy, Debug, PartialEq, Eq)]
pub struct InnerTexture {
    pub width: i32,
    pub height: i32,
    pub gl: Option<GlContext>,
    pub tex: Option<TextureKey>,
    pub format: TextureFormat,
}

impl InnerTexture {
    /// A texture object is only ever held together with its context.
    pub open spec fn wf(self) -> bool {
        self.tex is Some ==> self.gl is Some
    }

    /// The state of a texture of the given size that has no object on the
    /// GPU yet.
    pub open spec fn empty_spec(width: i32, height: i32) -> InnerTexture {
        InnerTexture { width, height, gl: None, tex: None, format: TextureFormat::Rgba }
    }

    /// The call that frees what this state holds on the GPU, with the
    /// context to make it on: the deletion of its texture object where it
    /// has one and the context is known, else none.
    pub open spec fn teardown_call(self) -> Option<(GlContext, GlCall)> {
        if self.gl is Some && self.tex is Some {
            Some((self.gl->Some_0, GlCall::DeleteTexture { texture: self.tex->Some_0 }))
        } else {
            None
        }
    }

    /// This state after teardown: it holds no texture object and no context.
    pub open spec fn torn_down(self) -> InnerTexture {
        InnerTexture { gl: None, tex: None, ..self }
    }

    /// The state of a texture of the given size that has no object on the
    /// GPU yet.
    pub fn empty(width: i32, height: i32) -> (inner: InnerTexture)
        ensures
            inner == Self::empty_spec(width, height),
            inner.wf(),
            inner.teardown_call() is None,
    {
        InnerTexture { width, height, gl: None, tex: None, format: TextureFormat::Rgba }
    }

    /// Gives up what the state holds on the GPU. Returns the deletion to be
    /// performed and the context to perform it on, if there is one; the
    /// state no longer holds the object afterwards, so a second teardown
    /// returns nothing.
    pub fn teardown(&mut self) -> (call: Option<(GlContext, GlCommand)>)
        ensures
            *final(self) == old(self).torn_down(),
            call_view(call) == old(self).teardown_call(),
            final(self).teardown_call() is None,
    {
        let call = match (self.gl, self.tex) {
            (Some(gl), Some(tex)) => Some((gl, GlCommand::DeleteTexture { texture: tex })),
            _ => None,
        };
        self.gl = None;
        self.tex = None;
        call
    }
}

/// What a returned deletion stands for: the context and the call.
pub open spec fn call_view(call: Option<(GlContext, GlCommand)>) -> Option<(GlContext, GlCall)> {
    match call {
        Some((gl, command)) => Some((gl, command@)),
        None => None,
    }
}

/// A texture state together with the number of handles that refer to it.
#[derive(Clone, Copy, Debug, PartialEq, Eq)]
pub struct Slot {
    pub inner: InnerTexture,
    pub owners: usize,
}

impl Slot {
    /// The state is well formed and its size positive, and once no handle
    /// is left it holds no texture object any more.
    pub open spec fn wf(self) -> bool {
        &&& self.inner.wf()
        &&& self.inner.width > 0
        &&& self.inner.height > 0
        &&& self.owners == 0 ==> self.inner.tex is None
    }
}

/// Every slot is well formed.
pub open spec fn slots_wf(slots: Seq<Slot>) -> bool {
    forall|i: int| 0 <= i < slots.len() ==> (#[trigger] slots[i]).wf()
}

/// Whether slot `id` exists and some handle still refers to it.
pub open spec fn live(slots: Seq<Slot>, id: int) -> bool {
    0 <= id < slots.len() && slots[id].owners > 0
}

/// The slots after one more handle to slot `id` has been handed out.
pub open spec fn shared(slots: Seq<Slot>, id: int) -> Seq<Slot> {
    if live(slots, id) && slots[id].owners < usize::MAX {
        slots.update(id, Slot { owners: (slots[id].owners + 1) as usize, ..slots[id] })
    } else {
        slots
    }
}

/// The slots after one handle to slot `id` has been released: one owner
/// fewer, and the state torn down when that was the last one. Releasing a
/// handle to a slot that nobody owns changes nothing.
pub open spec fn released(slots: Seq<Slot>, id: int) -> Seq<Slot> {
    if !live(slots, id) {
        slots
    } else if slots[id].owners == 1 {
        slots.update(id, Slot { inner: slots[id].inner.torn_down(), owners: 0 })
    } else {
        slots.update(id, Slot { owners: (slots[id].owners - 1) as usize, ..slots[id] })
    }
}

/// The call that releasing one handle to slot `id` asks for, with its
/// context: the teardown of the state when the handle is the last one, else
/// none.
pub open spec fn release_call(slots: Seq<Slot>, id: int) -> Option<(GlContext, GlCall)> {
    if live(slots, id) && slots[id].owners == 1 {
        slots[id].inner.teardown_call()
    } else {
        None
    }
}

/// The slots after context `gl` has gone, and every texture object in it
/// with it: the states that named it hold neither object nor context any
/// more, so that nothing will be deleted on it; the others are as before.
pub open spec fn without_context(slots: Seq<Slot>, gl: GlContext) -> Seq<Slot> {
    Seq::new(
        slots.len(),
        |i: int|
            if slots[i].inner.gl == Some(gl) {
                Slot { inner: slots[i].inner.torn_down(), owners: slots[i].owners }
            } else {
                slots[i]
            },
    )
}

/// The texture states of one renderer, each with its count of handles.
pub struct TexturePool {
    slots: Vec<Slot>,
}

impl View for TexturePool {
    type V = Seq<Slot>;

    closed spec fn view(&self) -> Seq<Slot> {
        self.slots@
    }
}

impl TexturePool {
    /// Every slot of the pool is well formed.
    pub open spec fn wf(&self) -> bool {
        slots_wf(self@)
    }

    /// A pool without textures.
    pub fn new() -> (pool: TexturePool)
        ensures
            pool@ == Seq::<Slot>::empty(),
            pool.wf(),
    {
        TexturePool { slots: Vec::new() }
    }

    /// How many textures were ever created in this pool.
    pub fn len(&self) -> (n: usize)
        ensures
            n == self@.len(),
    {
        self.slots.len()
    }

    /// Records that context `gl` has been destroyed. Its textures keep their
    /// handles, sizes and formats, but no longer hold a texture object, so
    /// that releasing them asks for no deletion.
    pub fn context_lost(&mut self, gl: GlContext)
        requires
            old(self).wf(),
        ensures
            final(self).wf(),
            final(self)@ == without_context(old(self)@, gl),
    {
        let ghost before = self@;
        let n: usize = self.slots.len();
        let mut i: usize = 0;
        while i < n
            invariant
                i <= n,
                n == before.len(),
                self@.len() == n,
                slots_wf(before),
                forall|j: int| 0 <= j < i ==> self@[j] == without_context(before, gl)[j],
                forall|j: int| i <= j < n ==> self@[j] == before[j],
            decreases n - i,
        {
            let slot: Slot = self.slots[i];
            let named = match slot.inner.gl {
                Some(context) => context.id == gl.id,
                None => false,
            };
            if named {
                let mut inner: InnerTexture = slot.inner;
                inner.gl = None;
                inner.tex = None;
                self.slots.set(i, Slot { inner, owners: slot.owners });
            }
            i += 1;
        }
        assert(self@ =~= without_context(before, gl));
        assert forall|j: int| 0 <= j < self@.len() implies (#[trigger] self@[j]).wf() by {
            assert(before[j].wf());
        }
    }
}

/// A handle to a texture of a [`TexturePool`]. Several handles may refer to
/// one texture; the texture object is deleted when the last one is released.
#[derive(Debug)]
pub struct Texture {
    slot: usize,
}

impl Texture {
    /// The slot of the pool that the handle refers to.
    pub closed spec fn id(&self) -> int {
        self.slot as int
    }

    /// Whether the handle refers to a texture of `pool` that still has an
    /// owner.
    pub fn is_live(&self, pool: &TexturePool) -> (b: bool)
        ensures
            b == live(pool@, self.id()),
    {
        self.slot < pool.slots.len() && pool.slots[self.slot].owners > 0
    }

    /// The state behind the handle.
    pub fn inner(&self, pool: &TexturePool) -> (inner: InnerTexture)
        requires
            0 <= self.id() < pool@.len(),
        ensures
            inner == pool@[self.id()].inner,
    {
        pool.slots[self.slot].inner
    }

    /// The texture object on the GPU, while there is one.
    pub fn tex(&self, pool: &TexturePool) -> (tex: Option<TextureKey>)
        requires
            0 <= self.id() < pool@.len(),
        ensures
            tex == pool@[self.id()].inner.tex,
    {
        pool.slots[self.slot].inner.tex
    }

    /// Width in pixels.
    pub fn width(&self, pool: &TexturePool) -> (width: i32)
        requires
            0 <= self.id() < pool@.len(),
        ensures
            width == pool@[self.id()].inner.width,
    {
        pool.slots[self.slot].inner.width
    }

    /// Height in pixels.
    pub fn height(&self, pool: &TexturePool) -> (height: i32)
        requires
            0 <= self.id() < pool@.len(),
        ensures
            height == pool@[self.id()].inner.height,
    {
        pool.slots[self.slot].inner.height
    }

    /// The pixel format that the texture was created with.
    pub fn format(&self, pool: &TexturePool) -> (format: TextureFormat)
        requires
            0 <= self.id() < pool@.len(),
        ensures
            format == pool@[self.id()].inner.format,
    {
        pool.slots[self.slot].inner.format
    }

    /// Hands out one more handle to the same texture. There is none for a
    /// texture that has no owner left, nor when the count of owners cannot
    /// grow.
    pub fn share(&self, pool: &mut TexturePool) -> (other: Option<Texture>)
        requires
            old(pool).wf(),
        ensures
            final(pool).wf(),
            final(pool)@ == shared(old(pool)@, self.id()),
            other.is_some() == (live(old(pool)@, self.id()) && old(pool)@[self.id()].owners
                < usize::MAX),
            other matches Some(t) ==> t.id() == self.id(),
    {
        if self.slot < pool.slots.len() {
            let slot: Slot = pool.slots[self.slot];
            if slot.owners > 0 && slot.owners < usize::MAX {
                pool.slots.set(self.slot, Slot { inner: slot.inner, owners: slot.owners + 1 });
                return Some(Texture { slot: self.slot });
            }
        }
        None
    }

    /// Gives the handle up. When it was the last one to its texture, the
    /// state is torn down and the deletion of the texture object is
    /// returned, with the context to perform it on.
    pub fn release(self, pool: &mut TexturePool) -> (call: Option<(GlContext, GlCommand)>)
        requires
            old(pool).wf(),
        ensures
            final(pool).wf(),
            final(pool)@ == released(old(pool)@, self.id()),
            call_view(call) == release_call(old(pool)@, self.id()),
    {
        if self.slot < pool.slots.len() {
            let slot: Slot = pool.slots[self.slot];
            if slot.owners == 1 {
                let mut inner: InnerTexture = slot.inner;
                let call = inner.teardown();
                pool.slots.set(self.slot, Slot { inner, owners: 0 });
                return call;
            } else if slot.owners > 1 {
                pool.slots.set(self.slot, Slot { inner: slot.inner, owners: slot.owners - 1 });
            }
        }
        None
    }
}

/// A texture that has passed validation and waits for its texture object:
/// what was asked for, and the zero-filled pixels to upload.
#[derive(Debug)]
pub struct PendingTexture {
    width: i32,
    height: i32,
    internal_format: TextureFormat,
    format: TextureFormat,
    min_filter: TextureFilter,
    mag_filter: TextureFilter,
    data: Vec<u8>,
}

/// A [`PendingTexture`] as a mathematical value.
pub struct Pending {
    pub width: i32,
    pub height: i32,
    pub internal_format: TextureFormat,
    pub format: TextureFormat,
    pub min_filter: TextureFilter,
    pub mag_filter: TextureFilter,
    pub data: Seq<u8>,
}

/// Length in bytes of the pixel buffer of a texture.
pub open spec fn buffer_len(
    width: i32,
    height: i32,
    internal_format: TextureFormat,
    format: TextureFormat,
) -> int {
    width * height * bytes_per_pixel(internal_format, format)
}

/// Whether a texture of this size and format can be had: its buffer length,
/// or the reason why not.
pub open spec fn checked_len(
    width: i32,
    height: i32,
    internal_format: TextureFormat,
    format: TextureFormat,
) -> Result<usize, TextureError> {
    if width <= 0 || height <= 0 {
        Err(TextureError::InvalidSize)
    } else if buffer_len(width, height, internal_format, format) > isize::MAX {
        Err(TextureError::TooLarge)
    } else {
        Ok(buffer_len(width, height, internal_format, format) as usize)
    }
}

/// What validation makes of a request that comes with its pixels: the
/// pending texture holding them, or the reason why the request is refused.
pub open spec fn validated_pixels(
    width: i32,
    height: i32,
    internal_format: TextureFormat,
    format: TextureFormat,
    min_filter: TextureFilter,
    mag_filter: TextureFilter,
    data: Seq<u8>,
) -> Result<Pending, TextureError> {
    match checked_len(width, height, internal_format, format) {
        Err(e) => Err(e),
        Ok(len) => if data.len() != len {
            Err(TextureError::WrongLength)
        } else {
            Ok(Pending { width, height, internal_format, format, min_filter, mag_filter, data })
        },
    }
}

/// What validation makes of a request: the pending texture with a buffer of
/// `buffer_len` zeros, or the reason why the request is refused.
pub open spec fn validated(
    width: i32,
    height: i32,
    internal_format: TextureFormat,
    format: TextureFormat,
    min_filter: TextureFilter,
    mag_filter: TextureFilter,
) -> Result<Pending, TextureError> {
    if width <= 0 || height <= 0 {
        Err(TextureError::InvalidSize)
    } else if buffer_len(width, height, internal_format, format) > isize::MAX {
        Err(TextureError::TooLarge)
    } else {
        Ok(
            Pending {
                width,
                height,
                internal_format,
                format,
                min_filter,
                mag_filter,
                data: Seq::new(
                    buffer_len(width, height, internal_format, format) as nat,
                    |i: int| 0u8,
                ),
            },
        )
    }
}

impl Pending {
    /// The size is positive and the buffer holds as many bytes as the
    /// pixels take.
    pub open spec fn wf(self) -> bool {
        checked_len(self.width, self.height, self.internal_format, self.format) matches Ok(len)
            && self.data.len() == len
    }

    /// The state of the texture once the context has created `tex` for it.
    pub open spec fn realized(self, gl: GlContext, tex: TextureKey) -> InnerTexture {
        InnerTexture {
            width: self.width,
            height: self.height,
            gl: Some(gl),
            tex: Some(tex),
            format: self.format,
        }
    }

    /// The calls to make once the context has created `tex`.
    pub open spec fn calls(self, tex: TextureKey) -> Seq<GlCall> {
        creation_calls(
            tex,
            self.width,
            self.height,
            self.data,
            format_code(self.internal_format) as i32,
            format_code(self.format),
            filter_code(self.min_filter) as i32,
            filter_code(self.mag_filter) as i32,
            bytes_per_pixel(self.internal_format, self.format) as usize,
        )
    }
}

/// What becomes of a pool and a pending texture when the context answers
/// the request for a texture object: on a refusal its message and the pool
/// as it was; else a new slot with one owner, and the calls to make.
pub open spec fn realize_spec(
    slots: Seq<Slot>,
    pending: Pending,
    gl: GlContext,
    created: Result<TextureKey, String>,
) -> (Seq<Slot>, Result<(int, Seq<GlCall>), TextureError>) {
    match created {
        Err(message) => (slots, Err(TextureError::Context(message))),
        Ok(tex) => (
            slots.push(Slot { inner: pending.realized(gl, tex), owners: 1 }),
            Ok((slots.len() as int, pending.calls(tex))),
        ),
    }
}

/// Length in bytes of the pixel buffer of a texture of this size and format,
/// or the reason why there can be no such texture.
pub fn checked_buffer_len(
    width: i32,
    height: i32,
    internal_format: TextureFormat,
    format: TextureFormat,
) -> (r: Result<usize, TextureError>)
    ensures
        r == checked_len(width, height, internal_format, format),
{
    if width <= 0 || height <= 0 {
        return Err(TextureError::InvalidSize);
    }
    let bpp: usize = byte_per_pixel(internal_format, format);
    let w: u64 = width as u64;
    let h: u64 = height as u64;
    assert(w * h * 4 <= u64::MAX) by (nonlinear_arith)
        requires
            0 < w <= 0x7fff_ffff,
            0 < h <= 0x7fff_ffff,
    ;
    assert(w * h * (bpp as u64) <= w * h * 4) by (nonlinear_arith)
        requires
            bpp <= 4,
    ;
    let bytes: u64 = w * h * (bpp as u64);
    if bytes > isize::MAX as u64 {
        return Err(TextureError::TooLarge);
    }
    Ok(bytes as usize)
}

impl View for PendingTexture {
    type V = Pending;

    closed spec fn view(&self) -> Pending {
        Pending {
            width: self.width,
            height: self.height,
            internal_format: self.internal_format,
            format: self.format,
            min_filter: self.min_filter,
            mag_filter: self.mag_filter,
            data: self.data@,
        }
    }
}

impl PendingTexture {
    /// Number of bytes that will be uploaded.
    pub fn byte_len(&self) -> (n: usize)
        ensures
            n == self@.data.len(),
    {
        self.data.len()
    }

    /// Takes the context's answer to the request for a texture object. On a
    /// refusal the message is passed on and the pool stays as it is. Else
    /// the texture enters the pool with one owner, and its handle comes back
    /// together with the calls that configure and fill the texture object,
    /// to be made on `gl` in this order.
    pub fn realize(
        self,
        pool: &mut TexturePool,
        gl: GlContext,
        created: Result<TextureKey, String>,
    ) -> (r: Result<(Texture, Vec<GlCommand>), TextureError>)
        requires
            self@.wf(),
            old(pool).wf(),
        ensures
            final(pool).wf(),
            final(pool)@ == realize_spec(old(pool)@, self@, gl, created).0,
            realized_view(r) == realize_spec(old(pool)@, self@, gl, created).1,
    {
        match created {
            Err(message) => Err(TextureError::Context(message)),
            Ok(tex) => {
                let bpp: usize = byte_per_pixel(self.internal_format, self.format);
                proof {
                    lemma_codes_fit_i32(self.internal_format, self.min_filter);
                    lemma_codes_fit_i32(self.format, self.mag_filter);
                }
                let commands = create_gl_tex_ext(
                    tex,
                    self.width,
                    self.height,
                    self.data,
                    i32::from(self.internal_format),
                    u32::from(self.format),
                    i32::from(self.min_filter),
                    i32::from(self.mag_filter),
                    bpp,
                );
                let mut inner = InnerTexture::empty(self.width, self.height);
                inner.gl = Some(gl);
                inner.tex = Some(tex);
                inner.format = self.format;
                let slot: usize = pool.slots.len();
                pool.slots.push(Slot { inner, owners: 1 });
                Ok((Texture { slot }, commands))
            },
        }
    }
}

/// What a result of [`PendingTexture::realize`] stands for: the slot of the
/// handle and the calls.
pub open spec fn realized_view(r: Result<(Texture, Vec<GlCommand>), TextureError>) -> Result<
    (int, Seq<GlCall>),
    TextureError,
> {
    match r {
        Ok((texture, commands)) => Ok((texture.id(), command_views(commands@))),
        Err(e) => Err(e),
    }
}

impl Texture {
    /// Validates a request for a texture and prepares its zero-filled pixel
    /// buffer. Nothing is asked of the GPU before this has succeeded.
    pub fn from(
        width: i32,
        height: i32,
        internal_format: TextureFormat,
        format: TextureFormat,
        min_filter: TextureFilter,
        mag_filter: TextureFilter,
    ) -> (r: Result<PendingTexture, TextureError>)
        ensures
            pending_view(r) == validated(
                width,
                height,
                internal_format,
                format,
                min_filter,
                mag_filter,
            ),
            r matches Ok(p) ==> p@.wf(),
    {
        let len: usize = match checked_buffer_len(width, height, internal_format, format) {
            Ok(len) => len,
            Err(e) => {
                return Err(e);
            },
        };
        let data: Vec<u8> = vec![0u8; len];
        let pending = PendingTexture {
            width,
            height,
            internal_format,
            format,
            min_filter,
            mag_filter,
            data,
        };
        assert(pending@.data =~= Seq::new(
            buffer_len(width, height, internal_format, format) as nat,
            |i: int| 0u8,
        ));
        Ok(pending)
    }

    /// Validates a request for a texture that is to hold the decoded pixels
    /// `data`, which must be as many bytes as the size and the format ask
    /// for. Nothing is asked of the GPU before this has succeeded.
    pub fn from_pixels(
        width: i32,
        height: i32,
        internal_format: TextureFormat,
        format: TextureFormat,
        min_filter: TextureFilter,
        mag_filter: TextureFilter,
        data: Vec<u8>,
    ) -> (r: Result<PendingTexture, TextureError>)
        ensures
            pending_view(r) == validated_pixels(
                width,
                height,
                internal_format,
                format,
                min_filter,
                mag_filter,
                data@,
            ),
            r matches Ok(p) ==> p@.wf(),
    {
        let len: usize = match checked_buffer_len(width, height, internal_format, format) {
            Ok(len) => len,
            Err(e) => {
                return Err(e);
            },
        };
        if data.len() != len {
            return Err(TextureError::WrongLength);
        }
        Ok(PendingTexture { width, height, internal_format, format, min_filter, mag_filter, data })
    }

    /// [`Texture::from`] for an RGBA texture sampled with the nearest
    /// filter.
    pub fn from_size(width: i32, height: i32) -> (r: Result<PendingTexture, TextureError>)
        ensures
            pending_view(r) == validated(
                width,
                height,
                TextureFormat::Rgba,
                TextureFormat::Rgba,
                TextureFilter::Nearest,
                TextureFilter::Nearest,
            ),
            r matches Ok(p) ==> p@.wf(),
    {
        Texture::from(
            width,
            height,
            TextureFormat::Rgba,
            TextureFormat::Rgba,
            TextureFilter::Nearest,
            TextureFilter::Nearest,
        )
    }
}

/// What a result of [`Texture::from`] stands for.
pub open spec fn pending_view(r: Result<PendingTexture, TextureError>) -> Result<
    Pending,
    TextureError,
> {
    match r {
        Ok(p) => Ok(p@),
        Err(e) => Err(e),
    }
}

} // verus!
