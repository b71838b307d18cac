//! What holds of a texture over its whole life, from the request to the
//! release of its last handle.

use vstd::prelude::*;
use crate::format::{bytes_per_pixel, TextureFilter, TextureFormat};
use crate::gl::{alignment_call, gl_nearest, gl_rgba, gl_texture_2d};
use crate::gl::{gl_texture_mag_filter, gl_texture_min_filter, GlCall, TextureKey};
use crate::texture::{buffer_len, live, realize_spec, release_call, released, slots_wf};
use crate::texture::{shared, validated, validated_pixels, without_context};
use crate::texture::{GlContext, InnerTexture, Pending, Slot, TextureError};

verus! {

/// A request with a positive size is refused only when its buffer would be
/// too large, and a texture created from it has the width, the height and
/// the format that were asked for, under a handle that is live.
pub proof fn lemma_created_texture_keeps_size(
    slots: Seq<Slot>,
    width: i32,
    height: i32,
    internal_format: TextureFormat,
    format: TextureFormat,
    min_filter: TextureFilter,
    mag_filter: TextureFilter,
    gl: GlContext,
    tex: TextureKey,
)
    requires
        width > 0,
        height > 0,
    ensures
        ({
            let request = validated(width, height, internal_format, format, min_filter, mag_filter);
            &&& request is Ok <==> buffer_len(width, height, internal_format, format) <= isize::MAX
            &&& request matches Ok(pending) ==> {
                let (after, outcome) = realize_spec(slots, pending, gl, Ok(tex));
                &&& pending.wf()
                &&& outcome matches Ok((id, _))
                &&& live(after, outcome->Ok_0.0)
                &&& after[outcome->Ok_0.0].inner.width == width
                &&& after[outcome->Ok_0.0].inner.height == height
                &&& after[outcome->Ok_0.0].inner.format == format
                &&& after[outcome->Ok_0.0].inner.tex == Some(tex)
                &&& after[outcome->Ok_0.0].inner.gl == Some(gl)
            }
        }),
{
}

/// The buffer of a pending texture holds `width * height` pixels of one
/// byte where the storage is `R8` and the data `Red`, else of four bytes.
pub proof fn lemma_buffer_holds_every_pixel(pending: Pending)
    requires
        pending.wf(),
    ensures
        pending.width > 0,
        pending.height > 0,
        pending.data.len() == pending.width * pending.height * bytes_per_pixel(
            pending.internal_format,
            pending.format,
        ),
{
    assert(0 <= pending.width * pending.height * bytes_per_pixel(
        pending.internal_format,
        pending.format,
    )) by (nonlinear_arith)
        requires
            pending.width > 0,
            pending.height > 0,
    ;
}

/// A texture requested without pixels is the texture requested with a
/// buffer of zeros of the right length, and every byte of its buffer is
/// zero.
pub proof fn lemma_empty_texture_is_zeroed(
    width: i32,
    height: i32,
    internal_format: TextureFormat,
    format: TextureFormat,
    min_filter: TextureFilter,
    mag_filter: TextureFilter,
)
    requires
        validated(width, height, internal_format, format, min_filter, mag_filter) is Ok,
    ensures
        ({
            let pending = validated(
                width,
                height,
                internal_format,
                format,
                min_filter,
                mag_filter,
            )->Ok_0;
            &&& pending.wf()
            &&& forall|i: int| 0 <= i < pending.data.len() ==> pending.data[i] == 0
            &&& validated_pixels(
                width,
                height,
                internal_format,
                format,
                min_filter,
                mag_filter,
                pending.data,
            ) == Ok::<Pending, TextureError>(pending)
        }),
{
    assert(0 <= width * height * bytes_per_pixel(internal_format, format)) by (nonlinear_arith)
        requires
            width > 0,
            height > 0,
    ;
}

/// A texture requested by its size alone is an RGBA texture: both filters
/// are set to nearest, the upload declares RGBA for storage and data, and
/// the unpack alignment is left alone.
pub proof fn lemma_default_texture_is_rgba_nearest(
    slots: Seq<Slot>,
    width: i32,
    height: i32,
    gl: GlContext,
    tex: TextureKey,
)
    requires
        validated(
            width,
            height,
            TextureFormat::Rgba,
            TextureFormat::Rgba,
            TextureFilter::Nearest,
            TextureFilter::Nearest,
        ) is Ok,
    ensures
        ({
            let pending = validated(
                width,
                height,
                TextureFormat::Rgba,
                TextureFormat::Rgba,
                TextureFilter::Nearest,
                TextureFilter::Nearest,
            )->Ok_0;
            let calls = pending.calls(tex);
            &&& pending.realized(gl, tex).format == TextureFormat::Rgba
            &&& pending.data.len() == width * height * 4
            &&& calls.len() == 7
            &&& calls[3] == (GlCall::TexParameterI32 {
                target: gl_texture_2d(),
                parameter: gl_texture_mag_filter(),
                value: gl_nearest() as i32,
            })
            &&& calls[4] == (GlCall::TexParameterI32 {
                target: gl_texture_2d(),
                parameter: gl_texture_min_filter(),
                value: gl_nearest() as i32,
            })
            &&& calls[5] is TexImage2d
            &&& calls[5]->TexImage2d_internal_format == gl_rgba() as i32
            &&& calls[5]->TexImage2d_format == gl_rgba()
            &&& calls[5]->TexImage2d_width == width
            &&& calls[5]->TexImage2d_height == height
            &&& calls[5]->TexImage2d_pixels == pending.data
            &&& forall|i: int| 0 <= i < calls.len() ==> !(#[trigger] calls[i] is PixelStoreI32)
        }),
{
    let pending = validated(
        width,
        height,
        TextureFormat::Rgba,
        TextureFormat::Rgba,
        TextureFilter::Nearest,
        TextureFilter::Nearest,
    )->Ok_0;
    lemma_empty_texture_is_zeroed(
        width,
        height,
        TextureFormat::Rgba,
        TextureFormat::Rgba,
        TextureFilter::Nearest,
        TextureFilter::Nearest,
    );
    lemma_buffer_holds_every_pixel(pending);
}

/// The calls for a pending texture start with the alignment call exactly
/// where its pixels are one byte wide, and hold no alignment call anywhere
/// else; the upload comes after it.
pub proof fn lemma_alignment_follows_pixel_width(pending: Pending, tex: TextureKey)
    ensures
        ({
            let calls = pending.calls(tex);
            let narrow = bytes_per_pixel(pending.internal_format, pending.format) == 1;
            &&& calls.len() == if narrow { 8int } else { 7int }
            &&& narrow ==> calls[0] == alignment_call() && calls[6] is TexImage2d
            &&& !narrow ==> calls[5] is TexImage2d
            &&& forall|i: int|
                0 <= i < calls.len() && #[trigger] calls[i] is PixelStoreI32 ==> narrow && i == 0
        }),
{
}

/// The slots after `n` handles to slot `id` have been released in turn.
pub open spec fn released_times(slots: Seq<Slot>, id: int, n: nat) -> Seq<Slot>
    decreases n,
{
    if n == 0 {
        slots
    } else {
        released_times(released(slots, id), id, (n - 1) as nat)
    }
}

/// How many deletions `n` releases of handles to slot `id` ask for.
pub open spec fn deletions(slots: Seq<Slot>, id: int, n: nat) -> nat
    decreases n,
{
    if n == 0 {
        0
    } else {
        let first: nat = if release_call(slots, id) is Some { 1 } else { 0 };
        first + deletions(released(slots, id), id, (n - 1) as nat)
    }
}

/// Releasing the last handle to a texture that holds a texture object asks
/// for the deletion of that object on its context, and leaves a state that
/// no later release asks anything for.
pub proof fn lemma_last_release_deletes(slots: Seq<Slot>, id: int)
    requires
        slots_wf(slots),
        live(slots, id),
        slots[id].owners == 1,
        slots[id].inner.tex is Some,
    ensures
        release_call(slots, id) == Some(
            (
                slots[id].inner.gl->Some_0,
                GlCall::DeleteTexture { texture: slots[id].inner.tex->Some_0 },
            ),
        ),
        slots_wf(released(slots, id)),
        !live(released(slots, id), id),
        released(slots, id)[id].inner.tex is None,
        release_call(released(slots, id), id) is None,
        released(released(slots, id), id) == released(slots, id),
{
}

/// Releasing a handle while another one is left asks for nothing and keeps
/// the state as it is.
pub proof fn lemma_shared_release_keeps_object(slots: Seq<Slot>, id: int)
    requires
        slots_wf(slots),
        live(slots, id),
        slots[id].owners > 1,
    ensures
        release_call(slots, id) is None,
        slots_wf(released(slots, id)),
        live(released(slots, id), id),
        released(slots, id)[id].inner == slots[id].inner,
        released(slots, id)[id].owners == slots[id].owners - 1,
{
}

/// A release touches no slot but its own.
pub proof fn lemma_release_is_local(slots: Seq<Slot>, id: int, other: int)
    requires
        0 <= other < slots.len(),
        other != id,
    ensures
        released(slots, id).len() == slots.len(),
        released(slots, id)[other] == slots[other],
{
}

/// However many handles to a texture are released, its texture object is
/// deleted once when the releases reach the last owner, and never
/// otherwise: not before, not a second time, and not at all where the
/// texture holds no object.
pub proof fn lemma_one_deletion(slots: Seq<Slot>, id: int, n: nat)
    requires
        slots_wf(slots),
        0 <= id < slots.len(),
    ensures
        slots_wf(released_times(slots, id, n)),
        deletions(slots, id, n) == if slots[id].inner.tex is Some && 0 < slots[id].owners <= n {
            1nat
        } else {
            0nat
        },
    decreases n,
{
    if n > 0 {
        let next = released(slots, id);
        lemma_event_keeps_pool(slots, id, HandleEvent::Release);
        lemma_one_deletion(next, id, (n - 1) as nat);
        assert(slots[id].wf());
    }
}

/// What an owner may do with a handle.
pub enum HandleEvent {
    /// Hand out one more handle to the same texture.
    Share,
    /// Give a handle up.
    Release,
}

/// The slots after one event on a handle to slot `id`.
pub open spec fn after_event(slots: Seq<Slot>, id: int, event: HandleEvent) -> Seq<Slot> {
    match event {
        HandleEvent::Share => shared(slots, id),
        HandleEvent::Release => released(slots, id),
    }
}

/// How many deletions a run of events on handles to slot `id` asks for.
pub open spec fn deletions_over(slots: Seq<Slot>, id: int, events: Seq<HandleEvent>) -> nat
    decreases events.len(),
{
    if events.len() == 0 {
        0
    } else {
        let first: nat = if events[0] is Release && release_call(slots, id) is Some {
            1
        } else {
            0
        };
        first + deletions_over(
            after_event(slots, id, events[0]),
            id,
            events.subrange(1, events.len() as int),
        )
    }
}

/// Sharing and releasing keep every slot well formed, keep the number of
/// slots, and touch no slot but their own.
pub proof fn lemma_event_keeps_pool(slots: Seq<Slot>, id: int, event: HandleEvent)
    requires
        slots_wf(slots),
    ensures
        slots_wf(after_event(slots, id, event)),
        after_event(slots, id, event).len() == slots.len(),
        forall|other: int|
            0 <= other < slots.len() && other != id ==> after_event(slots, id, event)[other]
                == slots[other],
        0 <= id < slots.len() ==> after_event(slots, id, event)[id].inner.width
            == slots[id].inner.width && after_event(slots, id, event)[id].inner.height
            == slots[id].inner.height && after_event(slots, id, event)[id].inner.format
            == slots[id].inner.format,
        0 <= id < slots.len() && slots[id].inner.tex is None ==> after_event(
            slots,
            id,
            event,
        )[id].inner.tex is None,
{
    let next = after_event(slots, id, event);
    assert forall|i: int| 0 <= i < next.len() implies (#[trigger] next[i]).wf() by {
        assert(slots[i].wf());
    }
}

/// Whatever the owners of a texture do with their handles, in whatever
/// order, its texture object is deleted at most once, and never where the
/// texture holds none.
pub proof fn lemma_at_most_one_deletion(slots: Seq<Slot>, id: int, events: Seq<HandleEvent>)
    requires
        slots_wf(slots),
        0 <= id < slots.len(),
    ensures
        deletions_over(slots, id, events) <= 1,
        slots[id].inner.tex is None ==> deletions_over(slots, id, events) == 0,
    decreases events.len(),
{
    if events.len() > 0 {
        let next = after_event(slots, id, events[0]);
        lemma_event_keeps_pool(slots, id, events[0]);
        lemma_at_most_one_deletion(next, id, events.subrange(1, events.len() as int));
        assert(slots[id].wf());
    }
}

/// Once a context has gone, no handle to a texture that lived in it asks
/// for a deletion any more, whatever is done with the handles; the pool
/// stays well formed and the texture keeps its size, its format and its
/// owners.
pub proof fn lemma_lost_context_deletes_nothing(
    slots: Seq<Slot>,
    gl: GlContext,
    id: int,
    events: Seq<HandleEvent>,
)
    requires
        slots_wf(slots),
        0 <= id < slots.len(),
        slots[id].inner.gl == Some(gl),
    ensures
        slots_wf(without_context(slots, gl)),
        deletions_over(without_context(slots, gl), id, events) == 0,
        without_context(slots, gl)[id].owners == slots[id].owners,
        without_context(slots, gl)[id].inner.width == slots[id].inner.width,
        without_context(slots, gl)[id].inner.height == slots[id].inner.height,
        without_context(slots, gl)[id].inner.format == slots[id].inner.format,
{
    let after = without_context(slots, gl);
    assert forall|i: int| 0 <= i < after.len() implies (#[trigger] after[i]).wf() by {
        assert(slots[i].wf());
    }
    lemma_at_most_one_deletion(after, id, events);
}

/// Where the context refuses to create the texture object, the pool stays
/// as it is and the refusal is passed on: no handle exists whose release
/// could ask for a deletion.
pub proof fn lemma_failed_creation_leaves_pool(
    slots: Seq<Slot>,
    pending: Pending,
    gl: GlContext,
    message: String,
)
    ensures
        realize_spec(slots, pending, gl, Err(message)).0 == slots,
        realize_spec(slots, pending, gl, Err(message)).1 == Err::<(int, Seq<GlCall>), TextureError>(
            TextureError::Context(message),
        ),
{
}

/// A state that holds no texture object asks for no deletion, neither at
/// its own teardown nor through any number of releases of its handles.
pub proof fn lemma_unrealized_deletes_nothing(slots: Seq<Slot>, id: int, n: nat)
    requires
        slots_wf(slots),
        0 <= id < slots.len(),
        slots[id].inner.tex is None,
    ensures
        slots[id].inner.teardown_call() is None,
        release_call(slots, id) is None,
        deletions(slots, id, n) == 0,
        forall|width: i32, height: i32|
            (#[trigger] InnerTexture::empty_spec(width, height)).teardown_call() is None,
{
    lemma_one_deletion(slots, id, n);
}

} // verus!
