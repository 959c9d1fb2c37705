//! What the host of a WebAssembly application decides about the module's
//! linear memory: where the rendered frame lies and whether it can be read,
//! and whether a key name fits in memory to be handed to the module.

use vstd::prelude::*;

verus! {

/// Where the frame that a module reported lies in its memory.
#[derive(Debug, Clone, Copy, PartialEq, Eq, Structural)]
pub enum FrameRegion {
    /// The module reported a null pointer or an empty frame.
    Unset,
    /// The frame reaches past the end of the module's memory.
    OutOfBounds,
    /// The frame occupies the bytes `start..end` of the memory.
    Within { start: usize, end: usize },
}

/// The region of a frame of `size` bytes at `ptr` in a memory of `mem_len`
/// bytes.
pub open spec fn frame_region_spec(ptr: usize, size: usize, mem_len: usize) -> FrameRegion {
    if size == 0 || ptr == 0 {
        FrameRegion::Unset
    } else if ptr + size > mem_len {
        FrameRegion::OutOfBounds
    } else {
        FrameRegion::Within { start: ptr, end: (ptr + size) as usize }
    }
}

/// Checks the frame pointer and size that a module reported against the
/// size of its memory.
pub fn frame_region(fb_ptr: usize, fb_size: usize, mem_len: usize) -> (r: FrameRegion)
    ensures
        r == frame_region_spec(fb_ptr, fb_size, mem_len),
{
    if fb_size == 0 || fb_ptr == 0 {
        FrameRegion::Unset
    } else if fb_ptr > mem_len || fb_size > mem_len - fb_ptr {
        FrameRegion::OutOfBounds
    } else {
        FrameRegion::Within { start: fb_ptr, end: fb_ptr + fb_size }
    }
}

/// Copies the frame out of the module's memory, or says why it cannot.
pub fn read_frame(mem: &[u8], fb_ptr: usize, fb_size: usize) -> (r: Result<Vec<u8>, FrameRegion>)
    ensures
        match frame_region_spec(fb_ptr, fb_size, mem@.len() as usize) {
            FrameRegion::Within { start, end } => r matches Ok(v) && v@ == mem@.subrange(start as int, end as int),
            other => r == Err::<Vec<u8>, FrameRegion>(other),
        },
{
    match frame_region(fb_ptr, fb_size, mem.len()) {
        FrameRegion::Within { start, end } => {
            Ok(vstd::slice::slice_to_vec(vstd::slice::slice_subrange(mem, start, end)))
        },
        other => Err(other),
    }
}

/// Longest key name, in bytes, that is handed to a module (exclusive).
pub const MAX_KEY_BYTES: usize = 1000;

/// Whether a key name of `key_len` bytes is handed to a module whose memory
/// holds `mem_len` bytes: it must be shorter than the limit and than the
/// memory.
pub open spec fn key_fits(key_len: nat, mem_len: nat) -> bool {
    key_len < MAX_KEY_BYTES && mem_len > key_len
}

/// Writes a key name at the start of the module's memory, where the
/// module's key handler reads it, if it fits; says whether it did.
pub fn write_key(mem: &mut [u8], key: &[u8]) -> (written: bool)
    ensures
        written == key_fits(key@.len(), old(mem)@.len()),
        final(mem)@.len() == old(mem)@.len(),
        written ==> final(mem)@ == key@ + old(mem)@.subrange(key@.len() as int, old(mem)@.len() as int),
        !written ==> final(mem)@ == old(mem)@,
{
    if !(key.len() < MAX_KEY_BYTES && mem.len() > key.len()) {
        return false;
    }
    let ghost before = mem@;
    let mut i: usize = 0;
    while i < key.len()
        invariant
            key@.len() < before.len(),
            mem@.len() == before.len(),
            0 <= i <= key@.len(),
            forall|j: int| 0 <= j < i ==> #[trigger] mem@[j] == key@[j],
            forall|j: int| i <= j < before.len() ==> #[trigger] mem@[j] == before[j],
        decreases key@.len() - i,
    {
        mem[i] = key[i];
        i += 1;
    }
    assert(mem@ =~= key@ + before.subrange(key@.len() as int, before.len() as int));
    true
}

/// The `pressed` flag as the module's handlers take it: 1 or 0.
pub fn pressed_flag(pressed: bool) -> (r: u32)
    ensures
        r == (if pressed { 1u32 } else { 0u32 }),
{
    if pressed { 1 } else { 0 }
}

/// What happened at one point of a frame of a WebAssembly application's
/// render loop.
#[derive(Debug, Clone, Copy, PartialEq, Eq, Structural)]
pub enum RenderEvent {
    /// The session was cancelled before the frame.
    Cancelled,
    /// The session is still running.
    Running,
    /// The module's render call failed.
    RenderFailed,
    /// The module rendered the frame.
    Rendered,
    /// The module's framebuffer could not be read (see `read_frame`).
    FrameUnreadable,
    /// The frame's receiver is gone.
    ReceiverGone,
    /// The frame was sent.
    FrameSent,
}

/// What the render loop does next.
#[derive(Debug, Clone, Copy, PartialEq, Eq, Structural)]
pub enum RenderStep {
    /// Leave the loop.
    Stop,
    /// Go on with this frame.
    Continue,
    /// Drop this frame: wait a whole frame interval, then start the next.
    SkipFrame,
    /// The frame is done: wait out the rest of the frame interval, then
    /// start the next.
    FrameDone,
}

/// The step for each event: cancellation, a failed render call or a gone
/// receiver stop the loop; an unreadable framebuffer skips the frame; a
/// sent frame ends it; a running session and a rendered frame go on.
pub open spec fn render_step_spec(event: RenderEvent) -> RenderStep {
    match event {
        RenderEvent::Cancelled | RenderEvent::RenderFailed | RenderEvent::ReceiverGone => RenderStep::Stop,
        RenderEvent::Running | RenderEvent::Rendered => RenderStep::Continue,
        RenderEvent::FrameUnreadable => RenderStep::SkipFrame,
        RenderEvent::FrameSent => RenderStep::FrameDone,
    }
}

/// The render loop's step for an event (see `render_step_spec`).
pub fn render_step(event: RenderEvent) -> (r: RenderStep)
    ensures
        r == render_step_spec(event),
{
    match event {
        RenderEvent::Cancelled | RenderEvent::RenderFailed | RenderEvent::ReceiverGone => RenderStep::Stop,
        RenderEvent::Running | RenderEvent::Rendered => RenderStep::Continue,
        RenderEvent::FrameUnreadable => RenderStep::SkipFrame,
        RenderEvent::FrameSent => RenderStep::FrameDone,
    }
}

/// The render loop stops only on cancellation, a failed render call or a
/// gone receiver; an unreadable framebuffer never stops it.
pub proof fn lemma_render_stops_only_on_end(event: RenderEvent)
    ensures
        (render_step_spec(event) is Stop) <==> (event is Cancelled || event is RenderFailed || event is ReceiverGone),
        render_step_spec(RenderEvent::FrameUnreadable) is SkipFrame,
{
}

} // verus!
