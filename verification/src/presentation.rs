//! The presentation loop, one tick at a time.
//!
//! The program wakes at a fixed interval, or on a request to close the
//! window, and asks what to do. The answer is to draw a frame, to skip the
//! draw, or to leave the loop; drawing itself is the program's business.

use vstd::prelude::*;
use crate::transport::{after_receive, after_sends, received, FrameSlot, SlotState};

verus! {

/// Bytes per pixel of a decoded frame: red, green and blue, eight bits each.
pub const BYTES_PER_PIXEL: u32 = 3;

/// The time from one tick to the next, in nanoseconds: sixty ticks a second.
pub const TICK_INTERVAL_NANOS: u64 = 16_666_667;

/// Why the loop wakes.
#[derive(Clone, Copy, Debug, PartialEq, Eq, Structural)]
pub enum TickEvent {
    /// The tick interval has passed.
    Wake,
    /// The window was asked to close.
    CloseRequested,
}

/// Why the loop ends.
#[derive(Clone, Copy, Debug, PartialEq, Eq, Structural)]
pub enum ExitReason {
    /// The window was asked to close.
    WindowClosed,
    /// The capture side is gone and no frame will come.
    ChannelClosed,
    /// A frame does not have the size of the window it was promised for.
    FrameSizeMismatch,
}

/// What to do on a tick.
#[derive(Debug, PartialEq, Eq)]
pub enum TickAction {
    /// Upload these bytes as a texture and draw it.
    Draw(Vec<u8>),
    /// Nothing new: draw nothing.
    Skip,
    /// Leave the loop.
    Exit(ExitReason),
}

/// What to do on a tick, as the contracts see it.
pub enum TickDecision {
    Draw(Seq<u8>),
    Skip,
    Exit(ExitReason),
}

impl View for TickAction {
    type V = TickDecision;

    open spec fn view(&self) -> TickDecision {
        match *self {
            TickAction::Draw(frame) => TickDecision::Draw(frame@),
            TickAction::Skip => TickDecision::Skip,
            TickAction::Exit(reason) => TickDecision::Exit(reason),
        }
    }
}

/// The number of bytes in a frame of `width` by `height` pixels, rows one
/// after the other, three bytes to the pixel.
pub open spec fn frame_len(width: u32, height: u32) -> int {
    width * height * BYTES_PER_PIXEL
}

/// One tick. A request to close ends the loop and leaves the slot alone. A
/// wake polls the slot: a closed slot ends the loop, an empty one skips the
/// draw, and a frame is drawn if it has the size of the window; a frame of
/// any other size ends the loop.
pub open spec fn tick_step(width: u32, height: u32, event: TickEvent, slot: SlotState) -> (
    SlotState,
    TickDecision,
) {
    match event {
        TickEvent::CloseRequested => (slot, TickDecision::Exit(ExitReason::WindowClosed)),
        TickEvent::Wake => (
            after_receive(slot),
            match received(slot) {
                Err(_) => TickDecision::Exit(ExitReason::ChannelClosed),
                Ok(None) => TickDecision::Skip,
                Ok(Some(frame)) => if frame.len() == frame_len(width, height) {
                    TickDecision::Draw(frame)
                } else {
                    TickDecision::Exit(ExitReason::FrameSizeMismatch)
                },
            },
        ),
    }
}

/// Whether `frame` has the size of a picture of `width` by `height` pixels.
pub fn frame_fits(width: u32, height: u32, frame: &Vec<u8>) -> (fits: bool)
    ensures
        fits == (frame@.len() == frame_len(width, height)),
{
    assert(width * height * BYTES_PER_PIXEL <= 0xffff_ffff * 0xffff_ffff * 3
        && width * height <= 0xffff_ffff * 0xffff_ffff) by (nonlinear_arith)
        requires
            width <= 0xffff_ffff,
            height <= 0xffff_ffff,
            BYTES_PER_PIXEL == 3,
    ;
    let pixels: u128 = (width as u128) * (height as u128);
    let expected: u128 = pixels * (BYTES_PER_PIXEL as u128);
    frame.len() as u128 == expected
}

/// The render side of the pipeline: a window of fixed size.
#[derive(Clone, Copy, Debug, PartialEq, Eq, Structural)]
pub struct Presenter {
    pub width: u32,
    pub height: u32,
}

impl Presenter {
    pub fn new(width: u32, height: u32) -> (presenter: Presenter)
        ensures
            presenter.width == width,
            presenter.height == height,
    {
        Presenter { width, height }
    }

    /// Decides one tick of the loop. Never waits.
    pub fn tick(&self, event: TickEvent, slot: &mut FrameSlot) -> (action: TickAction)
        ensures
            (final(slot)@, action@) == tick_step(self.width, self.height, event, old(slot)@),
    {
        match event {
            TickEvent::CloseRequested => TickAction::Exit(ExitReason::WindowClosed),
            TickEvent::Wake => match slot.try_receive() {
                Err(_) => TickAction::Exit(ExitReason::ChannelClosed),
                Ok(None) => TickAction::Skip,
                Ok(Some(frame)) => {
                    if frame_fits(self.width, self.height, &frame) {
                        TickAction::Draw(frame)
                    } else {
                        TickAction::Exit(ExitReason::FrameSizeMismatch)
                    }
                },
            },
        }
    }
}

/// However many frames were sent since the last tick, the tick draws the
/// one sent last, provided it has the size of the window, and leaves the
/// slot empty.
pub proof fn lemma_tick_draws_latest(
    width: u32,
    height: u32,
    slot: SlotState,
    frames: Seq<Seq<u8>>,
)
    requires
        slot is Open,
        frames.len() > 0,
        frames.last().len() == frame_len(width, height),
    ensures
        tick_step(width, height, TickEvent::Wake, after_sends(slot, frames)) == (
            SlotState::Open(None),
            TickDecision::Draw(frames.last()),
        ),
{
    crate::transport::lemma_last_send_wins(slot, frames);
}

/// A tick that follows a tick, with no frame sent between them, never draws.
pub proof fn lemma_second_tick_draws_nothing(
    width: u32,
    height: u32,
    first: TickEvent,
    slot: SlotState,
)
    requires
        first == TickEvent::Wake,
    ensures
        !(tick_step(
            width,
            height,
            TickEvent::Wake,
            tick_step(width, height, first, slot).0,
        ).1 is Draw),
{
}

} // verus!
