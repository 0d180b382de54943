//! The frame transport: one slot between the capture side and the render
//! side.
//!
//! The slot holds at most one frame. A new frame replaces the one that is
//! waiting, so the render side always gets the freshest frame and the
//! capture side never waits. Once the capture side is gone the slot is
//! closed for good. The slot itself is a plain value: the program that
//! shares it between two threads guards it with a lock.

use vstd::prelude::*;
use crate::error::{frame_bytes, PipelineError};

verus! {

/// What a slot holds, as the contracts see it.
pub enum SlotState {
    /// The capture side is alive; a frame may be waiting.
    Open(Option<Seq<u8>>),
    /// The capture side is gone.
    Closed,
}

/// One thing done to a slot.
pub enum SlotOp {
    Send(Seq<u8>),
    Receive,
}

/// The slot after a frame was sent: an open slot holds that frame and no
/// other, a closed slot stays closed.
pub open spec fn after_send(s: SlotState, frame: Seq<u8>) -> SlotState {
    match s {
        SlotState::Open(_) => SlotState::Open(Some(frame)),
        SlotState::Closed => SlotState::Closed,
    }
}

/// What a poll of the slot hands out.
pub open spec fn received(s: SlotState) -> Result<Option<Seq<u8>>, PipelineError> {
    match s {
        SlotState::Open(pending) => Ok(pending),
        SlotState::Closed => Err(PipelineError::ChannelClosed),
    }
}

/// What a poll handed out, with the frame taken as its bytes.
pub open spec fn polled_bytes(polled: Result<Option<Vec<u8>>, PipelineError>) -> Result<
    Option<Seq<u8>>,
    PipelineError,
> {
    match polled {
        Ok(Some(frame)) => Ok(Some(frame@)),
        Ok(None) => Ok(None),
        Err(e) => Err(e),
    }
}

/// The slot after a poll: an open slot is empty.
pub open spec fn after_receive(s: SlotState) -> SlotState {
    match s {
        SlotState::Open(_) => SlotState::Open(None),
        SlotState::Closed => SlotState::Closed,
    }
}

/// The slot after the capture side has gone.
pub open spec fn after_close(s: SlotState) -> SlotState {
    SlotState::Closed
}

/// The slot after the capture side has handed over what a grab gave: a
/// frame is sent, a failure closes the slot.
pub open spec fn after_delivery(s: SlotState, grabbed: Result<Seq<u8>, PipelineError>) -> SlotState {
    match grabbed {
        Ok(frame) => after_send(s, frame),
        Err(_) => after_close(s),
    }
}

/// The slot after one operation.
pub open spec fn after_op(s: SlotState, op: SlotOp) -> SlotState {
    match op {
        SlotOp::Send(frame) => after_send(s, frame),
        SlotOp::Receive => after_receive(s),
    }
}

/// The slot after a run of operations, first to last.
pub open spec fn after_ops(s: SlotState, ops: Seq<SlotOp>) -> SlotState
    decreases ops.len(),
{
    if ops.len() == 0 {
        s
    } else {
        after_op(after_ops(s, ops.drop_last()), ops.last())
    }
}

/// The slot after a run of sends with no poll between them.
pub open spec fn after_sends(s: SlotState, frames: Seq<Seq<u8>>) -> SlotState
    decreases frames.len(),
{
    if frames.len() == 0 {
        s
    } else {
        after_send(after_sends(s, frames.drop_last()), frames.last())
    }
}

/// What the capture loop does next.
#[derive(Clone, Copy, Debug, PartialEq, Eq, Structural)]
pub enum CaptureControl {
    /// Grab the next frame.
    Continue,
    /// Capture failed for good: the loop ends with this error.
    Stop(PipelineError),
}

/// The single slot that carries frames from capture to render.
pub struct FrameSlot {
    pending: Option<Vec<u8>>,
    closed: bool,
}

impl View for FrameSlot {
    type V = SlotState;

    closed spec fn view(&self) -> SlotState {
        if self.closed {
            SlotState::Closed
        } else {
            match self.pending {
                Some(frame) => SlotState::Open(Some(frame@)),
                None => SlotState::Open(None),
            }
        }
    }
}

impl FrameSlot {
    /// An open slot in which nothing waits.
    pub fn new() -> (slot: FrameSlot)
        ensures
            slot@ == SlotState::Open(None),
    {
        FrameSlot { pending: None, closed: false }
    }

    /// Puts `frame` into the slot. A frame that was waiting is discarded. On
    /// a closed slot the frame is dropped.
    pub fn send(&mut self, frame: Vec<u8>)
        ensures
            final(self)@ == after_send(old(self)@, frame@),
    {
        if !self.closed {
            self.pending = Some(frame);
        }
    }

    /// Takes the waiting frame out of the slot, if there is one. Never
    /// waits. On a closed slot the answer is `ChannelClosed`, always.
    pub fn try_receive(&mut self) -> (polled: Result<Option<Vec<u8>>, PipelineError>)
        ensures
            final(self)@ == after_receive(old(self)@),
            polled_bytes(polled) == received(old(self)@),
    {
        if self.closed {
            Err(PipelineError::ChannelClosed)
        } else {
            Ok(self.pending.take())
        }
    }

    /// Closes the slot for good. A frame that was waiting is discarded.
    pub fn close(&mut self)
        ensures
            final(self)@ == after_close(old(self)@),
    {
        self.pending = None;
        self.closed = true;
    }

    /// Hands over what one grab of the capture loop gave. A frame goes into
    /// the slot and the loop goes on. A failure closes the slot, so that the
    /// render side learns that no frame will follow, and ends the loop.
    pub fn deliver(&mut self, grabbed: Result<Vec<u8>, PipelineError>) -> (next: CaptureControl)
        ensures
            final(self)@ == after_delivery(old(self)@, frame_bytes(grabbed)),
            next == match grabbed {
                Ok(_) => CaptureControl::Continue,
                Err(e) => CaptureControl::Stop(e),
            },
    {
        match grabbed {
            Ok(frame) => {
                self.send(frame);
                CaptureControl::Continue
            },
            Err(e) => {
                self.close();
                CaptureControl::Stop(e)
            },
        }
    }

    /// Whether the slot has been closed.
    pub fn is_closed(&self) -> (b: bool)
        ensures
            b == (self@ is Closed),
    {
        self.closed
    }

    /// Whether a frame is waiting.
    pub fn has_pending(&self) -> (b: bool)
        ensures
            b == (self@ matches SlotState::Open(Some(_))),
    {
        !self.closed && self.pending.is_some()
    }
}

/// After any run of sends on an open slot with no poll between them, the
/// slot holds the frame sent last and nothing else: the next poll hands out
/// exactly that frame and leaves the slot empty.
pub proof fn lemma_last_send_wins(s: SlotState, frames: Seq<Seq<u8>>)
    requires
        s is Open,
        frames.len() > 0,
    ensures
        after_sends(s, frames) == SlotState::Open(Some(frames.last())),
        received(after_sends(s, frames)) == Ok::<Option<Seq<u8>>, PipelineError>(
            Some(frames.last()),
        ),
        after_receive(after_sends(s, frames)) == SlotState::Open(None),
    decreases frames.len(),
{
    if frames.len() > 1 {
        lemma_last_send_wins(s, frames.drop_last());
    } else {
        assert(after_sends(s, frames.drop_last()) == s);
    }
}

/// A frame is handed out once: a poll that follows a poll, with no send
/// between them, finds nothing.
pub proof fn lemma_take_once(s: SlotState)
    ensures
        !(received(after_receive(s)) matches Ok(Some(_))),
        s is Open ==> received(after_receive(s)) == Ok::<Option<Seq<u8>>, PipelineError>(None),
{
}

/// A closed slot stays closed whatever is done to it, and every poll of it
/// answers `ChannelClosed`: no frame sent before or after the close is ever
/// handed out.
pub proof fn lemma_closed_is_final(s: SlotState, ops: Seq<SlotOp>)
    ensures
        after_ops(after_close(s), ops) == SlotState::Closed,
        received(after_ops(after_close(s), ops)) == Err::<Option<Seq<u8>>, PipelineError>(
            PipelineError::ChannelClosed,
        ),
    decreases ops.len(),
{
    if ops.len() > 0 {
        lemma_closed_is_final(s, ops.drop_last());
    }
}

} // verus!
