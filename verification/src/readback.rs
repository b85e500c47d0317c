//! The bridge that brings results back from the device to the host.
//!
//! Reading a buffer back takes several steps that the device completes in
//! its own time. The bridge holds the state between them and says, for each
//! thing that happened, what to do next; whoever owns the device does it.

use vstd::prelude::*;

verus! {

/// Where a readback stands.
#[derive(Clone, Copy, Debug, PartialEq, Eq, Structural)]
pub enum ReadbackState {
    /// Nothing has been asked for.
    Idle,
    /// The map has been requested and the device is being polled.
    Polling,
    /// The device has finished its work; the outcome of the map is awaited.
    Resolving,
    /// The buffer is mapped and its bytes are to be copied.
    Mapped,
    /// The bytes are copied and the buffer is to be unmapped.
    Copied,
    /// The readback ended with the bytes.
    Succeeded,
    /// The readback ended without bytes.
    Failed,
}

/// What happened since the last step.
#[derive(Debug, PartialEq, Eq)]
pub enum ReadbackEvent {
    /// The work that fills the staging buffer has been submitted.
    Submitted,
    /// Polling the device returned; `ok` tells whether it finished the work.
    Polled { ok: bool },
    /// The map request was answered; `ok` tells whether the buffer is mapped.
    Resolved { ok: bool },
    /// The mapped range was read; `bytes` is its content.
    Read { bytes: Vec<u8> },
    /// The buffer was unmapped.
    Unmapped,
}

/// What to do next.
#[derive(Clone, Copy, Debug, PartialEq, Eq, Structural)]
pub enum ReadbackAction {
    /// Request a map of the whole staging buffer for reading, then poll the
    /// device until its work is done.
    MapAndPoll,
    /// Take the answer to the map request.
    AwaitOutcome,
    /// Read the mapped range.
    ReadMappedRange,
    /// Unmap the buffer.
    Unmap,
    /// Take the result: the readback is over.
    Finish,
    /// The event does not belong here: do nothing.
    Ignore,
}

/// A readback in progress or finished.
#[derive(Debug, PartialEq, Eq)]
pub struct Readback {
    pub state: ReadbackState,
    /// The bytes read from the mapped range, once they have been read.
    pub bytes: Vec<u8>,
}

/// The state after `event` in `state`.
pub open spec fn spec_next_state(state: ReadbackState, event: ReadbackEvent) -> ReadbackState {
    match (state, event) {
        (ReadbackState::Idle, ReadbackEvent::Submitted) => ReadbackState::Polling,
        (ReadbackState::Polling, ReadbackEvent::Polled { ok }) => if ok {
            ReadbackState::Resolving
        } else {
            ReadbackState::Failed
        },
        (ReadbackState::Resolving, ReadbackEvent::Resolved { ok }) => if ok {
            ReadbackState::Mapped
        } else {
            ReadbackState::Failed
        },
        (ReadbackState::Mapped, ReadbackEvent::Read { .. }) => ReadbackState::Copied,
        (ReadbackState::Copied, ReadbackEvent::Unmapped) => ReadbackState::Succeeded,
        _ => state,
    }
}

/// What to do once `state` has been entered by a step that changed the state.
pub open spec fn spec_action_on_entry(state: ReadbackState) -> ReadbackAction {
    match state {
        ReadbackState::Idle => ReadbackAction::Ignore,
        ReadbackState::Polling => ReadbackAction::MapAndPoll,
        ReadbackState::Resolving => ReadbackAction::AwaitOutcome,
        ReadbackState::Mapped => ReadbackAction::ReadMappedRange,
        ReadbackState::Copied => ReadbackAction::Unmap,
        ReadbackState::Succeeded => ReadbackAction::Finish,
        ReadbackState::Failed => ReadbackAction::Finish,
    }
}

impl Readback {
    /// A readback that has not begun.
    pub fn new() -> (readback: Readback)
        ensures
            readback.state == ReadbackState::Idle,
            readback.bytes@.len() == 0,
    {
        Readback { state: ReadbackState::Idle, bytes: Vec::new() }
    }

    /// The result of the readback: the bytes if it succeeded, nothing if it
    /// failed or has not ended.
    pub open spec fn spec_result(&self) -> Option<Seq<u8>> {
        if self.state == ReadbackState::Succeeded {
            Some(self.bytes@)
        } else {
            None
        }
    }

    /// Takes in what happened and says what to do next.
    ///
    /// An event that fits the state moves the readback on, and the action is
    /// the one the new state calls for. Any other event changes nothing and
    /// is ignored. The bytes of a read are kept exactly as they came.
    pub fn step(&mut self, event: ReadbackEvent) -> (action: ReadbackAction)
        ensures
            final(self).state == spec_next_state(old(self).state, event),
            final(self).state != old(self).state ==> action == spec_action_on_entry(
                final(self).state,
            ),
            final(self).state == old(self).state ==> action == ReadbackAction::Ignore,
            old(self).state == ReadbackState::Mapped && event is Read ==> final(self).bytes@
                == event->bytes@,
            !(old(self).state == ReadbackState::Mapped && event is Read) ==> final(self).bytes@
                == old(self).bytes@,
    {
        match (self.state, event) {
            (ReadbackState::Idle, ReadbackEvent::Submitted) => {
                self.state = ReadbackState::Polling;
                ReadbackAction::MapAndPoll
            },
            (ReadbackState::Polling, ReadbackEvent::Polled { ok }) => {
                if ok {
                    self.state = ReadbackState::Resolving;
                    ReadbackAction::AwaitOutcome
                } else {
                    self.state = ReadbackState::Failed;
                    ReadbackAction::Finish
                }
            },
            (ReadbackState::Resolving, ReadbackEvent::Resolved { ok }) => {
                if ok {
                    self.state = ReadbackState::Mapped;
                    ReadbackAction::ReadMappedRange
                } else {
                    self.state = ReadbackState::Failed;
                    ReadbackAction::Finish
                }
            },
            (ReadbackState::Mapped, ReadbackEvent::Read { bytes }) => {
                self.bytes = bytes;
                self.state = ReadbackState::Copied;
                ReadbackAction::Unmap
            },
            (ReadbackState::Copied, ReadbackEvent::Unmapped) => {
                self.state = ReadbackState::Succeeded;
                ReadbackAction::Finish
            },
            _ => ReadbackAction::Ignore,
        }
    }

    /// Ends the readback and hands out its result: the bytes if it
    /// succeeded, nothing otherwise.
    pub fn finish(self) -> (result: Option<Vec<u8>>)
        ensures
            match result {
                Some(bytes) => self.spec_result() == Some(bytes@),
                None => self.spec_result().is_none(),
            },
    {
        match self.state {
            ReadbackState::Succeeded => Some(self.bytes),
            _ => None,
        }
    }
}

/// How far a readback has come: each state a step beyond the one before it.
pub open spec fn spec_progress(state: ReadbackState) -> int {
    match state {
        ReadbackState::Idle => 0,
        ReadbackState::Polling => 1,
        ReadbackState::Resolving => 2,
        ReadbackState::Mapped => 3,
        ReadbackState::Copied => 4,
        ReadbackState::Succeeded => 5,
        ReadbackState::Failed => 5,
    }
}

/// No stage is skipped. Whatever happens, a readback stays where it is,
/// moves on by exactly one stage, or fails; and it fails only while the
/// device is polled or the map is awaited. So a readback that has succeeded
/// has requested the map, polled the device, taken the outcome, read the
/// range and unmapped the buffer, in this order.
pub proof fn lemma_no_stage_is_skipped(state: ReadbackState, event: ReadbackEvent)
    ensures
        ({
            let next = spec_next_state(state, event);
            ||| next == state
            ||| next != ReadbackState::Failed && spec_progress(next) == spec_progress(state) + 1
            ||| next == ReadbackState::Failed && (state == ReadbackState::Polling || state
                == ReadbackState::Resolving)
        }),
{
}

/// A readback succeeds only by way of being unmapped: the state before the
/// last step was the one in which the bytes had been copied, and the event
/// was that the buffer was unmapped.
pub proof fn lemma_unmapped_before_success(state: ReadbackState, event: ReadbackEvent)
    requires
        state != ReadbackState::Succeeded,
        spec_next_state(state, event) == ReadbackState::Succeeded,
    ensures
        state == ReadbackState::Copied,
        event is Unmapped,
{
}

/// A failed poll and a refused map both end the readback without bytes, and
/// nothing that happens afterwards changes that.
pub proof fn lemma_failure_is_final(state: ReadbackState, event: ReadbackEvent)
    ensures
        state == ReadbackState::Polling && event == (ReadbackEvent::Polled { ok: false })
            ==> spec_next_state(state, event) == ReadbackState::Failed,
        state == ReadbackState::Resolving && event == (ReadbackEvent::Resolved { ok: false })
            ==> spec_next_state(state, event) == ReadbackState::Failed,
        state == ReadbackState::Failed ==> spec_next_state(state, event) == ReadbackState::Failed,
        state == ReadbackState::Succeeded ==> spec_next_state(state, event)
            == ReadbackState::Succeeded,
{
}

} // verus!
