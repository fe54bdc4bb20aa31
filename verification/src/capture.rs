//! The capture loop as an explicit state machine. The platform's
//! capture layer (interface enumeration, channel, blocking reads) is an
//! external collaborator: the surrounding tool performs the reads and
//! hands every result in as an event, and this core decides what each
//! event means. A transient read error is logged and never stops the
//! loop; only the two configuration errors are fatal.

use vstd::prelude::*;
use crate::frame::{decode_frame, frame_outcome_ok, FrameOutcome};

verus! {

/// The two states of the loop: the interface not yet opened, or open
/// and reading indefinitely.
pub enum CaptureState {
    Idle,
    Running,
}

/// A fatal configuration error: capture never starts.
#[derive(Debug)]
pub enum CaptureError {
    NoSuchInterface,
    ChannelOpenFailed,
}

/// What one blocking read handed back: a raw frame, or a transient
/// read-level failure.
pub enum CaptureEvent {
    FrameRead(Vec<u8>),
    ReadError,
}

/// What the loop decided for one event: a decoded trace to emit, or a
/// non-fatal fault to log before reading on.
pub enum CaptureStep {
    Trace(FrameOutcome),
    ReadFault,
}

/// The capture loop's state: its phase, the hex-dump setting it was
/// configured with, and how many frames and read faults it has seen.
pub struct CaptureLoop {
    pub state: CaptureState,
    pub want_hex: bool,
    pub frames_decoded: u64,
    pub errors_logged: u64,
}

/// The state after handling one event while running: a read error is
/// counted as logged, a frame as decoded; the loop runs on either way.
pub open spec fn step_state(s: CaptureLoop, is_error: bool) -> CaptureLoop {
    if is_error {
        CaptureLoop { errors_logged: (s.errors_logged + 1) as u64, ..s }
    } else {
        CaptureLoop { frames_decoded: (s.frames_decoded + 1) as u64, ..s }
    }
}

impl CaptureLoop {
    /// A fresh, idle loop for the given hex-dump setting.
    pub fn new(want_hex: bool) -> (r: CaptureLoop)
        ensures
            r.state is Idle,
            r.want_hex == want_hex,
            r.frames_decoded == 0,
            r.errors_logged == 0,
    {
        CaptureLoop { state: CaptureState::Idle, want_hex, frames_decoded: 0, errors_logged: 0 }
    }

    /// The Idle -> Running transition. The caller reports whether the
    /// requested interface name resolved and whether an Ethernet
    /// receive channel could be opened on it; either failure is fatal
    /// and leaves the loop idle, and no capture is ever attempted.
    pub fn start(&mut self, resolved: bool, channel_ok: bool) -> (r: Result<(), CaptureError>)
        requires
            old(self).state is Idle,
        ensures
            final(self).want_hex == old(self).want_hex,
            final(self).frames_decoded == old(self).frames_decoded,
            final(self).errors_logged == old(self).errors_logged,
            !resolved ==> (r matches Err(e) && e is NoSuchInterface && final(self).state is Idle),
            resolved && !channel_ok ==> (r matches Err(e) && e is ChannelOpenFailed
                && final(self).state is Idle),
            resolved && channel_ok ==> r is Ok && final(self).state is Running,
    {
        if !resolved {
            Err(CaptureError::NoSuchInterface)
        } else if !channel_ok {
            Err(CaptureError::ChannelOpenFailed)
        } else {
            self.state = CaptureState::Running;
            Ok(())
        }
    }

    /// Handles one read result while running. A frame is decoded into
    /// the trace to emit; a read error becomes a fault to log. Neither
    /// leaves the running state, so one bad read never terminates
    /// capture of the frames after it.
    pub fn step(&mut self, event: CaptureEvent) -> (r: CaptureStep)
        requires
            old(self).state is Running,
            old(self).frames_decoded < u64::MAX,
            old(self).errors_logged < u64::MAX,
        ensures
            final(self).state is Running,
            *final(self) == step_state(*old(self), event is ReadError),
            event matches CaptureEvent::FrameRead(f) ==> (r matches CaptureStep::Trace(o)
                && frame_outcome_ok(o, f@, old(self).want_hex)),
            event is ReadError ==> r is ReadFault,
    {
        match event {
            CaptureEvent::FrameRead(f) => {
                let outcome = decode_frame(f.as_slice(), self.want_hex);
                self.frames_decoded = self.frames_decoded + 1;
                CaptureStep::Trace(outcome)
            },
            CaptureEvent::ReadError => {
                self.errors_logged = self.errors_logged + 1;
                CaptureStep::ReadFault
            },
        }
    }
}

/// A transient read error never terminates capture: from any running
/// state, handling the error leaves the loop running with exactly one
/// more fault logged and everything else unchanged, so the very next
/// frame is handled as it would have been without the error, and its
/// decode is counted.
pub proof fn lemma_read_error_is_transient(s: CaptureLoop)
    requires
        s.state is Running,
        s.frames_decoded < u64::MAX,
        s.errors_logged < u64::MAX,
    ensures
        step_state(s, true).state is Running,
        step_state(s, true).want_hex == s.want_hex,
        step_state(s, true).errors_logged == s.errors_logged + 1,
        step_state(s, true).frames_decoded == s.frames_decoded,
        step_state(step_state(s, true), false).state is Running,
        step_state(step_state(s, true), false).frames_decoded == s.frames_decoded + 1,
{
}

} // verus!
