//! The overlay sidecar's VR session: what each run of the overlay runtime's frame
//! loop asks for.

use vstd::prelude::*;

verus! {

/// Where the embedded browser keeps its cache; it is cleared before each session.
pub const CACHE_PATH: &'static str = "/tmp/oyasumi_sidecard_cef";

/// What one run of the overlay runtime's frame loop reported.
#[derive(Clone, Copy, PartialEq, Eq, Structural)]
pub enum PollOutcome {
    /// A frame was rendered; the runtime already waited for the next one.
    Success,
    /// Nothing was rendered this time.
    SuccessNoRender,
    /// The headset is not being worn.
    UserNotPresent,
    /// The session is still starting.
    Starting,
    /// The runtime asked the application to exit.
    Exit,
    /// The session was lost.
    SessionLost,
}

/// What the frame loop does next.
#[derive(PartialEq, Eq, Structural)]
pub enum FrameStep {
    /// Run the next frame at once.
    Continue,
    /// Wait this many milliseconds, then run the next frame.
    Sleep { ms: u64 },
    /// Leave the loop: the session is over.
    Stop,
}

/// What the frame loop does after `outcome`, with `frame_time_ms` the length of one
/// frame at the headset's refresh rate. A session that ended is not resumed.
pub open spec fn frame_step_spec(outcome: PollOutcome, frame_time_ms: u64) -> FrameStep {
    match outcome {
        PollOutcome::Success => FrameStep::Continue,
        PollOutcome::SuccessNoRender => FrameStep::Sleep { ms: frame_time_ms },
        PollOutcome::UserNotPresent => FrameStep::Sleep { ms: 1000 },
        PollOutcome::Starting => FrameStep::Continue,
        PollOutcome::Exit => FrameStep::Stop,
        PollOutcome::SessionLost => FrameStep::Stop,
    }
}

/// What the frame loop does after a frame with `outcome`, with `frame_time_ms` the
/// length of one frame: go on, wait a frame (nothing rendered) or a second (headset
/// not worn), or stop for good when the session ended.
pub fn frame_step(outcome: PollOutcome, frame_time_ms: u64) -> (step: FrameStep)
    ensures
        step == frame_step_spec(outcome, frame_time_ms),
{
    match outcome {
        PollOutcome::Success => FrameStep::Continue,
        PollOutcome::SuccessNoRender => FrameStep::Sleep { ms: frame_time_ms },
        PollOutcome::UserNotPresent => FrameStep::Sleep { ms: 1000 },
        PollOutcome::Starting => FrameStep::Continue,
        PollOutcome::Exit => FrameStep::Stop,
        PollOutcome::SessionLost => FrameStep::Stop,
    }
}

/// The frame loop ends exactly when the session is over (the runtime asked to exit,
/// or the session was lost), and it only ever waits one frame or one second.
pub proof fn lemma_frame_loop_ends_with_session(outcome: PollOutcome, frame_time_ms: u64)
    ensures
        (frame_step_spec(outcome, frame_time_ms) is Stop) <==> (outcome == PollOutcome::Exit || outcome
            == PollOutcome::SessionLost),
        frame_step_spec(outcome, frame_time_ms) matches FrameStep::Sleep { ms } ==> (ms == frame_time_ms
            && outcome == PollOutcome::SuccessNoRender) || (ms == 1000 && outcome == PollOutcome::UserNotPresent),
{
}

} // verus!
