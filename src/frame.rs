use vstd::prelude::*;

verus! {

/// What an attempt to acquire the next frame from the presentation surface
/// gave.
#[derive(Clone, Copy, Debug, PartialEq, Eq, Structural)]
pub enum AcquireOutcome {
    Acquired,
    Lost,
    Timeout,
    Outdated,
    OutOfMemory,
}

/// What the frame driver does after an acquire attempt.
#[derive(Clone, Copy, Debug, PartialEq, Eq, Structural)]
pub enum FrameAction {
    /// Encode the parameters, upload them, draw and present.
    Draw,
    /// Configure the surface again and retry the acquire.
    ReconfigureAndRetry,
    /// Skip this frame entirely; nothing is uploaded or drawn.
    SkipFrame,
    /// Stop with an error.
    Fail,
}

/// A lost surface is configured again and retried; a timed-out or outdated
/// one skips the frame; running out of memory is an error.
pub open spec fn action_for(outcome: AcquireOutcome) -> FrameAction {
    match outcome {
        AcquireOutcome::Acquired => FrameAction::Draw,
        AcquireOutcome::Lost => FrameAction::ReconfigureAndRetry,
        AcquireOutcome::Timeout => FrameAction::SkipFrame,
        AcquireOutcome::Outdated => FrameAction::SkipFrame,
        AcquireOutcome::OutOfMemory => FrameAction::Fail,
    }
}

/// Decides what the frame driver does after an acquire attempt.
pub fn next_frame_action(outcome: AcquireOutcome) -> (r: FrameAction)
    ensures
        r == action_for(outcome),
{
    match outcome {
        AcquireOutcome::Acquired => FrameAction::Draw,
        AcquireOutcome::Lost => FrameAction::ReconfigureAndRetry,
        AcquireOutcome::Timeout | AcquireOutcome::Outdated => FrameAction::SkipFrame,
        AcquireOutcome::OutOfMemory => FrameAction::Fail,
    }
}

} // verus!
