//! Frame scheduling: after every render the backend decides what to do with
//! the frame and which single wake source to arm next.
//!
//! While an output device is live the backend always has exactly one pending
//! wake source: either the hardware vertical-blank completion of a queued
//! frame, or a fixed-delay retry timer when no new frame was produced.

use vstd::prelude::*;

verus! {

/// The fixed delay, in milliseconds, before re-rendering when the last render
/// produced nothing to show. Bounds input-to-frame latency on a static scene
/// without busy-looping.
pub const RETRY_DELAY_MILLIS: u64 = 6;

/// What one render call produced.
#[derive(Clone, PartialEq, Eq, Debug)]
pub enum FrameOutcome {
    /// Composition succeeded. `has_damage` says whether it produced visible
    /// change; `needs_sync` says whether the renderer demands an explicit
    /// synchronization wait before the frame could be submitted.
    Submitted { has_damage: bool, needs_sync: bool },
    /// Composition failed; the reason is reported but not acted on.
    Failed { reason: String },
}

/// What to do with the frame a render call produced.
#[derive(Clone, Copy, PartialEq, Eq, Structural, Debug)]
pub enum FrameStep {
    /// Queue the back buffer for display.
    QueueFrame,
    /// Drop the frame and just schedule the next attempt.
    SkipQueue,
    /// The renderer demanded an explicit synchronization wait; this pipeline
    /// assumes implicit synchronization, so the condition is unsupported and
    /// fatal.
    FatalSyncRequired,
}

/// The single wake source armed after a render, which triggers the next one.
#[derive(Clone, Copy, PartialEq, Eq, Structural, Debug)]
pub enum WakeSource {
    /// Wait for the hardware vertical-blank completion of the queued frame.
    AwaitVBlank,
    /// Arm a timer and retry rendering after the given delay.
    RetryTimer { delay_millis: u64 },
}

/// Decides what to do with the frame: queue it exactly when composition
/// succeeded with visible damage and without a synchronization demand; a
/// synchronization demand is fatal; everything else drops the frame.
pub fn plan_frame(outcome: &FrameOutcome) -> (step: FrameStep)
    ensures
        step == FrameStep::FatalSyncRequired <==> outcome matches FrameOutcome::Submitted {
            needs_sync: true,
            ..
        },
        step == FrameStep::QueueFrame <==> outcome matches FrameOutcome::Submitted {
            has_damage: true,
            needs_sync: false,
        },
        step == FrameStep::SkipQueue <==> (outcome matches FrameOutcome::Submitted {
            has_damage: false,
            needs_sync: false,
        } || outcome matches FrameOutcome::Failed { .. }),
{
    match outcome {
        FrameOutcome::Submitted { has_damage, needs_sync } => {
            if *needs_sync {
                FrameStep::FatalSyncRequired
            } else if *has_damage {
                FrameStep::QueueFrame
            } else {
                FrameStep::SkipQueue
            }
        },
        FrameOutcome::Failed { .. } => FrameStep::SkipQueue,
    }
}

/// Arms the next wake source: a render that queued a frame waits for the
/// vertical blank; a render without damage, a failed render, or a failed
/// queue attempt (non-fatal, the frame is dropped) arms the retry timer with
/// the fixed delay.
pub fn next_wake(outcome: &FrameOutcome, queue_succeeded: bool) -> (w: WakeSource)
    requires
        !(outcome matches FrameOutcome::Submitted { needs_sync: true, .. }),
    ensures
        w == WakeSource::AwaitVBlank <==> (outcome matches FrameOutcome::Submitted {
            has_damage: true,
            ..
        } && queue_succeeded),
        w == WakeSource::AwaitVBlank || w == (WakeSource::RetryTimer {
            delay_millis: RETRY_DELAY_MILLIS,
        }),
{
    match outcome {
        FrameOutcome::Submitted { has_damage, .. } => {
            if *has_damage && queue_succeeded {
                WakeSource::AwaitVBlank
            } else {
                WakeSource::RetryTimer { delay_millis: RETRY_DELAY_MILLIS }
            }
        },
        FrameOutcome::Failed { .. } => WakeSource::RetryTimer { delay_millis: RETRY_DELAY_MILLIS },
    }
}

} // verus!
