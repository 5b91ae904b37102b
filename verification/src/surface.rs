//! Decisions of the frame loop around the presentation surface: when to
//! redraw, what size a resized surface gets, and what to do when the next
//! surface texture cannot be acquired.

use vstd::prelude::*;

verus! {

/// Nanoseconds between two frames: one 144th of a second, rounded down.
pub const TARGET_FRAME_NANOS: u128 = 6_944_444;

/// What the loop does once all pending events are handled.
#[derive(Clone, Copy, Debug, PartialEq, Eq)]
pub enum Pacing {
    /// Ask for a redraw now and restart the frame timer.
    Redraw,
    /// Sleep until `nanos` nanoseconds from now.
    Wait { nanos: u128 },
}

/// What the loop does with the outcome of acquiring the surface texture.
#[derive(Clone, Copy, Debug, PartialEq, Eq, Structural)]
pub enum AcquireStep {
    /// The texture is there: render the frame to it.
    Render,
    /// Recreate the swap chain and try once more.
    Recreate,
    /// Give up: the second attempt in a row failed.
    Abort,
}

/// What the loop does with an event of the window.
#[derive(Clone, Copy, Debug, PartialEq, Eq, Structural)]
pub enum EventStep {
    /// End the loop.
    Exit,
    /// Hand the event to the simulation.
    Update,
}

/// The attempts made so far to acquire the surface texture of one frame.
#[derive(Clone, Copy, Debug, PartialEq, Eq, Structural)]
pub struct Acquisition {
    /// Whether an attempt has failed and the swap chain was recreated.
    pub retried: bool,
}

/// The step after an attempt to acquire the surface texture.
pub open spec fn spec_acquire_step(acquired: bool, retried: bool) -> AcquireStep {
    if acquired {
        AcquireStep::Render
    } else if retried {
        AcquireStep::Abort
    } else {
        AcquireStep::Recreate
    }
}

/// What to do once all pending events are handled, `elapsed_nanos` after the
/// last redraw was asked for.
pub open spec fn spec_pace(elapsed_nanos: u128) -> Pacing {
    if elapsed_nanos >= TARGET_FRAME_NANOS {
        Pacing::Redraw
    } else {
        Pacing::Wait { nanos: (TARGET_FRAME_NANOS - elapsed_nanos) as u128 }
    }
}

/// Decides what to do with an event of the window: a request to close it
/// and a press of the escape key end the loop, and every other event goes
/// to the simulation.
pub fn on_window_event(close_requested: bool, escape_pressed: bool) -> (step: EventStep)
    ensures
        step == if close_requested || escape_pressed {
            EventStep::Exit
        } else {
            EventStep::Update
        },
{
    if close_requested || escape_pressed {
        EventStep::Exit
    } else {
        EventStep::Update
    }
}

/// Decides between redrawing and waiting: a redraw is due once the target
/// frame interval has passed, and until then the loop sleeps for the rest
/// of it.
pub fn pace(elapsed_nanos: u128) -> (pacing: Pacing)
    ensures
        pacing == spec_pace(elapsed_nanos),
{
    if elapsed_nanos >= TARGET_FRAME_NANOS {
        Pacing::Redraw
    } else {
        Pacing::Wait { nanos: TARGET_FRAME_NANOS - elapsed_nanos }
    }
}

/// The size a surface gets when the window is resized: never less than one
/// pixel either way.
pub fn surface_extent(width: u32, height: u32) -> (extent: (u32, u32))
    ensures
        extent.0 == if width == 0 { 1 } else { width },
        extent.1 == if height == 0 { 1 } else { height },
{
    (if width == 0 { 1 } else { width }, if height == 0 { 1 } else { height })
}

impl Acquisition {
    /// The state before the first attempt of a frame.
    pub fn new() -> (fresh: Acquisition)
        ensures
            !fresh.retried,
    {
        Acquisition { retried: false }
    }

    /// Decides what follows an attempt to acquire the surface texture, and
    /// takes note of a retry.
    pub fn on_attempt(&mut self, acquired: bool) -> (step: AcquireStep)
        ensures
            step == spec_acquire_step(acquired, old(self).retried),
            final(self).retried == (old(self).retried || step == AcquireStep::Recreate),
    {
        if acquired {
            AcquireStep::Render
        } else if self.retried {
            AcquireStep::Abort
        } else {
            self.retried = true;
            AcquireStep::Recreate
        }
    }
}

/// A failed acquisition is retried once and no more: the first attempt of
/// a frame ends in rendering or in recreating the swap chain, and the
/// attempt after a recreation ends in rendering or in giving up, never in a
/// third attempt.
pub proof fn lemma_one_retry_at_most(first: bool, second: bool)
    ensures
        spec_acquire_step(first, false) == if first {
            AcquireStep::Render
        } else {
            AcquireStep::Recreate
        },
        spec_acquire_step(second, true) == if second {
            AcquireStep::Render
        } else {
            AcquireStep::Abort
        },
        spec_acquire_step(second, true) != AcquireStep::Recreate,
{
}

/// Waiting out what `pace` asks for brings the loop to the target interval
/// exactly, where a redraw is due.
pub proof fn lemma_wait_reaches_target(elapsed_nanos: u128)
    requires
        elapsed_nanos < TARGET_FRAME_NANOS,
    ensures
        spec_pace(elapsed_nanos) matches Pacing::Wait { nanos } && elapsed_nanos + nanos
            == TARGET_FRAME_NANOS && spec_pace((elapsed_nanos + nanos) as u128)
            == Pacing::Redraw,
{
}

} // verus!
