//! Repaint scheduling: turning the toolkit's suggested time-to-next-repaint
//! into the render loop's next wake-up.
//!
//! A suggestion of zero means the content wants continuous repainting, so
//! the next pass starts immediately. Any other suggestion is capped so that
//! wall-clock-driven content (the clock) still updates even when the toolkit
//! asks for a long sleep; external events (operating-system window events,
//! newly delivered desktop state) wake the loop earlier regardless.

use vstd::prelude::*;

verus! {

/// Longest wait the scheduler ever arms between repaints, in nanoseconds
/// (50 ms).
pub const MAX_WAIT_NS: u64 = 50_000_000;

/// How the render loop arms its next wake-up after a pass.
#[derive(Clone, Copy, Debug, PartialEq, Eq, Structural)]
pub enum RepaintDecision {
    /// Repaint again without sleeping.
    Immediate,
    /// Sleep at most this many nanoseconds, unless an external event arrives
    /// first.
    WaitNs(u64),
}

/// The scheduling rule: zero means immediate, anything else waits for the
/// suggestion capped at `MAX_WAIT_NS`.
pub open spec fn schedule_spec(suggested_ns: u64) -> RepaintDecision {
    if suggested_ns == 0 {
        RepaintDecision::Immediate
    } else if suggested_ns < MAX_WAIT_NS {
        RepaintDecision::WaitNs(suggested_ns)
    } else {
        RepaintDecision::WaitNs(MAX_WAIT_NS)
    }
}

/// Arm the next repaint from the toolkit's suggested delay.
pub fn schedule_repaint(suggested_ns: u64) -> (r: RepaintDecision)
    ensures
        r == schedule_spec(suggested_ns),
{
    if suggested_ns == 0 {
        RepaintDecision::Immediate
    } else if suggested_ns < MAX_WAIT_NS {
        RepaintDecision::WaitNs(suggested_ns)
    } else {
        RepaintDecision::WaitNs(MAX_WAIT_NS)
    }
}

/// The armed wait never exceeds the cap: however long a delay the toolkit
/// suggests, the loop wakes within `MAX_WAIT_NS`.
pub proof fn lemma_wait_is_capped(suggested_ns: u64)
    ensures
        schedule_spec(suggested_ns) matches RepaintDecision::WaitNs(ns) ==> ns <= MAX_WAIT_NS,
{
}

} // verus!
