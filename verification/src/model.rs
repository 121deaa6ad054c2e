//! The mathematical model of the display controller.
//!
//! [`DisplayModel`] is the view of the executable state; the spec functions
//! here are the controller's transitions: what `enable`, `disable`, a tick and
//! a polled sample do to the model, and which action a tick asks of the host.

use vstd::prelude::*;

verus! {

/// What the host must do after a tick.
#[derive(Clone, Copy, PartialEq, Eq, Structural, Debug)]
pub enum TickAction {
    /// Neither poll the diagnostic source nor touch the display.
    Skip,
    /// Overwrite the display with the empty string.
    Clear,
    /// Poll the diagnostic source and hand the result to `apply_sample`.
    Poll,
}

/// The controller's state, in the abstract: interval and elapsed time in
/// milliseconds, the enabled flag, the one-shot forced-update flag, and the
/// last reading in tenths of a frame per second (absent until the diagnostic
/// source has produced one).
#[verifier::ext_equal]
pub struct DisplayModel {
    /// Minimum time between redraws while enabled, in milliseconds.
    pub interval: nat,
    /// Progress toward the next mandatory redraw, in milliseconds.
    pub elapsed: nat,
    /// Whether the display should show a value.
    pub enabled: bool,
    /// One-shot request for an out-of-cycle redraw.
    pub pending: bool,
    /// Most recent reading, in tenths of a frame per second.
    pub last: Option<nat>,
}

impl DisplayModel {
    /// A well-formed controller has a strictly positive interval, toward
    /// which strictly less than one full period has elapsed.
    pub open spec fn wf(self) -> bool {
        0 < self.interval && self.elapsed < self.interval
    }
}

/// The state of a freshly constructed controller: nothing elapsed, no reading
/// yet, and one forced update pending so the first tick redraws immediately.
pub open spec fn initial_model(interval: nat, enabled: bool) -> DisplayModel {
    DisplayModel { interval, elapsed: 0, enabled, pending: true, last: None }
}

/// `enable` makes the controller active, resumes the timer and requests one
/// out-of-cycle redraw.
pub open spec fn enable_step(m: DisplayModel) -> DisplayModel {
    DisplayModel { enabled: true, pending: true, ..m }
}

/// `disable` suspends the controller, freezes the timer and requests one
/// out-of-cycle redraw, which clears the display.
pub open spec fn disable_step(m: DisplayModel) -> DisplayModel {
    DisplayModel { enabled: false, pending: true, ..m }
}

/// Whether a tick of `delta` milliseconds completes the current period. The
/// timer only runs while the controller is enabled.
pub open spec fn tick_fires(m: DisplayModel, delta: nat) -> bool {
    m.enabled && m.elapsed + delta >= m.interval
}

/// Whether this tick must redraw: either an out-of-cycle redraw was requested
/// or the period has just completed.
pub open spec fn tick_due(m: DisplayModel, delta: nat) -> bool {
    m.pending || tick_fires(m, delta)
}

/// The state after a tick of `delta` milliseconds: the timer advances (and
/// wraps around the interval) only while enabled, and the forced-update flag
/// is consumed by the redraw it triggered.
pub open spec fn tick_step(m: DisplayModel, delta: nat) -> DisplayModel {
    DisplayModel {
        elapsed: if m.enabled {
            (m.elapsed + delta) % m.interval
        } else {
            m.elapsed
        },
        pending: if tick_due(m, delta) {
            false
        } else {
            m.pending
        },
        ..m
    }
}

/// The action a tick of `delta` milliseconds asks of the host: nothing unless
/// a redraw is due; clearing the display when due but disabled; polling the
/// diagnostic source when due and enabled.
pub open spec fn tick_decision(m: DisplayModel, delta: nat) -> TickAction {
    if !tick_due(m, delta) {
        TickAction::Skip
    } else if !m.enabled {
        TickAction::Clear
    } else {
        TickAction::Poll
    }
}

/// The state after the polled `sample` is handed back: a reading replaces the
/// cached one, while an absent reading leaves the state unchanged.
pub open spec fn sample_step(m: DisplayModel, sample: Option<nat>) -> DisplayModel {
    match sample {
        Some(tenths) => DisplayModel { last: Some(tenths), ..m },
        None => m,
    }
}

} // verus!
