//! The executable display controller.

use vstd::prelude::*;
use crate::model::DisplayModel;
use crate::model::TickAction;
use crate::model::initial_model;
use crate::model::enable_step;
use crate::model::disable_step;
use crate::model::tick_step;
use crate::model::tick_decision;
use crate::model::sample_step;
use crate::text::FpsSample;
use crate::text::display_text;
use crate::text::render_placeholder;
use crate::text::render_value;
use vstd::arithmetic::div_mod::lemma_small_mod;
use vstd::arithmetic::div_mod::lemma_mod_pos_bound;

verus! {

/// The interval used by [`ScreenDiagsState::default`]: one second.
pub const DEFAULT_INTERVAL_MS: u64 = 1000;

/// Rejected configuration.
#[derive(Clone, Copy, PartialEq, Eq, Structural, Debug)]
pub enum ConfigError {
    /// The redraw interval must be strictly positive.
    ZeroInterval,
}

/// The reading handed back after a poll, viewed as tenths of a frame per
/// second; absent while the diagnostic source has not produced one.
pub open spec fn sample_view(sample: Option<FpsSample>) -> Option<nat> {
    match sample {
        Some(s) => Some(s@),
        None => None,
    }
}

/// The frames-per-second display controller.
///
/// The host drives it with one [`on_tick`](ScreenDiagsState::on_tick) call
/// per frame, performs the returned [`TickAction`], and hands a polled
/// reading back through [`apply_sample`](ScreenDiagsState::apply_sample).
/// Its view is the [`DisplayModel`] it implements.
#[derive(Debug)]
pub struct ScreenDiagsState {
    /// Minimum time between redraws while enabled, in milliseconds.
    interval_ms: u64,
    /// Progress toward the next mandatory redraw, in milliseconds.
    elapsed_ms: u64,
    /// Whether the display should show a value.
    enabled: bool,
    /// One-shot flag requesting a redraw even if the timer has not popped.
    update_now: bool,
    /// Most recently observed reading.
    last_value: Option<FpsSample>,
}

impl View for ScreenDiagsState {
    type V = DisplayModel;

    closed spec fn view(&self) -> DisplayModel {
        DisplayModel {
            interval: self.interval_ms as nat,
            elapsed: self.elapsed_ms as nat,
            enabled: self.enabled,
            pending: self.update_now,
            last: match self.last_value {
                Some(s) => Some(s@),
                None => None,
            },
        }
    }
}

impl ScreenDiagsState {
    /// Whether the controller is well formed; established by the
    /// constructors and preserved by every method.
    pub open spec fn wf(self) -> bool {
        self@.wf()
    }

    /// A controller that redraws at most every `interval_ms` milliseconds,
    /// initially enabled or not as `enabled` says, with the first redraw
    /// forced. A zero interval is rejected.
    pub fn new(interval_ms: u64, enabled: bool) -> (r: Result<ScreenDiagsState, ConfigError>)
        ensures
            interval_ms == 0 <==> r is Err,
            r is Err ==> r == Err::<ScreenDiagsState, ConfigError>(ConfigError::ZeroInterval),
            r matches Ok(s) ==> s.wf() && s@ == initial_model(interval_ms as nat, enabled),
    {
        if interval_ms == 0 {
            Err(ConfigError::ZeroInterval)
        } else {
            Ok(ScreenDiagsState {
                interval_ms,
                elapsed_ms: 0,
                enabled,
                update_now: true,
                last_value: None,
            })
        }
    }

    /// Enable the display: resume the interval timer and force one
    /// immediate redraw. Idempotent.
    pub fn enable(&mut self)
        ensures
            final(self)@ == enable_step(old(self)@),
            final(self)@.enabled,
            final(self)@.pending,
            old(self).wf() ==> final(self).wf(),
    {
        self.enabled = true;
        self.update_now = true;
        proof {
            assert(self@ =~= enable_step(old(self)@));
        }
    }

    /// Disable the display: freeze the interval timer and force one
    /// immediate redraw, which clears the display. Idempotent.
    pub fn disable(&mut self)
        ensures
            final(self)@ == disable_step(old(self)@),
            !final(self)@.enabled,
            final(self)@.pending,
            old(self).wf() ==> final(self).wf(),
    {
        self.enabled = false;
        self.update_now = true;
        proof {
            assert(self@ =~= disable_step(old(self)@));
        }
    }

    /// Whether the display is enabled. Pure query.
    pub fn enabled(&self) -> (r: bool)
        ensures
            r == self@.enabled,
    {
        self.enabled
    }

    /// Whether an out-of-cycle redraw is pending. Pure query.
    pub fn update_pending(&self) -> (r: bool)
        ensures
            r == self@.pending,
    {
        self.update_now
    }

    /// The redraw interval in milliseconds. Pure query.
    pub fn interval_ms(&self) -> (r: u64)
        ensures
            r as nat == self@.interval,
    {
        self.interval_ms
    }

    /// The most recent reading, if any. Pure query.
    pub fn last_value(&self) -> (r: Option<FpsSample>)
        ensures
            sample_view(r) == self@.last,
    {
        self.last_value
    }

    /// Advance the timer by `delta_ms` milliseconds and decide this tick's
    /// work: [`TickAction::Skip`] unless a redraw is due, [`TickAction::Clear`]
    /// when due but disabled, [`TickAction::Poll`] when due and enabled. The
    /// forced-update flag is consumed by the redraw it triggers.
    pub fn on_tick(&mut self, delta_ms: u64) -> (action: TickAction)
        requires
            old(self).wf(),
            old(self)@.elapsed + delta_ms <= u64::MAX,
        ensures
            final(self).wf(),
            final(self)@ == tick_step(old(self)@, delta_ms as nat),
            action == tick_decision(old(self)@, delta_ms as nat),
    {
        let mut fired = false;
        if self.enabled {
            let sum = self.elapsed_ms + delta_ms;
            if sum >= self.interval_ms {
                fired = true;
                proof {
                    lemma_mod_pos_bound(sum as int, self.interval_ms as int);
                }
                self.elapsed_ms = sum % self.interval_ms;
            } else {
                proof {
                    lemma_small_mod(sum as nat, self.interval_ms as nat);
                }
                self.elapsed_ms = sum;
            }
        }
        let action = if self.update_now || fired {
            self.update_now = false;
            if self.enabled {
                TickAction::Poll
            } else {
                TickAction::Clear
            }
        } else {
            TickAction::Skip
        };
        proof {
            assert(self@ =~= tick_step(old(self)@, delta_ms as nat));
        }
        action
    }

    /// Record the diagnostic source's answer and produce the text the display
    /// must now show: the formatted reading once one exists (a fresh reading
    /// replaces the cached one), the placeholder before the first reading.
    pub fn apply_sample(&mut self, sample: Option<FpsSample>) -> (display: String)
        ensures
            final(self)@ == sample_step(old(self)@, sample_view(sample)),
            display@ == display_text(final(self)@.last),
    {
        match sample {
            Some(s) => {
                self.last_value = Some(s);
                proof {
                    assert(self@ =~= sample_step(old(self)@, sample_view(sample)));
                }
                render_value(s)
            },
            None => {
                match self.last_value {
                    Some(s) => render_value(s),
                    None => render_placeholder(),
                }
            },
        }
    }
}

impl Default for ScreenDiagsState {
    /// The startup configuration: one-second interval, enabled, first
    /// redraw forced.
    fn default() -> (s: Self)
        ensures
            s.wf(),
            s@ == initial_model(DEFAULT_INTERVAL_MS as nat, true),
    {
        ScreenDiagsState {
            interval_ms: DEFAULT_INTERVAL_MS,
            elapsed_ms: 0,
            enabled: true,
            update_now: true,
            last_value: None,
        }
    }
}

} // verus!
