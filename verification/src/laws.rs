//! Laws of the display controller, proved over its model.

use vstd::prelude::*;
use crate::model::DisplayModel;
use crate::model::TickAction;
use crate::model::enable_step;
use crate::model::disable_step;
use crate::model::tick_step;
use crate::model::tick_decision;
use crate::model::sample_step;
use crate::text::display_text;
use crate::text::placeholder_text;
use crate::text::formatted_text;
use crate::text::rounded_of;
use vstd::arithmetic::div_mod::lemma_small_mod;
use vstd::arithmetic::div_mod::lemma_mod_pos_bound;
use vstd::arithmetic::div_mod::lemma_fundamental_div_mod;
use vstd::arithmetic::div_mod::lemma_fundamental_div_mod_converse;

verus! {

/// The total elapsed time of a sequence of ticks, in milliseconds.
pub open spec fn sum_of(deltas: Seq<nat>) -> nat
    decreases deltas.len(),
{
    if deltas.len() == 0 {
        0
    } else {
        deltas[0] + sum_of(deltas.drop_first())
    }
}

/// How many of the ticks `deltas` poll the diagnostic source.
pub open spec fn poll_count(m: DisplayModel, deltas: Seq<nat>) -> nat
    decreases deltas.len(),
{
    if deltas.len() == 0 {
        0
    } else {
        (if tick_decision(m, deltas[0]) is Poll {
            1nat
        } else {
            0nat
        }) + poll_count(tick_step(m, deltas[0]), deltas.drop_first())
    }
}

/// How many of the ticks `deltas` write to the display (a poll or a clear).
pub open spec fn write_count(m: DisplayModel, deltas: Seq<nat>) -> nat
    decreases deltas.len(),
{
    if deltas.len() == 0 {
        0
    } else {
        (if tick_decision(m, deltas[0]) is Skip {
            0nat
        } else {
            1nat
        }) + write_count(tick_step(m, deltas[0]), deltas.drop_first())
    }
}

/// The state after the polled readings `samples` are handed back in order.
pub open spec fn run_samples(m: DisplayModel, samples: Seq<Option<nat>>) -> DisplayModel
    decreases samples.len(),
{
    if samples.len() == 0 {
        m
    } else {
        run_samples(sample_step(m, samples[0]), samples.drop_first())
    }
}

/// Enabling is idempotent: a second `enable` changes nothing, and either way
/// the controller is active with exactly one forced update pending.
pub proof fn lemma_enable_idempotent(m: DisplayModel)
    ensures
        enable_step(enable_step(m)) == enable_step(m),
        enable_step(m).enabled,
        enable_step(m).pending,
{
    assert(enable_step(enable_step(m)) =~= enable_step(m));
}

/// Disabling is idempotent: a second `disable` changes nothing, and either
/// way the controller is suspended with exactly one forced update pending.
pub proof fn lemma_disable_idempotent(m: DisplayModel)
    ensures
        disable_step(disable_step(m)) == disable_step(m),
        !disable_step(m).enabled,
        disable_step(m).pending,
{
    assert(disable_step(disable_step(m)) =~= disable_step(m));
}

/// The forced-update flag is one-shot: whatever a tick did, it never leaves
/// the flag set afterwards.
pub proof fn lemma_tick_clears_pending(m: DisplayModel, delta: nat)
    ensures
        !tick_step(m, delta).pending,
{
}

/// After `disable`, the very next tick clears the display, regardless of the
/// time remaining in the current interval.
pub proof fn lemma_disable_then_tick_clears(m: DisplayModel, delta: nat)
    ensures
        tick_decision(disable_step(m), delta) == TickAction::Clear,
{
}

/// After `enable`, the very next tick polls and redraws, even with near-zero
/// elapsed time: no wait for a full interval.
pub proof fn lemma_enable_then_tick_polls(m: DisplayModel, delta: nat)
    ensures
        tick_decision(enable_step(m), delta) == TickAction::Poll,
{
}

/// No redundant work, settled case: with no forced update pending and ticks
/// whose cumulative elapsed time stays below the interval, the diagnostic
/// source is never polled and the display is never written.
pub proof fn lemma_quiet_ticks_do_nothing(m: DisplayModel, deltas: Seq<nat>)
    requires
        m.wf(),
        !m.pending,
        m.elapsed + sum_of(deltas) < m.interval,
    ensures
        poll_count(m, deltas) == 0,
        write_count(m, deltas) == 0,
    decreases deltas.len(),
{
    if deltas.len() > 0 {
        let d = deltas[0];
        let rest = deltas.drop_first();
        let m2 = tick_step(m, d);
        if m.enabled {
            lemma_small_mod((m.elapsed + d) as nat, m.interval);
        }
        assert(tick_decision(m, d) is Skip);
        assert(m2.elapsed + sum_of(rest) < m2.interval);
        lemma_quiet_ticks_do_nothing(m2, rest);
    }
}

/// No redundant polling: over any run of ticks whose cumulative elapsed time
/// is less than the interval, with no toggle in between, the diagnostic
/// source is queried at most once and the display is written at most once
/// (and not at all unless a forced update was already pending).
pub proof fn lemma_no_redundant_work(m: DisplayModel, deltas: Seq<nat>)
    requires
        m.wf(),
        m.elapsed + sum_of(deltas) < m.interval,
    ensures
        poll_count(m, deltas) <= 1,
        write_count(m, deltas) <= 1,
        !m.pending ==> poll_count(m, deltas) == 0 && write_count(m, deltas) == 0,
    decreases deltas.len(),
{
    if !m.pending {
        lemma_quiet_ticks_do_nothing(m, deltas);
    } else if deltas.len() > 0 {
        let d = deltas[0];
        let rest = deltas.drop_first();
        let m2 = tick_step(m, d);
        if m.enabled {
            lemma_small_mod((m.elapsed + d) as nat, m.interval);
        }
        assert(!m2.pending);
        assert(m2.elapsed + sum_of(rest) < m2.interval);
        lemma_quiet_ticks_do_nothing(m2, rest);
    }
}

/// Interval cadence: while enabled, with no forced update pending and each
/// tick no longer than the interval, exactly one poll and one write occur
/// per completed interval — no more, no fewer.
pub proof fn lemma_interval_cadence(m: DisplayModel, deltas: Seq<nat>)
    requires
        m.wf(),
        m.enabled,
        !m.pending,
        forall|i: int| 0 <= i < deltas.len() ==> deltas[i] <= m.interval,
    ensures
        poll_count(m, deltas) == (m.elapsed + sum_of(deltas)) / m.interval,
        write_count(m, deltas) == poll_count(m, deltas),
    decreases deltas.len(),
{
    let iv = m.interval;
    if deltas.len() == 0 {
        lemma_fundamental_div_mod_converse(m.elapsed as int, iv as int, 0, m.elapsed as int);
    } else {
        let d = deltas[0];
        let rest = deltas.drop_first();
        let m2 = tick_step(m, d);
        let e = m.elapsed;
        assert(d <= iv);
        assert forall|i: int| 0 <= i < rest.len() implies rest[i] <= m2.interval by {
            assert(rest[i] == deltas[i + 1]);
        }
        if e + d < iv {
            lemma_small_mod((e + d) as nat, iv);
            assert(tick_decision(m, d) is Skip);
            lemma_interval_cadence(m2, rest);
        } else {
            let r = (e + d - iv) as nat;
            lemma_fundamental_div_mod_converse((e + d) as int, iv as int, 1, r as int);
            assert(m2.elapsed == r);
            assert(tick_decision(m, d) is Poll);
            lemma_interval_cadence(m2, rest);
            let s2 = sum_of(rest);
            let y = (r + s2) as int;
            let q = y / (iv as int);
            let rr = y % (iv as int);
            lemma_fundamental_div_mod(y, iv as int);
            lemma_mod_pos_bound(y, iv as int);
            assert((q + 1) * (iv as int) == (iv as int) * q + (iv as int)) by (nonlinear_arith);
            lemma_fundamental_div_mod_converse(y + iv, iv as int, q + 1, rr);
            assert(e + d + s2 == y + iv);
        }
    }
}

/// While suspended, the display never shows a stale number: a tick either
/// does nothing or clears the display, it never polls; and the frozen timer
/// makes no progress toward a redraw.
pub proof fn lemma_suspended_never_polls(m: DisplayModel, delta: nat)
    requires
        !m.enabled,
    ensures
        tick_decision(m, delta) is Clear || tick_decision(m, delta) is Skip,
        tick_step(m, delta).elapsed == m.elapsed,
{
}

/// Before the first reading arrives, absent readings change nothing and the
/// display keeps showing the placeholder.
pub proof fn lemma_placeholder_until_first_sample(m: DisplayModel, samples: Seq<Option<nat>>)
    requires
        m.last is None,
        forall|i: int| 0 <= i < samples.len() ==> samples[i] is None,
    ensures
        run_samples(m, samples) == m,
        display_text(run_samples(m, samples).last) == placeholder_text(),
    decreases samples.len(),
{
    if samples.len() > 0 {
        let rest = samples.drop_first();
        assert(samples[0] is None);
        assert forall|i: int| 0 <= i < rest.len() implies rest[i] is None by {
            assert(rest[i] == samples[i + 1]);
        }
        lemma_placeholder_until_first_sample(m, rest);
    }
}

/// The first reading ends the placeholder: once a reading arrives, it is
/// cached and the display shows it as a formatted number.
pub proof fn lemma_first_sample_formats(m: DisplayModel, tenths: nat)
    ensures
        sample_step(m, Some(tenths)).last == Some(tenths),
        display_text(sample_step(m, Some(tenths)).last) == formatted_text(rounded_of(tenths)),
{
}

} // verus!
