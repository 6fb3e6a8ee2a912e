//! What holds of the poll strategies and of the poller over any number of
//! ticks.

use vstd::prelude::*;
use vstd::arithmetic::div_mod::lemma_div_is_ordered_by_denominator;
use crate::monitor::interval::clamp_int;
use crate::monitor::poller::{
    basic_raw,
    lemma_ramp_up,
    momentum_raw,
    next_streak,
    streak_len,
    PollerModel,
    StrategyModel,
};

verus! {

/// Whatever the strategy and the current interval, the next interval lies
/// within the bounds.
pub proof fn lemma_next_interval_in_bounds(
    strategy: StrategyModel,
    current: int,
    changed: bool,
    min: int,
    max: int,
)
    requires
        min <= max,
    ensures
        min <= strategy.next_interval(current, changed, min, max) <= max,
{
}

/// Within the bounds the basic strategy halves on a change, but not below
/// the lower bound, and doubles on an idle tick, but not above the upper
/// bound.
pub proof fn lemma_basic_halves_and_doubles(current: int, min: int, max: int)
    requires
        0 <= min <= current <= max,
    ensures
        StrategyModel::Basic.next_interval(current, true, min, max) == if current / 2 < min {
            min
        } else {
            current / 2
        },
        StrategyModel::Basic.next_interval(current, false, min, max) == if current * 2 > max {
            max
        } else {
            current * 2
        },
{
}

/// A tick against the run of the streak starts a new streak of one: plus
/// one for a change after idle ticks, minus one for an idle tick after
/// changes.
pub proof fn lemma_reversal_resets_streak(streak: int)
    ensures
        streak < 0 ==> next_streak(streak, true) == 1,
        streak > 0 ==> next_streak(streak, false) == -1,
{
}

/// A change that ends an idle streak is answered as a change on a fresh
/// strategy is, by half the interval: the longer idle streak never yields
/// the longer interval.
pub proof fn lemma_ramp_down_after_idle(
    longer: int,
    shorter: int,
    current: int,
    min: int,
    max: int,
)
    requires
        longer <= shorter <= 0,
        min <= max,
    ensures
        (StrategyModel::Momentum { streak: longer }).next_interval(current, true, min, max) <= (
        StrategyModel::Momentum { streak: shorter }).next_interval(current, true, min, max),
        (StrategyModel::Momentum { streak: longer }).next_interval(current, true, min, max)
            == clamp_int(current / 2, min, max),
{
}

/// An idle tick that ends a streak of changes is answered as the first
/// idle tick of a fresh strategy is, by twice the interval: the longer
/// streak of changes never yields the longer interval.
pub proof fn lemma_ramp_up_after_active(
    longer: int,
    shorter: int,
    current: int,
    min: int,
    max: int,
)
    requires
        longer >= shorter > 0,
        min <= max,
    ensures
        (StrategyModel::Momentum { streak: longer }).next_interval(current, false, min, max) <= (
        StrategyModel::Momentum { streak: shorter }).next_interval(current, false, min, max),
        (StrategyModel::Momentum { streak: longer }).next_interval(current, false, min, max)
            == clamp_int(current * 2, min, max),
{
}

/// The longer changes have kept coming, the shorter the interval that the
/// next change yields.
pub proof fn lemma_longer_active_streak_ramps_down_faster(
    longer: int,
    shorter: int,
    current: int,
    min: int,
    max: int,
)
    requires
        longer >= shorter >= 0,
        0 <= current,
        min <= max,
    ensures
        (StrategyModel::Momentum { streak: longer }).next_interval(current, true, min, max) <= (
        StrategyModel::Momentum { streak: shorter }).next_interval(current, true, min, max),
{
    let long_div = clamp_int(streak_len(next_streak(longer, true)), 2, 8);
    let short_div = clamp_int(streak_len(next_streak(shorter, true)), 2, 8);
    assert(short_div <= long_div);
    lemma_div_is_ordered_by_denominator(current, short_div, long_div);
}

/// The longer nothing has happened, the smaller the step by which the
/// next idle tick lengthens the interval.
pub proof fn lemma_longer_idle_streak_ramps_up_slower(
    longer: int,
    shorter: int,
    current: int,
    min: int,
    max: int,
)
    requires
        longer <= shorter <= 0,
        0 <= current,
        min <= max,
    ensures
        (StrategyModel::Momentum { streak: longer }).next_interval(current, false, min, max) <= (
        StrategyModel::Momentum { streak: shorter }).next_interval(current, false, min, max),
{
    let long_len = streak_len(next_streak(longer, false));
    let short_len = streak_len(next_streak(shorter, false));
    assert(1 <= short_len <= long_len);
    lemma_ramp_up(current, long_len);
    lemma_ramp_up(current, short_len);
    lemma_div_is_ordered_by_denominator(current, short_len, long_len);
}

/// A tick keeps the bounds and leaves the interval within them.
pub proof fn lemma_tick_keeps_bounds(poller: PollerModel, changed: bool)
    requires
        poller.wf(),
    ensures
        poller.tick(changed).wf(),
        poller.tick(changed).min == poller.min,
        poller.tick(changed).max == poller.max,
{
}

/// An idle tick never shortens the interval. Where the poller recovers,
/// the tick lengthens the interval by a nanosecond at least or takes it
/// to the upper bound, and the poller recovers afterwards as well unless
/// it is at the upper bound.
pub proof fn lemma_idle_tick_lengthens(poller: PollerModel)
    requires
        poller.wf(),
    ensures
        poller.tick(false).current >= poller.current,
        poller.recovers() ==> {
            ||| poller.tick(false).current == poller.max
            ||| poller.tick(false).current > poller.current && poller.tick(false).recovers()
        },
{
    let c = poller.current;
    match poller.strategy {
        StrategyModel::Basic => {},
        StrategyModel::Momentum { streak } => {
            let len = streak_len(next_streak(streak, false));
            lemma_ramp_up(c, len);
            assert(c / len >= 0) by (nonlinear_arith)
                requires
                    c >= 0,
                    len > 0,
            ;
            if poller.recovers() {
                assert(c / len >= 1) by (nonlinear_arith)
                    requires
                        c >= len,
                        len > 0,
                ;
            }
        },
    }
}

/// A run of idle ticks takes a poller that recovers to its upper bound,
/// and keeps it there: as many ticks as the interval is nanoseconds short
/// of the bound are enough.
pub proof fn lemma_idle_run_reaches_max(poller: PollerModel, n: nat)
    requires
        poller.wf(),
        poller.recovers() || poller.current == poller.max,
        n >= poller.max - poller.current,
    ensures
        poller.idle_run(n).current == poller.max,
    decreases n,
{
    if n > 0 {
        lemma_idle_tick_lengthens(poller);
        lemma_tick_keeps_bounds(poller, false);
        lemma_idle_run_reaches_max(poller.tick(false), (n - 1) as nat);
    }
}

/// A poller at its upper bound answers a change with a shorter interval,
/// and a run of idle ticks takes it back to the upper bound, provided the
/// bounds differ and the shorter interval is not zero.
pub proof fn lemma_ramps_down_then_up(poller: PollerModel, n: nat)
    requires
        poller.wf(),
        poller.min < poller.max,
        poller.current == poller.max,
        poller.tick(true).current > 0,
        n >= poller.max,
    ensures
        poller.tick(true).current < poller.max,
        poller.tick(true).idle_run(n).current == poller.max,
{
    let max = poller.max;
    let after = poller.tick(true);
    match poller.strategy {
        StrategyModel::Basic => {},
        StrategyModel::Momentum { streak } => {
            let divisor = clamp_int(streak_len(next_streak(streak, true)), 2, 8);
            lemma_div_is_ordered_by_denominator(max, 2, divisor);
        },
    }
    lemma_tick_keeps_bounds(poller, true);
    lemma_idle_run_reaches_max(after, n);
}

/// New bounds and a new strategy leave the interval as it is where the
/// new bounds hold it, and move it to the nearer bound where they do not:
/// a poller never starts again at its upper bound.
pub proof fn lemma_reconfigure_keeps_interval(
    poller: PollerModel,
    min: int,
    max: int,
    strategy: StrategyModel,
)
    requires
        0 <= min <= max,
    ensures
        poller.reconfigure(min, max, strategy).wf(),
        min <= poller.current <= max ==> poller.reconfigure(min, max, strategy).current
            == poller.current,
        poller.current < min ==> poller.reconfigure(min, max, strategy).current == min,
        poller.current > max ==> poller.reconfigure(min, max, strategy).current == max,
{
}

} // verus!
