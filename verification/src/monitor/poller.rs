//! Strategies that choose the next poll interval, and the poller that
//! applies one of them tick after tick.

use vstd::prelude::*;
use vstd::arithmetic::div_mod::lemma_hoist_over_denominator;
use crate::monitor::interval::{clamp_int, Interval};

verus! {

/// What a strategy is and what it remembers between two calls.
pub enum StrategyModel {
    /// Halves and doubles; remembers nothing.
    Basic,
    /// Remembers how many ticks in a row went the same way: positive for
    /// ticks with a change, negative for idle ticks.
    Momentum { streak: int },
}

/// The interval that the basic strategy proposes before clamping.
pub open spec fn basic_raw(current: int, changed: bool) -> int {
    if changed {
        current / 2
    } else {
        current * 2
    }
}

/// The streak after one more tick: a tick against the run restarts the
/// count at one, a tick with the run lengthens it until the counter is full.
pub open spec fn next_streak(streak: int, changed: bool) -> int {
    if changed {
        if streak < 0 {
            1
        } else if streak >= i32::MAX {
            i32::MAX as int
        } else {
            streak + 1
        }
    } else {
        if streak > 0 {
            -1
        } else if streak <= i32::MIN {
            i32::MIN as int
        } else {
            streak - 1
        }
    }
}

/// Length of a streak, counting an empty one as one.
pub open spec fn streak_len(streak: int) -> int {
    if streak > 0 {
        streak
    } else if streak < 0 {
        -streak
    } else {
        1
    }
}

/// The interval that the momentum strategy proposes before clamping,
/// given the streak that already counts the current tick.
pub open spec fn momentum_raw(streak: int, current: int, changed: bool) -> int {
    let len = streak_len(streak);
    if changed {
        current / clamp_int(len, 2, 8)
    } else {
        (current * (len + 1)) / len
    }
}

impl StrategyModel {
    /// The strategy after a tick.
    pub open spec fn after(self, changed: bool) -> StrategyModel {
        match self {
            StrategyModel::Basic => StrategyModel::Basic,
            StrategyModel::Momentum { streak } => StrategyModel::Momentum {
                streak: next_streak(streak, changed),
            },
        }
    }

    /// The interval that the strategy answers a tick with.
    pub open spec fn next_interval(self, current: int, changed: bool, min: int, max: int) -> int {
        match self {
            StrategyModel::Basic => clamp_int(basic_raw(current, changed), min, max),
            StrategyModel::Momentum { streak } => clamp_int(
                momentum_raw(next_streak(streak, changed), current, changed),
                min,
                max,
            ),
        }
    }
}

/// An algorithm that computes the next poll interval from the current one
/// and from whether the last sample showed a change.
pub trait PollStrategy: Send {
    /// What the strategy is and remembers.
    spec fn model(&self) -> StrategyModel;

    fn next_interval(
        &mut self,
        current: Interval,
        changed: bool,
        min: Interval,
        max: Interval,
    ) -> (next: Interval)
        requires
            min@ <= max@,
        ensures
            next@ == old(self).model().next_interval(
                current@ as int,
                changed,
                min@ as int,
                max@ as int,
            ),
            final(self).model() == old(self).model().after(changed),
            min@ <= next@ <= max@,
    ;
}

/// Halves the interval on a change and doubles it on an idle tick.
pub struct BasicStrategy;

impl PollStrategy for BasicStrategy {
    open spec fn model(&self) -> StrategyModel {
        StrategyModel::Basic
    }

    fn next_interval(
        &mut self,
        current: Interval,
        changed: bool,
        min: Interval,
        max: Interval,
    ) -> (next: Interval)
        ensures
            next@ == clamp_int(basic_raw(current@ as int, changed), min@ as int, max@ as int),
    {
        if changed {
            Interval::from_nanos(current.nanos / 2).clamp(min, max)
        } else {
            match current.nanos.checked_mul(2) {
                Some(doubled) => Interval::from_nanos(doubled).clamp(min, max),
                None => max,
            }
        }
    }
}

/// Speeds up faster the longer changes keep coming, and slows down more
/// gently the longer nothing happens.
pub struct MomentumStrategy {
    streak: i32,
}

impl MomentumStrategy {
    /// The signed count of ticks in a row that went the same way.
    pub closed spec fn spec_streak(&self) -> i32 {
        self.streak
    }

    /// A strategy that has seen no tick yet.
    pub fn new() -> (s: MomentumStrategy)
        ensures
            s.spec_streak() == 0,
    {
        MomentumStrategy { streak: 0 }
    }

    /// The signed count of ticks in a row that went the same way.
    #[verifier::when_used_as_spec(spec_streak)]
    pub fn streak(&self) -> (s: i32)
        ensures
            s == self.spec_streak(),
    {
        self.streak
    }
}

/// Growing a span by the fraction `1 / len` of itself is the same as
/// adding its `len`-th part.
pub proof fn lemma_ramp_up(current: int, len: int)
    requires
        len > 0,
    ensures
        (current * (len + 1)) / len == current + current / len,
{
    lemma_hoist_over_denominator(current, current, len as nat);
    assert(current * (len + 1) == current + current * len) by (nonlinear_arith);
}

impl PollStrategy for MomentumStrategy {
    open spec fn model(&self) -> StrategyModel {
        StrategyModel::Momentum { streak: self.spec_streak() as int }
    }

    fn next_interval(
        &mut self,
        current: Interval,
        changed: bool,
        min: Interval,
        max: Interval,
    ) -> (next: Interval)
        ensures
            final(self).spec_streak() == next_streak(old(self).spec_streak() as int, changed),
            next@ == clamp_int(
                momentum_raw(final(self).spec_streak() as int, current@ as int, changed),
                min@ as int,
                max@ as int,
            ),
    {
        if changed {
            self.streak = if self.streak < 0 {
                1
            } else if self.streak == i32::MAX {
                i32::MAX
            } else {
                self.streak + 1
            };
        } else {
            self.streak = if self.streak > 0 {
                -1
            } else if self.streak == i32::MIN {
                i32::MIN
            } else {
                self.streak - 1
            };
        }
        let len: u128 = if self.streak > 0 {
            self.streak as u128
        } else if self.streak < 0 {
            (-(self.streak as i64)) as u128
        } else {
            1
        };
        if changed {
            let divisor: u128 = if len < 2 {
                2
            } else if len > 8 {
                8
            } else {
                len
            };
            Interval::from_nanos(current.nanos / divisor).clamp(min, max)
        } else {
            proof {
                lemma_ramp_up(current@ as int, len as int);
            }
            match current.nanos.checked_add(current.nanos / len) {
                Some(grown) => Interval::from_nanos(grown).clamp(min, max),
                None => max,
            }
        }
    }
}

/// What a poller holds: its strategy, the current interval and the
/// bounds, all intervals in nanoseconds.
pub struct PollerModel {
    pub strategy: StrategyModel,
    pub current: int,
    pub min: int,
    pub max: int,
}

impl PollerModel {
    /// The current interval lies within the bounds.
    pub open spec fn wf(self) -> bool {
        0 <= self.min <= self.current <= self.max
    }

    /// The poller after one tick.
    pub open spec fn tick(self, changed: bool) -> PollerModel {
        PollerModel {
            strategy: self.strategy.after(changed),
            current: self.strategy.next_interval(self.current, changed, self.min, self.max),
            min: self.min,
            max: self.max,
        }
    }

    /// The poller after `n` idle ticks in a row.
    pub open spec fn idle_run(self, n: nat) -> PollerModel
        decreases n,
    {
        if n == 0 {
            self
        } else {
            self.tick(false).idle_run((n - 1) as nat)
        }
    }

    /// The poller after new bounds and a new strategy were put in place:
    /// the current interval moves into the new bounds and is otherwise kept.
    pub open spec fn reconfigure(self, min: int, max: int, strategy: StrategyModel) -> PollerModel {
        PollerModel { strategy, current: clamp_int(self.current, min, max), min, max }
    }

    /// Every further idle tick lengthens the interval until it is at the
    /// upper bound: the interval is not zero, and under the momentum
    /// strategy it is longer than the idle streak counted so far.
    pub open spec fn recovers(self) -> bool {
        match self.strategy {
            StrategyModel::Basic => self.current >= 1,
            StrategyModel::Momentum { streak } => if streak >= 0 {
                self.current >= 1
            } else {
                self.current >= 1 - streak
            },
        }
    }
}

/// The strategy that a poller runs, chosen while the program runs.
pub enum Strategy {
    Basic(BasicStrategy),
    Momentum(MomentumStrategy),
}

impl PollStrategy for Strategy {
    open spec fn model(&self) -> StrategyModel {
        match self {
            Strategy::Basic(s) => s.model(),
            Strategy::Momentum(s) => s.model(),
        }
    }

    fn next_interval(
        &mut self,
        current: Interval,
        changed: bool,
        min: Interval,
        max: Interval,
    ) -> (next: Interval)
    {
        match self {
            Strategy::Basic(s) => s.next_interval(current, changed, min, max),
            Strategy::Momentum(s) => s.next_interval(current, changed, min, max),
        }
    }
}

/// Polls at an interval that it adapts, between a lower and an upper
/// bound, to what the ticks report.
pub struct AdaptivePoller {
    current: Interval,
    min: Interval,
    max: Interval,
    strategy: Strategy,
}

impl View for AdaptivePoller {
    type V = PollerModel;

    closed spec fn view(&self) -> PollerModel {
        PollerModel {
            strategy: self.strategy.model(),
            current: self.current@ as int,
            min: self.min@ as int,
            max: self.max@ as int,
        }
    }
}

impl AdaptivePoller {
    /// A poller that starts at the upper bound.
    pub fn new(
        min: Interval,
        max: Interval,
        strategy: Strategy,
    ) -> (poller: AdaptivePoller)
        requires
            min@ <= max@,
        ensures
            poller@ == (PollerModel {
                strategy: strategy.model(),
                current: max@ as int,
                min: min@ as int,
                max: max@ as int,
            }),
            poller@.wf(),
    {
        AdaptivePoller { current: max, min, max, strategy }
    }

    /// Asks the strategy for the next interval, stores it and returns it.
    pub fn tick(&mut self, changed: bool) -> (next: Interval)
        requires
            old(self)@.wf(),
        ensures
            final(self)@ == old(self)@.tick(changed),
            final(self)@.wf(),
            next@ == final(self)@.current,
    {
        let next = self.strategy.next_interval(self.current, changed, self.min, self.max);
        self.current = next;
        next
    }

    /// The interval that the last tick returned, or the upper bound before
    /// the first tick.
    pub fn current(&self) -> (current: Interval)
        ensures
            current@ == self@.current,
    {
        self.current
    }

    /// Puts new bounds and a new strategy in place. The current interval
    /// is moved into the new bounds; it does not start again at the upper
    /// bound.
    pub fn reconfigure(&mut self, min: Interval, max: Interval, strategy: Strategy)
        requires
            min@ <= max@,
        ensures
            final(self)@ == old(self)@.reconfigure(min@ as int, max@ as int, strategy.model()),
            final(self)@.wf(),
    {
        let current = self.current.clamp(min, max);
        *self = AdaptivePoller { current, min, max, strategy };
    }
}

} // verus!
