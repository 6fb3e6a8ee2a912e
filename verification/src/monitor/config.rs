//! The settings of the monitor tracker and the rules that repair them.

use vstd::prelude::*;
use crate::monitor::poller::{BasicStrategy, MomentumStrategy, PollStrategy, Strategy, StrategyModel};
use crate::text::{eq_ignore_ascii_case, is_blank, same_ignoring_ascii_case, trimmed};

verus! {

/// The shortest poll interval unless the settings say otherwise, in milliseconds.
pub const DEFAULT_POLL_MIN_MS: u64 = 16;

/// The longest poll interval unless the settings say otherwise, in milliseconds.
pub const DEFAULT_POLL_MAX_MS: u64 = 500;

/// The poll interval from which on the pointer commits unless the settings say
/// otherwise, in milliseconds.
pub const DEFAULT_COMMIT_THRESHOLD_MS: u64 = 128;

/// How fast the tracker polls, when it lets the pointer commit, and by
/// which strategy it adapts its pace.
#[derive(Debug, Clone, PartialEq, Eq)]
pub struct MonitorConfig {
    pub poll_min_ms: u64,
    pub poll_max_ms: u64,
    pub commit_threshold_ms: u64,
    pub strategy: String,
}

/// A configuration with the strategy's name as plain text.
pub struct MonitorConfigView {
    pub poll_min_ms: u64,
    pub poll_max_ms: u64,
    pub commit_threshold_ms: u64,
    pub strategy: Seq<char>,
}

impl View for MonitorConfig {
    type V = MonitorConfigView;

    open spec fn view(&self) -> MonitorConfigView {
        MonitorConfigView {
            poll_min_ms: self.poll_min_ms,
            poll_max_ms: self.poll_max_ms,
            commit_threshold_ms: self.commit_threshold_ms,
            strategy: self.strategy@,
        }
    }
}

impl MonitorConfigView {
    /// The documented defaults.
    pub open spec fn defaults() -> MonitorConfigView {
        MonitorConfigView {
            poll_min_ms: DEFAULT_POLL_MIN_MS,
            poll_max_ms: DEFAULT_POLL_MAX_MS,
            commit_threshold_ms: DEFAULT_COMMIT_THRESHOLD_MS,
            strategy: "basic"@,
        }
    }

    /// The configuration with its invalid parts replaced by defaults:
    /// both bounds when the lower one exceeds the upper one, and the
    /// strategy's name when it is blank.
    pub open spec fn normalized(self) -> MonitorConfigView {
        let crossed = self.poll_min_ms > self.poll_max_ms;
        MonitorConfigView {
            poll_min_ms: if crossed {
                DEFAULT_POLL_MIN_MS
            } else {
                self.poll_min_ms
            },
            poll_max_ms: if crossed {
                DEFAULT_POLL_MAX_MS
            } else {
                self.poll_max_ms
            },
            commit_threshold_ms: self.commit_threshold_ms,
            strategy: if trimmed(self.strategy).len() == 0 {
                "basic"@
            } else {
                self.strategy
            },
        }
    }
}

impl Default for MonitorConfig {
    fn default() -> (config: MonitorConfig)
        ensures
            config@ == MonitorConfigView::defaults(),
    {
        MonitorConfig {
            poll_min_ms: DEFAULT_POLL_MIN_MS,
            poll_max_ms: DEFAULT_POLL_MAX_MS,
            commit_threshold_ms: DEFAULT_COMMIT_THRESHOLD_MS,
            strategy: "basic".to_owned(),
        }
    }
}

impl MonitorConfig {
    /// Replaces what is invalid by the defaults and keeps the rest.
    pub fn normalized(self) -> (config: MonitorConfig)
        ensures
            config@ == self@.normalized(),
            config.poll_min_ms <= config.poll_max_ms,
    {
        let mut config = self;
        if config.poll_min_ms > config.poll_max_ms {
            config.poll_min_ms = DEFAULT_POLL_MIN_MS;
            config.poll_max_ms = DEFAULT_POLL_MAX_MS;
        }
        if is_blank(config.strategy.as_str()) {
            config.strategy = "basic".to_owned();
        }
        config
    }

    /// Whether two configurations say the same.
    pub fn same_as(&self, other: &MonitorConfig) -> (same: bool)
        ensures
            same == (self@ == other@),
    {
        self.poll_min_ms == other.poll_min_ms && self.poll_max_ms == other.poll_max_ms
            && self.commit_threshold_ms == other.commit_threshold_ms && self.strategy
            == other.strategy
    }
}

/// The strategy that a name selects: momentum for `momentum` in any mix
/// of upper and lower case, the basic strategy for every other name.
pub open spec fn strategy_named(name: Seq<char>) -> StrategyModel {
    if same_ignoring_ascii_case(name, "momentum"@) {
        StrategyModel::Momentum { streak: 0 }
    } else {
        StrategyModel::Basic
    }
}

/// A fresh strategy of the kind that the name selects.
pub fn strategy_from_name(name: &str) -> (strategy: Strategy)
    ensures
        strategy.model() == strategy_named(name@),
{
    if eq_ignore_ascii_case(name, "momentum") {
        Strategy::Momentum(MomentumStrategy::new())
    } else {
        Strategy::Basic(BasicStrategy)
    }
}

} // verus!
