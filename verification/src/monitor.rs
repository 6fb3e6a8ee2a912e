//! Deciding which display currently holds the user's attention.
//!
//! Two signals say where the user is: the pointer and the focused window.
//! [`geometry`] maps each to a monitor, [`state`] keeps the last monitor
//! of each with the time of the transition and fuses the two by recency.
//! [`tracker`] says what a snapshot answers and what one background
//! sample does to the state; [`poll_loop`] holds the decisions of the
//! background loop, which [`poller`] paces between two bounds by one of
//! two strategies. [`poller_laws`] states what holds of the pacing over
//! many ticks. [`config`] holds the settings, [`interval`] the spans of
//! time, [`platform`] the queries that an operating system answers, and
//! [`xrandr`] reads the list of displays off a tool's report.

pub mod config;
pub mod geometry;
pub mod interval;
pub mod platform;
pub mod poll_loop;
pub mod poller;
pub mod poller_laws;
pub mod state;
pub mod tracker;
pub mod xrandr;
