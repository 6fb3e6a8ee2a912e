//! The logic of a window switcher, apart from its windows and the
//! operating system.
//!
//! The heart of the library is [`monitor`]: it decides which display
//! holds the user's attention, from where the pointer is and where the
//! focused window lies, and it paces the background loop that watches
//! the two. Around it stand the smaller pieces that the switcher needs:
//! its settings ([`config`]), the protocol between its processes
//! ([`daemon`]), the list of windows with its selection ([`delegate`]),
//! the measures of the picker ([`layout`]), the picker's decisions
//! ([`picker`]), the computing parts of the platform backends
//! ([`platform`]) and shared operations on text ([`text`]).
//!
//! Nothing here reads a clock, a file or the screen. Times, positions and
//! bytes come in as plain values, and what is to be done goes out as
//! plain values.

pub mod config;
pub mod daemon;
pub mod delegate;
pub mod layout;
pub mod monitor;
pub mod picker;
pub mod platform;
pub mod text;
