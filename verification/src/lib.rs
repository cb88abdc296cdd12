//! Decisions of a device's staged start-up: join a wireless network, wait for
//! the clock to be synchronized, fetch one resource and report it.
//!
//! The library decides; the program around it acts. It names one action at a
//! time, the program performs the action and hands back a reply, and the
//! library moves on.

pub mod clock;
pub mod config;
pub mod connectivity;
pub mod credentials;
pub mod fetch;
pub mod protocol;
pub mod sequencer;
