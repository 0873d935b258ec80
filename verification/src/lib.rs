//! Control logic of a signal lamp: two addressable LED strips, a sound module,
//! a relay and a heartbeat LED, driven by two switch inputs.

pub mod action;
pub mod dfplayer;
pub mod gpio;
pub mod lamp;
pub mod laws;
pub mod progress;
pub mod step_laws;
pub mod tracks;
pub mod ws2815;
