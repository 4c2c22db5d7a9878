//! Audio ducking engine for a USB-attached mixer.
//!
//! When a trigger source (currently the microphone) is active, the engine
//! walks a configurable table of volume steps to fade the affected routing
//! cells down ("ducking"), and walks a second table to fade them back up
//! once the trigger clears ("unducking").  A simulated noise gate with
//! attack/release ballistics turns raw level readings into the boolean
//! trigger signal.
//!
//! The engine itself is synchronous and free of I/O: each call of
//! [`ducker::AudioDucker::on_tick`] consumes the level reading that the
//! caller obtained from the hardware and returns the routing writes that
//! the caller must push back to it.  Decibel values are carried as signed
//! integers in tenths of a decibel, so `-722` stands for `-72.2 dB`.

pub mod calculator;
pub mod channels;
pub mod config;
pub mod ducker;
pub mod gate;
pub mod laws;
pub mod routing;
