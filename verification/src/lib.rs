//! Patch availability tracking and apply coordination for a game launcher.

pub mod channel;
pub mod config;
pub mod coordinator;
pub mod display;
pub mod general;
pub mod outcome;
pub mod status;
pub mod version;
