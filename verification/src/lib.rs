//! Verified core of a smart-plug control bridge.
//!
//! Button presses arriving over a chat gateway and fixed wall-clock schedules
//! are both turned into short sequences of commands for one external
//! device-control tool. This crate holds the verified logic: credential
//! masking, command planning, fail-fast execution sessions, interaction
//! routing, control-surface rebuild planning, and the job table. The gateway
//! connection, the subprocess calls and the scheduler runtime live outside.

pub mod config;
pub mod text;
pub mod command;
pub mod transitions;
pub mod router;
pub mod surface;
pub mod schedule;
