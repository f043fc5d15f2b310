//! Orchestration of a headless page capture and the greeting command.

pub mod greeting;
pub mod encoding;
pub mod outcome;
pub mod session;
