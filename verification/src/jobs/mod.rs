//! The background jobs: what they ask for, in which order, and what they make
//! of the answers.

pub mod calendar_sync;
pub mod recurrence_horizon;
