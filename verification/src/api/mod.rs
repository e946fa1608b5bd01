//! The endpoints: what each reads from a request, refuses, asks of storage and
//! answers.
//!
//! An endpoint is a few functions, called in turn. The first takes the request
//! and gives either a rejection or what is to be asked of storage; the ones
//! after it take what storage answered.

pub mod calendar;
pub mod event;
pub mod fields;
pub mod grocery;
pub mod inbox;
pub mod meal;
pub mod member;
pub mod pantry;
pub mod surfacing;
pub mod task;
