//! The household's data: what the endpoints read, check and write.

pub mod calendar;
pub mod event;
pub mod grocery;
pub mod inbox;
pub mod meal;
pub mod member;
pub mod pantry;
pub mod task;
