//! What the household can rely on: properties of whole operations, each stated on
//! what goes in and what comes out.

pub mod basics;
pub mod events;
pub mod household;
pub mod jobs;
pub mod kitchen;
pub mod limits;
pub mod routes;
pub mod stages;
pub mod surfacing;
pub mod tasks;
pub mod terms;
pub mod views;
