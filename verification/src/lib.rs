//! Household service: the rules behind the Amity HTTP API and its background jobs.

pub mod api;
pub mod dates;
pub mod feeds;
pub mod horizon;
pub mod ids;
pub mod jobs;
pub mod laws;
pub mod model;
pub mod reply;
pub mod routes;
pub mod text;
