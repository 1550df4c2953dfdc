//! The values that the service sends and takes.

pub mod blocks;
pub mod database;
pub mod filters;
pub mod responses;
pub mod users;
