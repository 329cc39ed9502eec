//! A small cache handle over a Redis server: commands are planned and
//! replies decoded here, the network round trips are made by the caller.

pub mod error;
pub mod client;
pub mod command;
pub mod reply;
pub mod exchange;
pub mod model;
pub mod laws;
