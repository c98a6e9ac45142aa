//! The verified core of a small server that registers in-game computers
//! connecting over TCP, answers every poll with a script to evaluate, and
//! records each poll as a ping.

pub mod header;
pub mod models;
pub mod ping;
pub mod response;
pub mod script;
pub mod server;
