//! Convert, the service that delivers verification messages to phones.

pub mod client;
pub mod config;
pub mod webhook;
