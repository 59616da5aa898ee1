//! Client side of the Model Context Protocol: how a context server is
//! configured, started and stopped, and how messages travel to it over HTTP.

pub mod command;
pub mod config;
pub mod environment;
pub mod error;
pub mod exchange;
pub mod flow;
pub mod json;
pub mod laws;
pub mod rpc;
pub mod server;
pub mod sse;
pub mod startup;
pub mod text;
pub mod transport;
pub mod urls;
pub mod wire;
