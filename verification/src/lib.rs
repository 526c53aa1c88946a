//! Coordination of named agents over a publish/subscribe bus.

pub mod agents;
pub mod bridge;
pub mod bus;
pub mod bus_laws;
pub mod camera;
pub mod classifier;
pub mod client;
pub mod cluster;
pub mod cluster_laws;
pub mod config;
pub mod events;
pub mod executor;
pub mod gui;
pub mod json;
pub mod message;
pub mod registry;
pub mod runtime;
pub mod session;
pub mod simple_app;
pub mod text;
pub mod tools;
pub mod wire;
pub mod wire_laws;
