//! Configuration of the connection to the API server.

pub mod incluster_config;
