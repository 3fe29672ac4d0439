//! Service composition for an inference server whose HTTP surface depends on
//! which model roles are configured.
//!
//! The command line is merged into the configuration, each configured role
//! is resolved to the backend to connect to, the services are brought up in
//! a fixed order, and the route table follows from the services that came
//! up: a capability without a backend is answered with a fixed status or
//! left out, and the server starts all the same.

pub mod cache;
pub mod config;
pub mod download;
pub mod routes;
pub mod serve;
pub mod services;
pub mod startup;
mod trusted;
