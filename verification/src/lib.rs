//! A Prometheus exporter for a Monzo account: the decisions, request
//! building and text rendering of the exporter, with their contracts.

pub mod text;
pub mod error;
pub mod config;
pub mod model;
pub mod clock;
pub mod tokens;
pub mod metric;
pub mod collector;
pub mod client;
pub mod routes;
