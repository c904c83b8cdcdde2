//! Verified core of a Prometheus exporter for Verisure alarm systems.
pub mod config;
pub mod laws;
pub mod metrics;
pub mod scrape_laws;
pub mod server;
pub mod text;
pub mod verisure;
