//! Settings of the exporter.
use vstd::prelude::*;

verus! {

/// The exporter's settings, as given on the command line or in the
/// environment.
#[derive(Debug)]
pub struct Config {
    pub username: String,
    pub password: String,
    /// The installation to watch; found from the account when absent.
    pub giid: Option<String>,
    pub listen_address: String,
    pub metrics_path: String,
    /// Seconds between two scrapes.
    pub poll_interval: u64,
    /// The API endpoints, in the order in which they are tried.
    pub api_url: Vec<String>,
    pub log_level: String,
    /// Print the API schema of a few types and exit.
    pub api_introspection: bool,
}

} // verus!
