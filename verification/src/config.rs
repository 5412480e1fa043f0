//! Process configuration: the results directory and whether it is cleaned
//! once at startup, with a builder mirroring how callers assemble it.

use vstd::prelude::*;

use crate::writer::DEFAULT_RESULTS_DIR;

verus! {

/// Configuration of the reporting runtime.
#[derive(Debug, Clone)]
pub struct AllureConfig {
    /// Directory where results are written.
    pub results_dir: String,
    /// Whether the results directory is recreated empty at startup.
    pub clean_results: bool,
}

impl Default for AllureConfig {
    /// The default configuration: the default results directory, cleaned at
    /// startup.
    fn default() -> (r: Self)
        ensures
            r.results_dir@ == DEFAULT_RESULTS_DIR@,
            r.clean_results,
    {
        AllureConfig {
            results_dir: String::from_str(DEFAULT_RESULTS_DIR),
            clean_results: true,
        }
    }
}

/// Builder for the runtime configuration.
#[derive(Debug)]
pub struct AllureConfigBuilder {
    /// The configuration under construction.
    pub config: AllureConfig,
}

impl AllureConfigBuilder {
    /// A builder holding the default configuration.
    pub fn new() -> (r: Self)
        ensures
            r.config.results_dir@ == DEFAULT_RESULTS_DIR@,
            r.config.clean_results,
    {
        AllureConfigBuilder { config: AllureConfig::default() }
    }

    /// Sets the results directory.
    pub fn results_dir(self, path: String) -> (r: Self)
        ensures
            r.config.results_dir == path,
            r.config.clean_results == self.config.clean_results,
    {
        let mut b = self;
        b.config.results_dir = path;
        b
    }

    /// Sets whether the results directory is cleaned at startup.
    pub fn clean_results(self, clean: bool) -> (r: Self)
        ensures
            r.config.clean_results == clean,
            r.config.results_dir == self.config.results_dir,
    {
        let mut b = self;
        b.config.clean_results = clean;
        b
    }
}

impl Default for AllureConfigBuilder {
    /// A builder holding the default configuration.
    fn default() -> (r: Self)
        ensures
            r.config.results_dir@ == DEFAULT_RESULTS_DIR@,
            r.config.clean_results,
    {
        AllureConfigBuilder::new()
    }
}

/// Starts configuring the runtime.
pub fn configure() -> (r: AllureConfigBuilder)
    ensures
        r.config.results_dir@ == DEFAULT_RESULTS_DIR@,
        r.config.clean_results,
{
    AllureConfigBuilder::new()
}

} // verus!
