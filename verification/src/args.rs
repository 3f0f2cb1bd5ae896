//! Command-line arguments, and what the program does first with them.

use vstd::prelude::*;

verus! {

/// The command-line arguments.
pub struct Args {
    /// Create the default configuration.
    pub create_config: bool,
    /// Create the minimal configuration.
    pub create_minimal_config: bool,
}

/// Which configuration file to write.
#[derive(Clone, Copy, Debug, PartialEq, Eq, Structural)]
pub enum ConfigTemplate {
    Default,
    Minimal,
}

/// What the program does on start.
#[derive(Clone, Copy, Debug, PartialEq, Eq, Structural)]
pub enum Startup {
    /// Ask whether to overwrite the configuration; when confirmed, write the
    /// given template. Then exit.
    WriteConfig(ConfigTemplate),
    /// Load the configuration and run the pipeline.
    Run,
}

impl Args {
    /// What the program does on start: writing a configuration file takes
    /// precedence over running, and the default template over the minimal
    /// one.
    pub fn startup(&self) -> (s: Startup)
        ensures
            self.create_config ==> s == Startup::WriteConfig(ConfigTemplate::Default),
            !self.create_config && self.create_minimal_config ==> s == Startup::WriteConfig(
                ConfigTemplate::Minimal,
            ),
            !self.create_config && !self.create_minimal_config ==> s == Startup::Run,
    {
        if self.create_config {
            Startup::WriteConfig(ConfigTemplate::Default)
        } else if self.create_minimal_config {
            Startup::WriteConfig(ConfigTemplate::Minimal)
        } else {
            Startup::Run
        }
    }
}

/// The pipeline runs only with at least one source and one destination.
pub fn can_run(sources: u32, destinations: u32) -> (b: bool)
    ensures
        b == (sources > 0 && destinations > 0),
{
    sources > 0 && destinations > 0
}

} // verus!
