//! Host-side tool configuration.
//!
//! Every field is optional; reading the file, the environment and the TOML
//! text happens outside this crate, which only sees the resulting plain
//! values and supplies the defaults.

use vstd::prelude::*;

verus! {

/// Configuration for the host tool that attaches to the debug probe.
#[derive(Clone, Debug)]
pub struct HostConfig {
    /// Probe selector, e.g. a `vid:pid` or `vid:pid:serial` triple.
    pub probe: Option<String>,
    /// Target chip name.
    pub chip: Option<String>,
    /// Path to the device ELF image holding the log table.
    pub elf: Option<String>,
    /// Whether to stream the device's log channel (default: true).
    pub stream_defmt: Option<bool>,
    /// Whether to stream the device's data channel (default: true).
    pub stream_ergot: Option<bool>,
}

impl Default for HostConfig {
    /// A configuration with nothing set: every choice falls back to its
    /// default.
    fn default() -> (r: Self)
        ensures
            r.probe is None,
            r.chip is None,
            r.elf is None,
            r.stream_defmt is None,
            r.stream_ergot is None,
    {
        Self { probe: None, chip: None, elf: None, stream_defmt: None, stream_ergot: None }
    }
}

impl HostConfig {
    /// Whether to stream the device's log channel; on by default.
    pub fn stream_defmt(&self) -> (r: bool)
        ensures
            self.stream_defmt is Some ==> r == self.stream_defmt->0,
            self.stream_defmt is None ==> r,
    {
        match self.stream_defmt {
            Some(b) => b,
            None => true,
        }
    }

    /// Whether to stream the device's data channel; on by default.
    pub fn stream_ergot(&self) -> (r: bool)
        ensures
            self.stream_ergot is Some ==> r == self.stream_ergot->0,
            self.stream_ergot is None ==> r,
    {
        match self.stream_ergot {
            Some(b) => b,
            None => true,
        }
    }
}

} // verus!
