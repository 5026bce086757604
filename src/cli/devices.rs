//! Listing audio devices and their input configurations.
use vstd::prelude::*;

verus! {

/// Options of the device listing.
#[derive(Clone, Copy, Debug, PartialEq, Eq, Structural)]
pub struct DevicesCommand {
    /// List the input configurations of each device.
    pub configs: bool,
    /// List only configurations with at most this many channels.
    pub max_channels: Option<u16>,
    /// Let the audio host's own warnings through.
    pub host_warnings: bool,
}

impl DevicesCommand {
    /// Whether a configuration with `channels` channels is listed.
    pub fn lists_config(&self, channels: u16) -> (r: bool)
        ensures
            r == (self.max_channels is None || channels <= self.max_channels->0),
    {
        match self.max_channels {
            None => true,
            Some(max) => channels <= max,
        }
    }
}

} // verus!
