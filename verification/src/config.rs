//! The settings that are kept between runs.

use vstd::prelude::*;

verus! {

/// What the user has chosen: how often to sample, which families to show,
/// and which network interface.
#[derive(Debug, Clone)]
pub struct Config {
    /// The time between two samples, in milliseconds.
    pub refresh_rate: u64,
    pub show_cpu: bool,
    pub show_memory: bool,
    pub show_gpu: bool,
    pub show_network: bool,
    /// The interface whose throughput is shown, if one was chosen.
    pub selected_network_interface: Option<String>,
}

impl Default for Config {
    /// A sample each second, every family shown, no interface chosen.
    fn default() -> (r: Self)
        ensures
            r.refresh_rate == 1000,
            r.show_cpu,
            r.show_memory,
            r.show_gpu,
            r.show_network,
            r.selected_network_interface is None,
    {
        Config {
            refresh_rate: 1000,
            show_cpu: true,
            show_memory: true,
            show_gpu: true,
            show_network: true,
            selected_network_interface: None,
        }
    }
}

} // verus!
