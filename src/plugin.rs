//! The interface through which the simulation drives one plugin.

use vstd::prelude::*;
use crate::error::Error;
use crate::protocol::{PluginToSimulator, SimulatorToPlugin};
use crate::types::PluginInitResponse;

verus! {

/// One plugin of the pipeline: a process or an in-process worker with a
/// typed request/response channel to the simulator.
///
/// Nothing is assumed of what an implementation returns: the simulation
/// states what holds of its own state whatever came back.
pub trait Plugin {
    /// The instance name given to the plugin by the configuration.
    fn name(&self) -> String;

    /// Launches the plugin and sets up the channel to it.
    fn spawn(&mut self) -> Result<(), Error>;

    /// Initializes the plugin, telling it the endpoint of its downstream
    /// neighbour (`None` for the backend). Returns its metadata and the
    /// endpoint its upstream neighbour must connect to.
    fn init(&mut self, downstream: &Option<String>) -> Result<PluginInitResponse, Error>;

    /// Blocks until the upstream neighbour has connected.
    fn accept_upstream(&mut self) -> Result<(), Error>;

    /// Sends one request and returns the plugin's reply.
    fn rpc(&mut self, request: SimulatorToPlugin) -> Result<PluginToSimulator, Error>;
}

} // verus!
