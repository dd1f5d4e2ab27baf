//! Values exchanged between the host, the plugins and the frontend.

use vstd::prelude::*;
use vstd::string::*;

verus! {

/// The role of a plugin in the pipeline.
#[derive(Clone, Copy, Debug, PartialEq, Eq, Structural)]
pub enum PluginType {
    Frontend,
    Operator,
    Backend,
}

/// User-defined payload: a JSON-like value, written out as text, and an
/// ordered sequence of binary arguments. The simulation core never looks
/// inside it.
#[derive(Clone, Debug)]
pub struct ArbData {
    pub json: String,
    pub args: Vec<Vec<u8>>,
}

impl ArbData {
    /// Builds a payload from its JSON text and binary arguments.
    pub fn new(json: String, args: Vec<Vec<u8>>) -> (r: ArbData)
        ensures
            r.json == json,
            r.args == args,
    {
        ArbData { json, args }
    }

    /// A payload holding the JSON text `json` and no binary arguments.
    pub fn from_json(json: &str) -> (r: ArbData)
        ensures
            r.json@ == json@,
            r.args@.len() == 0,
    {
        ArbData { json: String::from_str(json), args: Vec::new() }
    }
}

/// A side-channel command addressed to one plugin: an interface identifier,
/// an operation identifier and a payload.
#[derive(Clone, Debug)]
pub struct ArbCmd {
    pub interface_identifier: String,
    pub operation_identifier: String,
    pub data: ArbData,
}

impl ArbCmd {
    /// Builds a command.
    pub fn new(interface_identifier: String, operation_identifier: String, data: ArbData) -> (r:
        ArbCmd)
        ensures
            r.interface_identifier == interface_identifier,
            r.operation_identifier == operation_identifier,
            r.data == data,
    {
        ArbCmd { interface_identifier, operation_identifier, data }
    }
}

/// What a plugin reports about itself during initialization.
#[derive(Clone, Debug)]
pub struct PluginMetadata {
    pub name: String,
    pub author: String,
    pub version: String,
}

impl PluginMetadata {
    /// Builds a metadata record.
    pub fn new(name: String, author: String, version: String) -> (r: PluginMetadata)
        ensures
            r.name == name,
            r.author == author,
            r.version == version,
    {
        PluginMetadata { name, author, version }
    }

    /// The implementation name reported by the plugin.
    pub fn get_name(&self) -> (r: &String)
        ensures
            *r == self.name,
    {
        &self.name
    }

    /// The author reported by the plugin.
    pub fn get_author(&self) -> (r: &String)
        ensures
            *r == self.author,
    {
        &self.author
    }

    /// The version reported by the plugin.
    pub fn get_version(&self) -> (r: &String)
        ensures
            *r == self.version,
    {
        &self.version
    }
}

/// The request sent to the frontend on every yield: the argument of a
/// pending `start`, if any, and the messages queued by the host.
#[derive(Debug)]
pub struct FrontendRunRequest {
    pub start: Option<ArbData>,
    pub messages: Vec<ArbData>,
}

/// The frontend's answer to a [`FrontendRunRequest`]: the return value of
/// its run function, if that returned, and the messages it produced.
#[derive(Debug)]
pub struct RunResponse {
    pub return_value: Option<ArbData>,
    pub messages: Vec<ArbData>,
}

/// What a plugin's initialization yields: its metadata and the endpoint
/// that its upstream neighbour must connect to (`None` for the frontend).
#[derive(Debug)]
pub struct PluginInitResponse {
    pub metadata: PluginMetadata,
    pub upstream: Option<String>,
}

} // verus!
