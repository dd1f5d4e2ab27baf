//! Requests the host sends to a plugin and the replies it accepts.

use vstd::prelude::*;
use vstd::string::*;
use crate::error::{Error, ErrorKind};
use crate::types::{ArbCmd, ArbData, FrontendRunRequest, RunResponse};

verus! {

/// A request from the simulator to a plugin.
#[derive(Debug)]
pub enum SimulatorToPlugin {
    /// Run request, sent to the frontend on every yield.
    RunRequest(FrontendRunRequest),
    /// Side-channel command addressed to one plugin.
    ArbRequest(ArbCmd),
}

/// A reply from a plugin to the simulator.
#[derive(Debug)]
pub enum PluginToSimulator {
    /// The request was handled and there is nothing to return.
    Success,
    /// The plugin failed to handle the request.
    Failure(String),
    /// Reply to a run request.
    RunResponse(RunResponse),
    /// Reply to a side-channel command.
    ArbResponse(ArbData),
}

/// Requires the reply to a run request to be a `RunResponse`. A `Failure`
/// reply becomes a `PluginFailure` error with the plugin's message; any
/// other variant is a protocol error.
pub fn expect_run_response(reply: PluginToSimulator) -> (r: Result<RunResponse, Error>)
    ensures
        reply is RunResponse <==> r is Ok,
        reply is RunResponse ==> r == Ok::<RunResponse, Error>(reply->RunResponse_0),
        reply is Failure ==> r is Err && r->Err_0.kind == ErrorKind::PluginFailure
            && r->Err_0.message == reply->Failure_0,
        (reply is Success || reply is ArbResponse) ==> r is Err && r->Err_0.kind
            == ErrorKind::Protocol,
{
    match reply {
        PluginToSimulator::RunResponse(x) => Ok(x),
        PluginToSimulator::Failure(message) => Err(Error { kind: ErrorKind::PluginFailure, message }),
        _ => Err(Error::new(ErrorKind::Protocol, "Protocol error: expected a run response")),
    }
}

/// Requires the reply to a side-channel command to be an `ArbResponse`. A
/// `Failure` reply becomes a `PluginFailure` error with the plugin's
/// message; any other variant is a protocol error.
pub fn expect_arb_response(reply: PluginToSimulator) -> (r: Result<ArbData, Error>)
    ensures
        reply is ArbResponse <==> r is Ok,
        reply is ArbResponse ==> r == Ok::<ArbData, Error>(reply->ArbResponse_0),
        reply is Failure ==> r is Err && r->Err_0.kind == ErrorKind::PluginFailure
            && r->Err_0.message == reply->Failure_0,
        (reply is Success || reply is RunResponse) ==> r is Err && r->Err_0.kind
            == ErrorKind::Protocol,
{
    match reply {
        PluginToSimulator::ArbResponse(x) => Ok(x),
        PluginToSimulator::Failure(message) => Err(Error { kind: ErrorKind::PluginFailure, message }),
        _ => Err(Error::new(ErrorKind::Protocol, "Protocol error: expected an ArbCmd response")),
    }
}

} // verus!
