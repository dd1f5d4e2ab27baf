//! Enumerations shared with the C interface, and their conversions.

#![allow(non_camel_case_types)]

use vstd::prelude::*;
use crate::error::{Error, ErrorKind};
use crate::log::{Loglevel, LoglevelFilter, StreamCaptureMode, filter_of};
use crate::types::PluginType;

verus! {

/// The kinds of object a handle can refer to.
#[derive(Clone, Copy, Debug, PartialEq, Eq, Structural)]
pub enum dqcs_handle_type_t {
    /// The handle is invalid, unused, or its object was deleted.
    DQCS_HTYPE_INVALID,
    /// An `ArbData` object.
    DQCS_HTYPE_ARB_DATA,
    /// An `ArbCmd` object.
    DQCS_HTYPE_ARB_CMD,
    /// A gate.
    DQCS_HTYPE_GATE,
    /// A frontend plugin configuration.
    DQCS_HTYPE_FRONT_CONFIG,
    /// An operator plugin configuration.
    DQCS_HTYPE_OPER_CONFIG,
    /// A backend plugin configuration.
    DQCS_HTYPE_BACK_CONFIG,
    /// A simulator configuration.
    DQCS_HTYPE_SIM_CONFIG,
}

/// The three plugin types, and a value for failure.
#[derive(Clone, Copy, Debug, PartialEq, Eq, Structural)]
pub enum dqcs_plugin_type_t {
    /// Reports the failure of a call that returns a plugin type.
    DQCS_PTYPE_INVALID,
    DQCS_PTYPE_FRONT,
    DQCS_PTYPE_OPER,
    DQCS_PTYPE_BACK,
}

/// The C value of each plugin type.
pub open spec fn plugin_type_c(t: PluginType) -> dqcs_plugin_type_t {
    match t {
        PluginType::Frontend => dqcs_plugin_type_t::DQCS_PTYPE_FRONT,
        PluginType::Operator => dqcs_plugin_type_t::DQCS_PTYPE_OPER,
        PluginType::Backend => dqcs_plugin_type_t::DQCS_PTYPE_BACK,
    }
}

impl From<PluginType> for dqcs_plugin_type_t {
    fn from(x: PluginType) -> (r: dqcs_plugin_type_t) {
        match x {
            PluginType::Frontend => dqcs_plugin_type_t::DQCS_PTYPE_FRONT,
            PluginType::Operator => dqcs_plugin_type_t::DQCS_PTYPE_OPER,
            PluginType::Backend => dqcs_plugin_type_t::DQCS_PTYPE_BACK,
        }
    }
}

impl vstd::std_specs::convert::FromSpecImpl<PluginType> for dqcs_plugin_type_t {
    open spec fn obeys_from_spec() -> bool {
        true
    }

    open spec fn from_spec(x: PluginType) -> dqcs_plugin_type_t {
        plugin_type_c(x)
    }
}

impl dqcs_plugin_type_t {
    /// The plugin type this value stands for; the invalid value is refused
    /// with `InvArg`.
    pub fn into_plugin_type(self) -> (r: Result<PluginType, Error>)
        ensures
            r matches Ok(t) ==> plugin_type_c(t) == self,
            r is Err <==> self == dqcs_plugin_type_t::DQCS_PTYPE_INVALID,
            r is Err ==> r->Err_0.kind == ErrorKind::InvArg,
    {
        match self {
            dqcs_plugin_type_t::DQCS_PTYPE_FRONT => Ok(PluginType::Frontend),
            dqcs_plugin_type_t::DQCS_PTYPE_OPER => Ok(PluginType::Operator),
            dqcs_plugin_type_t::DQCS_PTYPE_BACK => Ok(PluginType::Backend),
            dqcs_plugin_type_t::DQCS_PTYPE_INVALID => Err(
                Error::new(ErrorKind::InvArg, "invalid plugin type"),
            ),
        }
    }
}

/// Log levels and stream capture modes as the C interface writes them.
#[derive(Clone, Copy, Debug, PartialEq, Eq, Structural)]
pub enum dqcs_loglevel_t {
    /// Reports the failure of a call that returns a log level.
    DQCS_LOG_INVALID,
    /// Logging off, or a stream discarded.
    DQCS_LOG_OFF,
    DQCS_LOG_FATAL,
    DQCS_LOG_ERROR,
    DQCS_LOG_WARN,
    DQCS_LOG_NOTE,
    DQCS_LOG_INFO,
    DQCS_LOG_DEBUG,
    DQCS_LOG_TRACE,
    /// A stream passed through uncaptured.
    DQCS_LOG_PASS,
}

/// The C value of each log level.
pub open spec fn loglevel_c(l: Loglevel) -> dqcs_loglevel_t {
    match l {
        Loglevel::Fatal => dqcs_loglevel_t::DQCS_LOG_FATAL,
        Loglevel::Error => dqcs_loglevel_t::DQCS_LOG_ERROR,
        Loglevel::Warn => dqcs_loglevel_t::DQCS_LOG_WARN,
        Loglevel::Note => dqcs_loglevel_t::DQCS_LOG_NOTE,
        Loglevel::Info => dqcs_loglevel_t::DQCS_LOG_INFO,
        Loglevel::Debug => dqcs_loglevel_t::DQCS_LOG_DEBUG,
        Loglevel::Trace => dqcs_loglevel_t::DQCS_LOG_TRACE,
    }
}

/// The C value of each stream capture mode.
pub open spec fn capture_mode_c(m: StreamCaptureMode) -> dqcs_loglevel_t {
    match m {
        StreamCaptureMode::Pass => dqcs_loglevel_t::DQCS_LOG_PASS,
        StreamCaptureMode::Null => dqcs_loglevel_t::DQCS_LOG_OFF,
        StreamCaptureMode::Capture(l) => loglevel_c(l),
    }
}

/// The stream capture mode a C value stands for; the invalid value is read
/// as `Null`.
pub open spec fn capture_mode_of(x: dqcs_loglevel_t) -> StreamCaptureMode {
    match x {
        dqcs_loglevel_t::DQCS_LOG_INVALID => StreamCaptureMode::Null,
        dqcs_loglevel_t::DQCS_LOG_OFF => StreamCaptureMode::Null,
        dqcs_loglevel_t::DQCS_LOG_FATAL => StreamCaptureMode::Capture(Loglevel::Fatal),
        dqcs_loglevel_t::DQCS_LOG_ERROR => StreamCaptureMode::Capture(Loglevel::Error),
        dqcs_loglevel_t::DQCS_LOG_WARN => StreamCaptureMode::Capture(Loglevel::Warn),
        dqcs_loglevel_t::DQCS_LOG_NOTE => StreamCaptureMode::Capture(Loglevel::Note),
        dqcs_loglevel_t::DQCS_LOG_INFO => StreamCaptureMode::Capture(Loglevel::Info),
        dqcs_loglevel_t::DQCS_LOG_DEBUG => StreamCaptureMode::Capture(Loglevel::Debug),
        dqcs_loglevel_t::DQCS_LOG_TRACE => StreamCaptureMode::Capture(Loglevel::Trace),
        dqcs_loglevel_t::DQCS_LOG_PASS => StreamCaptureMode::Pass,
    }
}

/// The C value of each log level filter.
pub open spec fn filter_c(f: LoglevelFilter) -> dqcs_loglevel_t {
    match f {
        LoglevelFilter::Off => dqcs_loglevel_t::DQCS_LOG_OFF,
        LoglevelFilter::Fatal => dqcs_loglevel_t::DQCS_LOG_FATAL,
        LoglevelFilter::Error => dqcs_loglevel_t::DQCS_LOG_ERROR,
        LoglevelFilter::Warn => dqcs_loglevel_t::DQCS_LOG_WARN,
        LoglevelFilter::Note => dqcs_loglevel_t::DQCS_LOG_NOTE,
        LoglevelFilter::Info => dqcs_loglevel_t::DQCS_LOG_INFO,
        LoglevelFilter::Debug => dqcs_loglevel_t::DQCS_LOG_DEBUG,
        LoglevelFilter::Trace => dqcs_loglevel_t::DQCS_LOG_TRACE,
    }
}

impl From<Loglevel> for dqcs_loglevel_t {
    fn from(x: Loglevel) -> (r: dqcs_loglevel_t) {
        match x {
            Loglevel::Fatal => dqcs_loglevel_t::DQCS_LOG_FATAL,
            Loglevel::Error => dqcs_loglevel_t::DQCS_LOG_ERROR,
            Loglevel::Warn => dqcs_loglevel_t::DQCS_LOG_WARN,
            Loglevel::Note => dqcs_loglevel_t::DQCS_LOG_NOTE,
            Loglevel::Info => dqcs_loglevel_t::DQCS_LOG_INFO,
            Loglevel::Debug => dqcs_loglevel_t::DQCS_LOG_DEBUG,
            Loglevel::Trace => dqcs_loglevel_t::DQCS_LOG_TRACE,
        }
    }
}

impl vstd::std_specs::convert::FromSpecImpl<Loglevel> for dqcs_loglevel_t {
    open spec fn obeys_from_spec() -> bool {
        true
    }

    open spec fn from_spec(x: Loglevel) -> dqcs_loglevel_t {
        loglevel_c(x)
    }
}

impl From<StreamCaptureMode> for dqcs_loglevel_t {
    fn from(x: StreamCaptureMode) -> (r: dqcs_loglevel_t) {
        match x {
            StreamCaptureMode::Pass => dqcs_loglevel_t::DQCS_LOG_PASS,
            StreamCaptureMode::Null => dqcs_loglevel_t::DQCS_LOG_OFF,
            StreamCaptureMode::Capture(loglevel) => dqcs_loglevel_t::from(loglevel),
        }
    }
}

impl vstd::std_specs::convert::FromSpecImpl<StreamCaptureMode> for dqcs_loglevel_t {
    open spec fn obeys_from_spec() -> bool {
        true
    }

    open spec fn from_spec(x: StreamCaptureMode) -> dqcs_loglevel_t {
        capture_mode_c(x)
    }
}

impl From<LoglevelFilter> for dqcs_loglevel_t {
    fn from(x: LoglevelFilter) -> (r: dqcs_loglevel_t) {
        match x {
            LoglevelFilter::Off => dqcs_loglevel_t::DQCS_LOG_OFF,
            LoglevelFilter::Fatal => dqcs_loglevel_t::DQCS_LOG_FATAL,
            LoglevelFilter::Error => dqcs_loglevel_t::DQCS_LOG_ERROR,
            LoglevelFilter::Warn => dqcs_loglevel_t::DQCS_LOG_WARN,
            LoglevelFilter::Note => dqcs_loglevel_t::DQCS_LOG_NOTE,
            LoglevelFilter::Info => dqcs_loglevel_t::DQCS_LOG_INFO,
            LoglevelFilter::Debug => dqcs_loglevel_t::DQCS_LOG_DEBUG,
            LoglevelFilter::Trace => dqcs_loglevel_t::DQCS_LOG_TRACE,
        }
    }
}

impl vstd::std_specs::convert::FromSpecImpl<LoglevelFilter> for dqcs_loglevel_t {
    open spec fn obeys_from_spec() -> bool {
        true
    }

    open spec fn from_spec(x: LoglevelFilter) -> dqcs_loglevel_t {
        filter_c(x)
    }
}

impl From<dqcs_loglevel_t> for StreamCaptureMode {
    fn from(x: dqcs_loglevel_t) -> (r: StreamCaptureMode) {
        match x {
            dqcs_loglevel_t::DQCS_LOG_INVALID => StreamCaptureMode::Null,
            dqcs_loglevel_t::DQCS_LOG_OFF => StreamCaptureMode::Null,
            dqcs_loglevel_t::DQCS_LOG_FATAL => StreamCaptureMode::Capture(Loglevel::Fatal),
            dqcs_loglevel_t::DQCS_LOG_ERROR => StreamCaptureMode::Capture(Loglevel::Error),
            dqcs_loglevel_t::DQCS_LOG_WARN => StreamCaptureMode::Capture(Loglevel::Warn),
            dqcs_loglevel_t::DQCS_LOG_NOTE => StreamCaptureMode::Capture(Loglevel::Note),
            dqcs_loglevel_t::DQCS_LOG_INFO => StreamCaptureMode::Capture(Loglevel::Info),
            dqcs_loglevel_t::DQCS_LOG_DEBUG => StreamCaptureMode::Capture(Loglevel::Debug),
            dqcs_loglevel_t::DQCS_LOG_TRACE => StreamCaptureMode::Capture(Loglevel::Trace),
            dqcs_loglevel_t::DQCS_LOG_PASS => StreamCaptureMode::Pass,
        }
    }
}

impl vstd::std_specs::convert::FromSpecImpl<dqcs_loglevel_t> for StreamCaptureMode {
    open spec fn obeys_from_spec() -> bool {
        true
    }

    open spec fn from_spec(x: dqcs_loglevel_t) -> StreamCaptureMode {
        capture_mode_of(x)
    }
}

impl dqcs_loglevel_t {
    /// The log level this value stands for. Only the seven message levels
    /// are log levels; anything else is `InvArg`.
    pub fn into_loglevel(self) -> (r: Result<Loglevel, Error>)
        ensures
            capture_mode_of(self) matches StreamCaptureMode::Capture(l) ==> r == Ok::<
                Loglevel,
                Error,
            >(l),
            !(capture_mode_of(self) is Capture) ==> r is Err && r->Err_0.kind == ErrorKind::InvArg,
    {
        match StreamCaptureMode::from(self) {
            StreamCaptureMode::Capture(level) => Ok(level),
            _ => Err(Error::new(ErrorKind::InvArg, "invalid loglevel")),
        }
    }

    /// The log level filter this value stands for: a message level, or
    /// `Off` for the off and invalid values. `PASS` is `InvArg`.
    pub fn into_loglevel_filter(self) -> (r: Result<LoglevelFilter, Error>)
        ensures
            capture_mode_of(self) matches StreamCaptureMode::Capture(l) ==> r == Ok::<
                LoglevelFilter,
                Error,
            >(filter_of(l)),
            capture_mode_of(self) is Null ==> r == Ok::<LoglevelFilter, Error>(
                LoglevelFilter::Off,
            ),
            capture_mode_of(self) is Pass ==> r is Err && r->Err_0.kind == ErrorKind::InvArg,
    {
        match StreamCaptureMode::from(self) {
            StreamCaptureMode::Capture(level) => Ok(LoglevelFilter::from(level)),
            StreamCaptureMode::Null => Ok(LoglevelFilter::Off),
            StreamCaptureMode::Pass => Err(Error::new(ErrorKind::InvArg, "invalid loglevel filter")),
        }
    }
}

/// The sets of qubits associated with a gate.
#[derive(Clone, Copy, Debug, PartialEq, Eq, Structural)]
pub enum dqcs_qubit_set_type_t {
    /// The qubits that the matrix acts on.
    DQCS_TARGET,
    /// Additional control qubits, left out of the matrix.
    DQCS_CONTROL,
    /// The qubits whose measurement registers are affected.
    DQCS_MEASURE,
}

/// Return value of C calls that return nothing else.
#[derive(Clone, Copy, Debug, PartialEq, Eq, Structural)]
pub enum dqcs_return_t {
    DQCS_FAILURE,
    DQCS_SUCCESS,
}

impl dqcs_return_t {
    /// The integer returned at the C boundary: -1 for failure, 0 for
    /// success.
    pub fn value(self) -> (r: i32)
        ensures
            self is DQCS_FAILURE ==> r == -1,
            self is DQCS_SUCCESS ==> r == 0,
    {
        match self {
            dqcs_return_t::DQCS_FAILURE => -1,
            dqcs_return_t::DQCS_SUCCESS => 0,
        }
    }
}

/// Return value of C calls that return a boolean or fail.
#[derive(Clone, Copy, Debug, PartialEq, Eq, Structural)]
pub enum dqcs_bool_return_t {
    DQCS_BOOL_FAILURE,
    DQCS_FALSE,
    DQCS_TRUE,
}

impl From<bool> for dqcs_bool_return_t {
    fn from(b: bool) -> (r: dqcs_bool_return_t) {
        if b {
            dqcs_bool_return_t::DQCS_TRUE
        } else {
            dqcs_bool_return_t::DQCS_FALSE
        }
    }
}

impl vstd::std_specs::convert::FromSpecImpl<bool> for dqcs_bool_return_t {
    open spec fn obeys_from_spec() -> bool {
        true
    }

    open spec fn from_spec(b: bool) -> dqcs_bool_return_t {
        if b {
            dqcs_bool_return_t::DQCS_TRUE
        } else {
            dqcs_bool_return_t::DQCS_FALSE
        }
    }
}

impl dqcs_bool_return_t {
    /// The integer returned at the C boundary: -1 for failure, 0 for false
    /// and 1 for true.
    pub fn value(self) -> (r: i32)
        ensures
            self is DQCS_BOOL_FAILURE ==> r == -1,
            self is DQCS_FALSE ==> r == 0,
            self is DQCS_TRUE ==> r == 1,
    {
        match self {
            dqcs_bool_return_t::DQCS_BOOL_FAILURE => -1,
            dqcs_bool_return_t::DQCS_FALSE => 0,
            dqcs_bool_return_t::DQCS_TRUE => 1,
        }
    }
}

} // verus!
