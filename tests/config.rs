use dqcsim::configuration::{LogCallback, PluginConfiguration, SimulatorConfiguration, TeeFile};
use dqcsim::ctypes::{dqcs_bool_return_t, dqcs_loglevel_t, dqcs_plugin_type_t, dqcs_return_t};
use dqcsim::error::ErrorKind;
use dqcsim::log::{parse_capture_mode, Loglevel, LoglevelFilter, StreamCaptureMode};
use dqcsim::types::PluginType;

fn plugin(name: &str, verbosity: LoglevelFilter) -> PluginConfiguration {
    PluginConfiguration {
        name: name.to_string(),
        verbosity,
    }
}

#[test]
fn default_configuration() {
    let c = SimulatorConfiguration::default();
    assert_eq!(c.stderr_level, LoglevelFilter::Info);
    assert_eq!(c.dqcsim_level, LoglevelFilter::Info);
    assert!(c.tee_files.is_empty());
    assert!(c.log_callback.is_none());
    assert!(c.plugins.is_empty());
}

#[test]
fn sources_are_clamped_to_loudest_sink() {
    let mut c = SimulatorConfiguration::default();
    c.stderr_level = LoglevelFilter::Warn;
    c.dqcsim_level = LoglevelFilter::Trace;
    c.tee_files = vec![TeeFile {
        filter: LoglevelFilter::Info,
        filename: "log.txt".to_string(),
    }];
    c.plugins = vec![
        plugin("a", LoglevelFilter::Trace),
        plugin("b", LoglevelFilter::Error),
    ];
    c.optimize_loglevels();
    assert_eq!(c.dqcsim_level, LoglevelFilter::Info);
    assert_eq!(c.plugins[0].verbosity, LoglevelFilter::Info);
    assert_eq!(c.plugins[1].verbosity, LoglevelFilter::Error);
    assert_eq!(c.plugins[0].name, "a");

    c.log_callback = Some(LogCallback {
        filter: LoglevelFilter::Debug,
    });
    c.dqcsim_level = LoglevelFilter::Trace;
    c.optimize_loglevels();
    assert_eq!(c.dqcsim_level, LoglevelFilter::Debug);
    assert_eq!(c.stderr_level, LoglevelFilter::Warn);
}

#[test]
fn loglevel_conversions() {
    assert_eq!(
        dqcs_loglevel_t::DQCS_LOG_INFO.into_loglevel().unwrap(),
        Loglevel::Info
    );
    assert_eq!(
        dqcs_loglevel_t::DQCS_LOG_OFF.into_loglevel().err().unwrap().kind,
        ErrorKind::InvArg
    );
    assert_eq!(
        dqcs_loglevel_t::DQCS_LOG_PASS.into_loglevel().err().unwrap().kind,
        ErrorKind::InvArg
    );
    assert_eq!(
        dqcs_loglevel_t::DQCS_LOG_TRACE.into_loglevel_filter().unwrap(),
        LoglevelFilter::Trace
    );
    assert_eq!(
        dqcs_loglevel_t::DQCS_LOG_OFF.into_loglevel_filter().unwrap(),
        LoglevelFilter::Off
    );
    assert_eq!(
        dqcs_loglevel_t::DQCS_LOG_INVALID.into_loglevel_filter().unwrap(),
        LoglevelFilter::Off
    );
    assert_eq!(
        dqcs_loglevel_t::DQCS_LOG_PASS
            .into_loglevel_filter()
            .err()
            .unwrap()
            .kind,
        ErrorKind::InvArg
    );
    assert_eq!(
        dqcs_loglevel_t::from(StreamCaptureMode::Pass),
        dqcs_loglevel_t::DQCS_LOG_PASS
    );
    assert_eq!(
        dqcs_loglevel_t::from(StreamCaptureMode::Null),
        dqcs_loglevel_t::DQCS_LOG_OFF
    );
    assert_eq!(
        dqcs_loglevel_t::from(StreamCaptureMode::Capture(Loglevel::Note)),
        dqcs_loglevel_t::DQCS_LOG_NOTE
    );
    assert_eq!(
        dqcs_loglevel_t::from(LoglevelFilter::Off),
        dqcs_loglevel_t::DQCS_LOG_OFF
    );
    assert_eq!(
        dqcs_loglevel_t::from(Loglevel::Fatal),
        dqcs_loglevel_t::DQCS_LOG_FATAL
    );
    let m: StreamCaptureMode = dqcs_loglevel_t::DQCS_LOG_WARN.into();
    assert_eq!(m, StreamCaptureMode::Capture(Loglevel::Warn));
    assert_eq!(LoglevelFilter::from(Loglevel::Debug), LoglevelFilter::Debug);
    assert_eq!(LoglevelFilter::Off.verbosity(), 0);
    assert_eq!(LoglevelFilter::Trace.verbosity(), 7);
}

#[test]
fn plugin_type_conversions() {
    assert_eq!(
        dqcs_plugin_type_t::from(PluginType::Operator),
        dqcs_plugin_type_t::DQCS_PTYPE_OPER
    );
    assert_eq!(
        dqcs_plugin_type_t::DQCS_PTYPE_BACK.into_plugin_type().unwrap(),
        PluginType::Backend
    );
    assert_eq!(
        dqcs_plugin_type_t::DQCS_PTYPE_INVALID
            .into_plugin_type()
            .err()
            .unwrap()
            .kind,
        ErrorKind::InvArg
    );
}

#[test]
fn return_codes() {
    assert_eq!(dqcs_return_t::DQCS_FAILURE.value(), -1);
    assert_eq!(dqcs_return_t::DQCS_SUCCESS.value(), 0);
    assert_eq!(dqcs_bool_return_t::from(true), dqcs_bool_return_t::DQCS_TRUE);
    assert_eq!(dqcs_bool_return_t::from(false).value(), 0);
    assert_eq!(dqcs_bool_return_t::DQCS_TRUE.value(), 1);
    assert_eq!(dqcs_bool_return_t::DQCS_BOOL_FAILURE.value(), -1);
}

#[test]
fn capture_modes_parse_by_unique_prefix() {
    assert_eq!(parse_capture_mode("pass").unwrap(), StreamCaptureMode::Pass);
    assert_eq!(parse_capture_mode("NULL").unwrap(), StreamCaptureMode::Null);
    assert_eq!(
        parse_capture_mode("Tr").unwrap(),
        StreamCaptureMode::Capture(Loglevel::Trace)
    );
    assert_eq!(
        parse_capture_mode("w").unwrap(),
        StreamCaptureMode::Capture(Loglevel::Warn)
    );
    assert_eq!(
        "info".parse::<StreamCaptureMode>().unwrap(),
        StreamCaptureMode::Capture(Loglevel::Info)
    );
    assert_eq!(
        parse_capture_mode("n").err().unwrap().kind,
        ErrorKind::InvArg
    );
    assert_eq!(parse_capture_mode("").err().unwrap().kind, ErrorKind::InvArg);
    assert_eq!(
        parse_capture_mode("passes").err().unwrap().kind,
        ErrorKind::InvArg
    );
    assert_eq!(
        parse_capture_mode("xyz").err().unwrap().kind,
        ErrorKind::InvArg
    );
}
