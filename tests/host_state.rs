use dqcsim::error::{join_messages, Error, ErrorKind};
use dqcsim::host::HostState;
use dqcsim::protocol::{expect_arb_response, expect_run_response, PluginToSimulator};
use dqcsim::simulation::{aggregate_failures, failure_label, find_name};
use dqcsim::types::{ArbCmd, ArbData, RunResponse};

fn data(json: &str) -> ArbData {
    ArbData::from_json(json)
}

#[test]
fn request_takes_pending_start_and_all_sends() {
    let mut h = HostState::new();
    h.send(data("1"));
    h.send(data("2"));
    h.start(data("s")).unwrap();
    assert_eq!(h.pending_sends(), 2);
    let req = h.prepare_run_request();
    assert_eq!(req.start.unwrap().json, "s");
    let msgs: Vec<String> = req.messages.into_iter().map(|d| d.json).collect();
    assert_eq!(msgs, vec!["1".to_string(), "2".to_string()]);
    assert!(h.state().is_blocked());
    assert_eq!(h.pending_sends(), 0);
    let req = h.prepare_run_request();
    assert!(req.start.is_none());
    assert!(req.messages.is_empty());
}

#[test]
fn start_only_from_idle() {
    let mut h = HostState::new();
    h.start(data("a")).unwrap();
    let e = h.start(data("b")).err().unwrap();
    assert_eq!(e.kind, ErrorKind::InvOp);
    let req = h.prepare_run_request();
    assert_eq!(req.start.unwrap().json, "a");
    assert_eq!(h.start(data("c")).err().unwrap().kind, ErrorKind::InvOp);
}

#[test]
fn response_queues_messages_and_return_value() {
    let mut h = HostState::new();
    h.start(data("a")).unwrap();
    let _ = h.prepare_run_request();
    h.apply_run_response(RunResponse {
        return_value: Some(data("r")),
        messages: vec![data("x"), data("y")],
    })
    .unwrap();
    assert!(h.is_wait_pending());
    assert_eq!(h.pending_receives(), 2);
    assert_eq!(h.take_message().unwrap().json, "x");
    assert_eq!(h.take_message().unwrap().json, "y");
    assert_eq!(h.take_message().err().unwrap().kind, ErrorKind::Deadlock);
    assert_eq!(h.take_return_value().unwrap().json, "r");
    assert!(h.state().is_idle());
    assert_eq!(h.take_return_value().err().unwrap().kind, ErrorKind::Deadlock);
}

#[test]
fn return_value_outside_a_run_is_refused() {
    let mut h = HostState::new();
    let e = h
        .apply_run_response(RunResponse {
            return_value: Some(data("r")),
            messages: vec![data("x")],
        })
        .err()
        .unwrap();
    assert_eq!(e.kind, ErrorKind::Protocol);
    assert!(h.state().is_idle());
    assert_eq!(h.pending_receives(), 1);
}

#[test]
fn reply_variants_are_checked() {
    let ok = expect_run_response(PluginToSimulator::RunResponse(RunResponse {
        return_value: None,
        messages: vec![data("m")],
    }))
    .unwrap();
    assert_eq!(ok.messages[0].json, "m");
    let e = expect_run_response(PluginToSimulator::Success).err().unwrap();
    assert_eq!(e.kind, ErrorKind::Protocol);
    let e = expect_run_response(PluginToSimulator::ArbResponse(data("1")))
        .err()
        .unwrap();
    assert_eq!(e.kind, ErrorKind::Protocol);
    let e = expect_run_response(PluginToSimulator::Failure("boom".to_string()))
        .err()
        .unwrap();
    assert_eq!(e.kind, ErrorKind::PluginFailure);
    assert_eq!(e.message, "boom");
    assert_eq!(
        expect_arb_response(PluginToSimulator::ArbResponse(data("7")))
            .unwrap()
            .json,
        "7"
    );
    let e = expect_arb_response(PluginToSimulator::Success).err().unwrap();
    assert_eq!(e.kind, ErrorKind::Protocol);
}

#[test]
fn messages_join_with_semicolons() {
    assert_eq!(join_messages(&vec![]), "");
    assert_eq!(join_messages(&vec!["a".to_string()]), "a");
    assert_eq!(
        join_messages(&vec!["a".to_string(), "b".to_string(), "c".to_string()]),
        "a; b; c"
    );
    let e = Error::new(ErrorKind::PluginFailure, "broke");
    assert_eq!(failure_label(&"op1".to_string(), &e), "op1: broke");
    let agg = aggregate_failures("Failed: ", &vec!["x: 1".to_string(), "y: 2".to_string()]);
    assert_eq!(agg.kind, ErrorKind::PluginFailure);
    assert_eq!(agg.message, "Failed: x: 1; y: 2");
    assert_eq!(agg.to_string(), "Failed: x: 1; y: 2");
}

#[test]
fn names_are_found_first_match() {
    let names = vec!["a".to_string(), "b".to_string(), "b".to_string()];
    assert_eq!(find_name(&names, "a"), Some(0));
    assert_eq!(find_name(&names, "b"), Some(1));
    assert_eq!(find_name(&names, "c"), None);
}

#[test]
fn payload_and_command_constructors() {
    let d = ArbData::new("{\"k\":[1]}".to_string(), vec![vec![1, 2], vec![]]);
    assert_eq!(d.json, "{\"k\":[1]}");
    assert_eq!(d.args, vec![vec![1u8, 2], vec![]]);
    let c = ArbCmd::new("a".to_string(), "b".to_string(), d);
    assert_eq!(c.interface_identifier, "a");
    assert_eq!(c.operation_identifier, "b");
    assert_eq!(c.data.args.len(), 2);
}
