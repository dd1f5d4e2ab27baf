use dqcsim::error::{Error, ErrorKind};
use dqcsim::plugin::Plugin;
use dqcsim::protocol::{PluginToSimulator, SimulatorToPlugin};
use dqcsim::pipeline::PluginPipeline;
use dqcsim::simulation::{resolve_plugin_index, Simulation};
use dqcsim::wiring::connect;
use dqcsim::state::AcceleratorState;
use dqcsim::types::{ArbCmd, ArbData, PluginInitResponse, PluginMetadata, RunResponse};
use std::cell::RefCell;
use std::rc::Rc;

/// What the mock frontend's run function does with its argument.
#[derive(Clone, Copy, PartialEq)]
enum Run {
    /// Returns its argument at once.
    Identity,
    /// Returns its argument wrapped in a JSON list at once.
    Wrap,
    /// Returns `null` at once.
    Null,
    /// Waits for host messages forever.
    Never,
}

/// A request the mock saw: the start argument's JSON and the messages'
/// JSON.
type Seen = Rc<RefCell<Vec<(Option<String>, Vec<String>)>>>;

struct Mock {
    name: String,
    run: Run,
    /// Suffix appended to each message echoed back; `None` sends nothing.
    echo: Option<String>,
    fail_spawn: bool,
    fail_init: bool,
    fail_accept: bool,
    seen: Seen,
    events: Rc<RefCell<Vec<String>>>,
}

fn mock(name: &str) -> Mock {
    Mock {
        name: name.to_string(),
        run: Run::Identity,
        echo: None,
        fail_spawn: false,
        fail_init: false,
        fail_accept: false,
        seen: Rc::new(RefCell::new(Vec::new())),
        events: Rc::new(RefCell::new(Vec::new())),
    }
}

fn data(json: &str) -> ArbData {
    ArbData::from_json(json)
}

fn cmd() -> ArbCmd {
    ArbCmd::new("iface".to_string(), "oper".to_string(), data("{}"))
}

impl Plugin for Mock {
    fn name(&self) -> String {
        self.name.clone()
    }

    fn spawn(&mut self) -> Result<(), Error> {
        self.events.borrow_mut().push(format!("spawn {}", self.name));
        if self.fail_spawn {
            Err(Error::new(ErrorKind::PluginFailure, "cannot start"))
        } else {
            Ok(())
        }
    }

    fn init(&mut self, downstream: &Option<String>) -> Result<PluginInitResponse, Error> {
        self.events
            .borrow_mut()
            .push(format!("init {} {:?}", self.name, downstream));
        if self.fail_init {
            return Err(Error::new(ErrorKind::PluginFailure, "init failed"));
        }
        Ok(PluginInitResponse {
            metadata: PluginMetadata::new(
                format!("{}-impl", self.name),
                "someone".to_string(),
                "1.0".to_string(),
            ),
            upstream: Some(format!("ep-{}", self.name)),
        })
    }

    fn accept_upstream(&mut self) -> Result<(), Error> {
        self.events.borrow_mut().push(format!("accept {}", self.name));
        if self.fail_accept {
            Err(Error::new(ErrorKind::PluginFailure, "no connection"))
        } else {
            Ok(())
        }
    }

    fn rpc(&mut self, request: SimulatorToPlugin) -> Result<PluginToSimulator, Error> {
        match request {
            SimulatorToPlugin::RunRequest(req) => {
                self.seen.borrow_mut().push((
                    req.start.as_ref().map(|d| d.json.clone()),
                    req.messages.iter().map(|d| d.json.clone()).collect(),
                ));
                let messages = match &self.echo {
                    Some(suffix) => req
                        .messages
                        .iter()
                        .map(|d| {
                            if suffix.is_empty() {
                                d.clone()
                            } else {
                                data(&format!("{}{}", d.json.trim_end_matches('"'), suffix))
                            }
                        })
                        .collect(),
                    None => Vec::new(),
                };
                let return_value = match (req.start, self.run) {
                    (Some(a), Run::Identity) => Some(a),
                    (Some(a), Run::Wrap) => Some(data(&format!("[{}]", a.json))),
                    (Some(_), Run::Null) => Some(data("null")),
                    _ => None,
                };
                Ok(PluginToSimulator::RunResponse(RunResponse {
                    return_value,
                    messages,
                }))
            }
            SimulatorToPlugin::ArbRequest(_) => Ok(PluginToSimulator::ArbResponse(data(
                &format!("\"{}\"", self.name),
            ))),
        }
    }
}

fn pipeline(front: Mock, rest: &[&str]) -> Vec<Mock> {
    let mut v = vec![front];
    for n in rest {
        v.push(mock(n));
    }
    v
}

#[test]
fn construction_needs_two_plugins() {
    let r = Simulation::new(Vec::<Mock>::new(), 1);
    assert_eq!(r.err().unwrap().kind, ErrorKind::InvArg);
    let r = Simulation::new(vec![mock("front")], 1);
    assert_eq!(r.err().unwrap().kind, ErrorKind::InvArg);
    let r = Simulation::new(pipeline(mock("front"), &["back"]), 1);
    assert!(r.is_ok());
}

#[test]
fn wiring_is_back_to_front() {
    let events = Rc::new(RefCell::new(Vec::new()));
    let mut plugins = pipeline(mock("front"), &["op", "back"]);
    for p in plugins.iter_mut() {
        p.events = events.clone();
    }
    let sim = Simulation::new(plugins, 7).unwrap();
    assert_eq!(sim.seed(), 7);
    let got = events.borrow().clone();
    assert_eq!(
        got,
        vec![
            "spawn front".to_string(),
            "spawn op".to_string(),
            "spawn back".to_string(),
            "init back None".to_string(),
            "init op Some(\"ep-back\")".to_string(),
            "init front Some(\"ep-op\")".to_string(),
            "accept back".to_string(),
            "accept op".to_string(),
        ]
    );
}

#[test]
fn metadata_is_in_pipeline_order() {
    let sim = Simulation::new(pipeline(mock("front"), &["op", "back"]), 1).unwrap();
    assert_eq!(sim.get_metadata_idx(0).unwrap().get_name(), "front-impl");
    assert_eq!(sim.get_metadata_idx(1).unwrap().get_name(), "op-impl");
    assert_eq!(sim.get_metadata_idx(-1).unwrap().get_name(), "back-impl");
    assert_eq!(sim.get_metadata_idx(-3).unwrap().get_name(), "front-impl");
    assert_eq!(sim.get_metadata("op").unwrap().get_author(), "someone");
    assert_eq!(sim.get_metadata("back").unwrap().get_version(), "1.0");
    assert_eq!(sim.get_metadata_idx(3).err().unwrap().kind, ErrorKind::InvArg);
    assert_eq!(sim.get_metadata_idx(-4).err().unwrap().kind, ErrorKind::InvArg);
    assert_eq!(sim.get_metadata("nobody").err().unwrap().kind, ErrorKind::InvArg);
}

#[test]
fn echo_run() {
    let mut sim = Simulation::new(pipeline(mock("front"), &["back"]), 1).unwrap();
    sim.start(data("{\"x\":1}")).unwrap();
    let r = sim.wait().unwrap();
    assert_eq!(r.json, "{\"x\":1}");
    assert!(sim.accelerator_state().is_idle());
}

#[test]
fn two_message_ping_pong() {
    let mut front = mock("front");
    front.run = Run::Null;
    front.echo = Some("-echo\"".to_string());
    let mut sim = Simulation::new(pipeline(front, &["back"]), 1).unwrap();
    sim.send(data("\"a\"")).unwrap();
    sim.send(data("\"b\"")).unwrap();
    sim.start(data("null")).unwrap();
    assert_eq!(sim.recv().unwrap().json, "\"a-echo\"");
    assert_eq!(sim.recv().unwrap().json, "\"b-echo\"");
    assert_eq!(sim.wait().unwrap().json, "null");
}

#[test]
fn deadlock_on_wait() {
    let mut front = mock("front");
    front.run = Run::Never;
    let mut sim = Simulation::new(pipeline(front, &["back"]), 1).unwrap();
    sim.start(data("null")).unwrap();
    let e = sim.wait().err().unwrap();
    assert_eq!(e.kind, ErrorKind::Deadlock);
    assert!(sim.accelerator_state().is_blocked());
}

#[test]
fn deadlock_on_recv() {
    let mut sim = Simulation::new(pipeline(mock("front"), &["back"]), 1).unwrap();
    let e = sim.recv().err().unwrap();
    assert_eq!(e.kind, ErrorKind::Deadlock);
    assert!(sim.accelerator_state().is_idle());
}

#[test]
fn arb_by_negative_index() {
    let mut sim = Simulation::new(pipeline(mock("front"), &["op", "back"]), 1).unwrap();
    assert_eq!(sim.arb_idx(-1, cmd()).unwrap().json, "\"back\"");
    assert_eq!(sim.arb_idx(-2, cmd()).unwrap().json, "\"op\"");
    assert_eq!(sim.arb_idx(-4, cmd()).err().unwrap().kind, ErrorKind::InvArg);
    assert_eq!(sim.arb_idx(3, cmd()).err().unwrap().kind, ErrorKind::InvArg);
}

#[test]
fn arb_index_agrees_with_modulo() {
    let mut sim = Simulation::new(pipeline(mock("front"), &["op", "back"]), 1).unwrap();
    for i in -3isize..3 {
        let j = i.rem_euclid(3);
        let a = sim.arb_idx(i, cmd()).unwrap().json;
        let b = sim.arb_idx(j, cmd()).unwrap().json;
        assert_eq!(a, b);
    }
}

#[test]
fn arb_by_name() {
    let mut sim = Simulation::new(pipeline(mock("front"), &["op", "back"]), 1).unwrap();
    assert_eq!(sim.arb("op", cmd()).unwrap().json, "\"op\"");
    let e = sim.arb("missing", cmd()).err().unwrap();
    assert_eq!(e.kind, ErrorKind::InvArg);
    assert_eq!(e.message, "plugin missing not found");
}

#[test]
fn arb_flushes_pending_calls_first() {
    let front = mock("front");
    let seen = front.seen.clone();
    let mut sim = Simulation::new(pipeline(front, &["back"]), 1).unwrap();
    sim.send(data("1")).unwrap();
    sim.start(data("2")).unwrap();
    sim.arb_idx(1, cmd()).unwrap();
    let got = seen.borrow().clone();
    assert_eq!(got, vec![(Some("2".to_string()), vec!["1".to_string()])]);
    assert!(sim.accelerator_state().is_wait_pending());
}

#[test]
fn aggregated_init_failure() {
    let mut op1 = mock("op1");
    op1.fail_init = true;
    let mut op2 = mock("op2");
    op2.fail_init = true;
    let plugins = vec![mock("front"), op1, op2, mock("back")];
    let e = Simulation::new(plugins, 1).err().unwrap();
    assert_eq!(e.kind, ErrorKind::PluginFailure);
    assert!(e.message.contains("op1"));
    assert!(e.message.contains("op2"));
    assert_eq!(
        e.message,
        "Failed to initialize plugin(s): op2: init failed; op1: init failed"
    );
}

#[test]
fn aggregated_spawn_and_accept_failures() {
    let mut front = mock("front");
    front.fail_spawn = true;
    let mut back = mock("back");
    back.fail_spawn = true;
    let e = Simulation::new(vec![front, back], 1).err().unwrap();
    assert_eq!(e.kind, ErrorKind::PluginFailure);
    assert_eq!(
        e.message,
        "Failed to spawn plugin(s): front: cannot start; back: cannot start"
    );
    let mut back = mock("back");
    back.fail_accept = true;
    let e = Simulation::new(vec![mock("front"), back], 1).err().unwrap();
    assert_eq!(e.message, "Failed to initialize plugin(s): back: no connection");
}

#[test]
fn state_guard() {
    let mut front = mock("front");
    front.run = Run::Wrap;
    let mut sim = Simulation::new(pipeline(front, &["back"]), 1).unwrap();
    sim.start(data("1")).unwrap();
    let e = sim.start(data("2")).err().unwrap();
    assert_eq!(e.kind, ErrorKind::InvOp);
    assert_eq!(sim.wait().unwrap().json, "[1]");
}

#[test]
fn start_then_wait_applies_run_function() {
    let mut front = mock("front");
    front.run = Run::Wrap;
    let mut sim = Simulation::new(pipeline(front, &["back"]), 1).unwrap();
    sim.start(data("{\"y\":2}")).unwrap();
    assert_eq!(sim.wait().unwrap().json, "[{\"y\":2}]");
}

#[test]
fn send_then_recv_on_loopback() {
    let mut front = mock("front");
    front.echo = Some(String::new());
    let mut sim = Simulation::new(pipeline(front, &["back"]), 1).unwrap();
    sim.send(data("\"d\"")).unwrap();
    assert_eq!(sim.recv().unwrap().json, "\"d\"");
}

#[test]
fn recv_keeps_production_order() {
    let mut front = mock("front");
    front.echo = Some(String::new());
    let mut sim = Simulation::new(pipeline(front, &["back"]), 1).unwrap();
    for i in 0..5 {
        sim.send(data(&i.to_string())).unwrap();
    }
    for i in 0..5 {
        assert_eq!(sim.recv().unwrap().json, i.to_string());
    }
    assert_eq!(sim.recv().err().unwrap().kind, ErrorKind::Deadlock);
}

#[test]
fn request_carries_sends_in_order_and_start_once() {
    let mut front = mock("front");
    front.run = Run::Never;
    let seen = front.seen.clone();
    let mut sim = Simulation::new(pipeline(front, &["back"]), 1).unwrap();
    sim.send(data("1")).unwrap();
    sim.send(data("2")).unwrap();
    sim.start(data("s")).unwrap();
    sim.send(data("3")).unwrap();
    sim.yield_to_accelerator().unwrap();
    sim.send(data("4")).unwrap();
    sim.yield_to_accelerator().unwrap();
    let got = seen.borrow().clone();
    assert_eq!(
        got,
        vec![
            (
                Some("s".to_string()),
                vec!["1".to_string(), "2".to_string(), "3".to_string()]
            ),
            (None, vec!["4".to_string()]),
        ]
    );
}

#[test]
fn yield_twice_is_yield_once() {
    let mut front = mock("front");
    front.run = Run::Null;
    front.echo = Some(String::new());
    let seen = front.seen.clone();
    let mut sim = Simulation::new(pipeline(front, &["back"]), 1).unwrap();
    sim.send(data("1")).unwrap();
    sim.start(data("s")).unwrap();
    sim.yield_to_accelerator().unwrap();
    assert!(sim.accelerator_state().is_wait_pending());
    sim.yield_to_accelerator().unwrap();
    assert!(sim.accelerator_state().is_wait_pending());
    assert_eq!(seen.borrow()[1], (None, Vec::<String>::new()));
    assert_eq!(sim.recv().unwrap().json, "1");
    assert_eq!(sim.recv().err().unwrap().kind, ErrorKind::Deadlock);
    assert_eq!(sim.wait().unwrap().json, "null");
}

/// A frontend that reports a return value when no program runs.
struct Rogue;

impl Plugin for Rogue {
    fn name(&self) -> String {
        "rogue".to_string()
    }
    fn spawn(&mut self) -> Result<(), Error> {
        Ok(())
    }
    fn init(&mut self, _: &Option<String>) -> Result<PluginInitResponse, Error> {
        Ok(PluginInitResponse {
            metadata: PluginMetadata::new("r".to_string(), "a".to_string(), "v".to_string()),
            upstream: None,
        })
    }
    fn accept_upstream(&mut self) -> Result<(), Error> {
        Ok(())
    }
    fn rpc(&mut self, request: SimulatorToPlugin) -> Result<PluginToSimulator, Error> {
        match request {
            SimulatorToPlugin::RunRequest(_) => Ok(PluginToSimulator::RunResponse(RunResponse {
                return_value: Some(data("1")),
                messages: vec![data("m")],
            })),
            SimulatorToPlugin::ArbRequest(_) => Ok(PluginToSimulator::Success),
        }
    }
}

#[test]
fn unexpected_return_value_is_protocol_error() {
    let mut sim = Simulation::new(vec![Rogue, Rogue], 1).unwrap();
    let e = sim.yield_to_accelerator().err().unwrap();
    assert_eq!(e.kind, ErrorKind::Protocol);
    assert!(sim.accelerator_state().is_idle());
    assert_eq!(sim.recv().unwrap().json, "m");
    let e = sim.arb_idx(0, cmd()).err().unwrap();
    assert_eq!(e.kind, ErrorKind::Protocol);
}

#[test]
fn shut_down_simulation_refuses_work() {
    let mut sim = Simulation::new(pipeline(mock("front"), &["back"]), 1).unwrap();
    sim.drop_plugins();
    assert_eq!(sim.yield_to_accelerator().err().unwrap().kind, ErrorKind::InvOp);
    assert_eq!(sim.arb_idx(0, cmd()).err().unwrap().kind, ErrorKind::InvOp);
    assert_eq!(sim.get_metadata_idx(1).unwrap().get_name(), "back-impl");
}

#[test]
fn index_resolution() {
    assert_eq!(resolve_plugin_index(0, 3).unwrap(), 0);
    assert_eq!(resolve_plugin_index(2, 3).unwrap(), 2);
    assert_eq!(resolve_plugin_index(-1, 3).unwrap(), 2);
    assert_eq!(resolve_plugin_index(-3, 3).unwrap(), 0);
    assert_eq!(resolve_plugin_index(3, 3).err().unwrap().kind, ErrorKind::InvArg);
    assert_eq!(resolve_plugin_index(-4, 3).err().unwrap().kind, ErrorKind::InvArg);
    assert_eq!(resolve_plugin_index(isize::MIN, 3).err().unwrap().kind, ErrorKind::InvArg);
}

#[test]
fn state_put_and_take_follow_legal_edges() {
    let mut s = AcceleratorState::Idle;
    assert_eq!(s.take_data().err().unwrap().kind, ErrorKind::InvOp);
    s.put_data(data("a")).unwrap();
    assert!(s.is_start_pending());
    assert_eq!(s.put_data(data("b")).err().unwrap().kind, ErrorKind::InvOp);
    assert_eq!(s.take_data().unwrap().json, "a");
    assert!(s.is_blocked());
    assert_eq!(s.take_data().err().unwrap().kind, ErrorKind::InvOp);
    s.put_data(data("r")).unwrap();
    assert!(s.is_wait_pending());
    assert_eq!(s.put_data(data("x")).err().unwrap().kind, ErrorKind::InvOp);
    assert_eq!(s.take_data().unwrap().json, "r");
    assert!(s.is_idle());
    assert_eq!(AcceleratorState::WaitPending(data("z")).data().json, "z");
}

#[test]
fn connect_threads_endpoints_and_reverses_metadata() {
    let events = Rc::new(RefCell::new(Vec::new()));
    let mut plugins = pipeline(mock("front"), &["op", "back"]);
    for p in plugins.iter_mut() {
        p.events = events.clone();
    }
    let mut p = PluginPipeline::new(plugins);
    assert_eq!(p.count(), 3);
    assert_eq!(p.names_vec()[1], "op");
    let md = connect(&mut p).unwrap();
    let names: Vec<String> = md.iter().map(|m| m.name.clone()).collect();
    assert_eq!(names, vec!["front-impl", "op-impl", "back-impl"]);
    assert!(events.borrow().contains(&"init front Some(\"ep-op\")".to_string()));
    let mut failing = mock("back");
    failing.fail_init = true;
    let mut p = PluginPipeline::new(vec![mock("front"), failing]);
    let e = connect(&mut p).err().unwrap();
    assert_eq!(e.message, "Failed to initialize plugin(s): back: init failed");
    p.shut_down();
    assert_eq!(p.running(), 0);
    assert_eq!(p.count(), 2);
}

#[test]
fn unknown_name_or_index_touches_no_plugin() {
    let front = mock("front");
    let seen = front.seen.clone();
    let mut sim = Simulation::new(pipeline(front, &["back"]), 1).unwrap();
    sim.send(data("1")).unwrap();
    assert_eq!(sim.arb("nobody", cmd()).err().unwrap().kind, ErrorKind::InvArg);
    assert_eq!(sim.arb_idx(5, cmd()).err().unwrap().kind, ErrorKind::InvArg);
    assert!(seen.borrow().is_empty());
}
