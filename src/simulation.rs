//! The simulation: a wired plugin pipeline driven from the host.

use vstd::prelude::*;
use vstd::string::*;
use crate::error::{Error, ErrorKind, join_messages, joined, views};
use crate::host::{
    HostState, HostView, after_request, after_send, after_start, kind_of, request_messages,
    request_start, response_accepted, take_message_outcome, take_return_outcome, yield_outcome,
    yield_result,
};
use crate::pipeline::{PluginCall, PluginPipeline};
use crate::plugin::Plugin;
use crate::wiring::{calls_since, connect, wiring_calls, wiring_outcome};
use crate::protocol::{PluginToSimulator, SimulatorToPlugin, expect_arb_response, expect_run_response};
use crate::state::AcceleratorState;
use crate::types::{ArbCmd, ArbData, PluginMetadata, RunResponse};

verus! {

/// The pipeline position that host index `index` addresses among `n`
/// plugins: `0..n` from the front, `-n..0` from the back, nothing otherwise.
pub open spec fn resolve_index(index: int, n: int) -> Option<int> {
    if -n <= index && index < 0 {
        Some(index + n)
    } else if 0 <= index && index < n {
        Some(index)
    } else {
        None
    }
}

/// Every index in `[-n, n)` addresses the same plugin as `index mod n`.
pub proof fn lemma_index_mod(index: int, n: int)
    requires
        n > 0,
        -n <= index < n,
    ensures
        resolve_index(index, n) == Some(index % n),
{
    if index < 0 {
        vstd::arithmetic::div_mod::lemma_mod_add_multiples_vanish(index, n);
        vstd::arithmetic::div_mod::lemma_small_mod((index + n) as nat, n as nat);
    } else {
        vstd::arithmetic::div_mod::lemma_small_mod(index as nat, n as nat);
    }
}

/// Resolves a host index into a position in a pipeline of `n_plugins`
/// plugins; negative indices count from the back. Out of range is `InvArg`.
pub fn resolve_plugin_index(index: isize, n_plugins: usize) -> (r: Result<usize, Error>)
    ensures
        r is Ok <==> resolve_index(index as int, n_plugins as int) is Some,
        r is Ok ==> r->Ok_0 as int == resolve_index(index as int, n_plugins as int)->Some_0,
        r is Err ==> r->Err_0.kind == ErrorKind::InvArg,
{
    if index < 0 {
        let back: usize = (-(index + 1)) as usize + 1;
        if back > n_plugins {
            Err(Error::new(ErrorKind::InvArg, "index out of range"))
        } else {
            Ok(n_plugins - back)
        }
    } else {
        let i = index as usize;
        if i >= n_plugins {
            Err(Error::new(ErrorKind::InvArg, "index out of range"))
        } else {
            Ok(i)
        }
    }
}

/// The first position at which `name` occurs in `names`, if any.
pub open spec fn first_index_of(names: Seq<Seq<char>>, name: Seq<char>) -> Option<int> {
    if exists|i: int| 0 <= i < names.len() && names[i] == name {
        Some(
            choose|i: int|
                0 <= i < names.len() && names[i] == name && forall|j: int|
                    0 <= j < i ==> names[j] != name,
        )
    } else {
        None
    }
}

/// Finds the first of `names` equal to `name`.
pub fn find_name(names: &Vec<String>, name: &str) -> (r: Option<usize>)
    ensures
        r matches Some(i) ==> i < names@.len() && first_index_of(views(names@), name@) == Some(
            i as int,
        ),
        r is None ==> first_index_of(views(names@), name@) is None,
{
    let target = String::from_str(name);
    let mut i: usize = 0;
    while i < names.len()
        invariant
            i <= names@.len(),
            target@ == name@,
            forall|j: int| 0 <= j < i ==> views(names@)[j] != name@,
        decreases names@.len() - i,
    {
        if names[i] == target {
            let ghost w = i as int;
            assert(views(names@)[w] == name@);
            assert(first_index_of(views(names@), name@) == Some(w)) by {
                let c = first_index_of(views(names@), name@)->Some_0;
                assert(0 <= c < names@.len() && views(names@)[c] == name@);
                if c < w {
                } else if c > w {
                    assert(views(names@)[w] != name@);
                }
            }
            return Some(i);
        }
        i = i + 1;
    }
    None
}

/// `name: message`, describing the failure of one plugin.
pub fn failure_label(name: &String, e: &Error) -> (r: String)
    ensures
        r@ == name@ + ": "@ + e.message@,
{
    let r = name.clone().concat(": ");
    r.concat(e.message.as_str())
}

/// One error for a phase in which some plugins failed: `prefix` followed
/// by the failures joined with `"; "`.
pub fn aggregate_failures(prefix: &str, failures: &Vec<String>) -> (r: Error)
    ensures
        r.kind == ErrorKind::PluginFailure,
        r.message@ == prefix@ + joined(views(failures@)),
{
    let joined_text = join_messages(failures);
    Error {
        kind: ErrorKind::PluginFailure,
        message: String::from_str(prefix).concat(joined_text.as_str()),
    }
}

/// What a yield leaves behind, given the model `v` before it and the
/// frontend's reply `y` to the run request.
pub open spec fn yield_from_reply(v: HostView, y: Result<PluginToSimulator, Error>) -> (
    HostView,
    Result<(), ErrorKind>,
) {
    match y {
        Ok(PluginToSimulator::RunResponse(resp)) => yield_outcome(
            v,
            resp.return_value,
            resp.messages@,
        ),
        Ok(PluginToSimulator::Failure(_)) => (after_request(v), Err(ErrorKind::PluginFailure)),
        Ok(_) => (after_request(v), Err(ErrorKind::Protocol)),
        Err(e) => (after_request(v), Err(e.kind)),
    }
}

/// What `wait()` leaves behind after yielding, given the model `v` before
/// it and the frontend's reply `y`: the yield's error, or else the return
/// value if the run function has returned, and a deadlock if not.
pub open spec fn wait_from_reply(v: HostView, y: Result<PluginToSimulator, Error>) -> (
    HostView,
    Result<ArbData, ErrorKind>,
) {
    let (h, k) = yield_from_reply(v, y);
    if k is Err {
        (h, Err(k->Err_0))
    } else {
        take_return_outcome(h)
    }
}

/// What `recv()` leaves behind after yielding, given the model `v` before
/// it and the frontend's reply `y`: the yield's error, or else the oldest
/// message if one arrived, and a deadlock if none did.
pub open spec fn recv_from_reply(v: HostView, y: Result<PluginToSimulator, Error>) -> (
    HostView,
    Result<ArbData, ErrorKind>,
) {
    let (h, k) = yield_from_reply(v, y);
    if k is Err {
        (h, Err(k->Err_0))
    } else {
        take_message_outcome(h)
    }
}

/// `start(a)` followed by `wait()` returns `f(a)` when the frontend runs
/// `f`: the run request carries `a`, and when the frontend answers it with
/// the return value `f(a)`, `wait()` returns that value and the
/// accelerator is idle again.
pub proof fn lemma_start_then_wait(
    v: HostView,
    a: ArbData,
    f: spec_fn(ArbData) -> ArbData,
    resp: RunResponse,
)
    requires
        v.state is Idle,
        resp.return_value == Some(f(a)),
    ensures
        request_start(after_start(v, a)) == Some(a),
        wait_from_reply(after_start(v, a), Ok(PluginToSimulator::RunResponse(resp))).1 == Ok::<
            ArbData,
            ErrorKind,
        >(f(a)),
        wait_from_reply(after_start(v, a), Ok(PluginToSimulator::RunResponse(resp))).0.state is Idle,
{
}

/// `wait()` with no return value pending deadlocks when the frontend's
/// answer carries no return value: the run function is still waiting for
/// the host.
pub proof fn lemma_wait_deadlock(v: HostView, resp: RunResponse)
    requires
        !(v.state is WaitPending),
        resp.return_value is None,
    ensures
        wait_from_reply(v, Ok(PluginToSimulator::RunResponse(resp))).1 == Err::<
            ArbData,
            ErrorKind,
        >(ErrorKind::Deadlock),
{
}

/// `send(d)` followed by `recv()` returns `d` when the frontend is a
/// loopback that answers a run request with the messages it carries and
/// no return value, and nothing was queued in either direction before.
pub proof fn lemma_send_then_recv_loopback(v: HostView, d: ArbData, resp: RunResponse)
    requires
        v.to_accel.len() == 0,
        v.to_host.len() == 0,
        resp.return_value is None,
        resp.messages@ == request_messages(after_send(v, d)),
    ensures
        request_messages(after_send(v, d)) == seq![d],
        recv_from_reply(after_send(v, d), Ok(PluginToSimulator::RunResponse(resp))).1 == Ok::<
            ArbData,
            ErrorKind,
        >(d),
{
    assert(after_send(v, d).to_accel =~= seq![d]);
    let y = yield_outcome(after_send(v, d), None, seq![d]).0;
    assert(y.to_host =~= seq![d]);
}

/// `recv()` with no message queued deadlocks when the frontend's answer
/// is accepted and carries no messages: the accelerator is not sending.
pub proof fn lemma_recv_deadlock(v: HostView, resp: RunResponse)
    requires
        v.to_host.len() == 0,
        resp.messages@.len() == 0,
        resp.return_value is None,
    ensures
        recv_from_reply(v, Ok(PluginToSimulator::RunResponse(resp))).1 == Err::<
            ArbData,
            ErrorKind,
        >(ErrorKind::Deadlock),
{
    let y = yield_outcome(v, None, resp.messages@).0;
    assert(y.to_host =~= v.to_host);
}

/// The reply to a run request carries a return value that the model `v`
/// does not accept.
pub open spec fn unexpected_return(v: HostView, y: Result<PluginToSimulator, Error>) -> bool {
    match y {
        Ok(PluginToSimulator::RunResponse(resp)) => !response_accepted(
            after_request(v),
            resp.return_value,
        ),
        _ => false,
    }
}

/// Call `c` hands the frontend the run request built from the model `v`.
pub open spec fn is_run_call(c: PluginCall, v: HostView) -> bool {
    match c {
        PluginCall::Rpc { index, request: SimulatorToPlugin::RunRequest(q), .. } => index == 0
            && q.start == request_start(v) && q.messages@ == request_messages(v),
        _ => false,
    }
}

/// Call `c` hands `cmd` to the plugin at position `target`.
pub open spec fn is_arb_call(c: PluginCall, target: int, cmd: ArbCmd) -> bool {
    match c {
        PluginCall::Rpc { index, request: SimulatorToPlugin::ArbRequest(x), .. } => index == target
            && x == cmd,
        _ => false,
    }
}

/// What a request call returned.
pub open spec fn call_reply(c: PluginCall) -> Result<PluginToSimulator, Error> {
    match c {
        PluginCall::Rpc { result, .. } => result,
        _ => arbitrary(),
    }
}

/// The result of a side-channel command, given the plugin's reply.
pub open spec fn arb_from_reply(y: Result<PluginToSimulator, Error>) -> Result<ArbData, ErrorKind> {
    match y {
        Ok(PluginToSimulator::ArbResponse(x)) => Ok(x),
        Ok(PluginToSimulator::Failure(_)) => Err(ErrorKind::PluginFailure),
        Ok(_) => Err(ErrorKind::Protocol),
        Err(e) => Err(e.kind),
    }
}

/// A side-channel command to `target`, seen in the calls and the model:
/// first one run request built from the model, and only if that yield
/// succeeded, `cmd` to `target`, whose reply gives the result `r`;
/// otherwise the yield's error.
pub open spec fn arb_delivered(
    calls_before: Seq<PluginCall>,
    host_before: HostView,
    calls_after: Seq<PluginCall>,
    host_after: HostView,
    target: int,
    cmd: ArbCmd,
    r: Result<ArbData, ErrorKind>,
) -> bool {
    let c0 = calls_before.len() as int;
    let y = yield_from_reply(host_before, call_reply(calls_after[c0]));
    &&& calls_after.len() > c0
    &&& calls_after.subrange(0, c0) == calls_before
    &&& is_run_call(calls_after[c0], host_before)
    &&& host_after == y.0
    &&& if y.1 is Ok {
        &&& calls_after.len() == c0 + 2
        &&& is_arb_call(calls_after[c0 + 1], target, cmd)
        &&& r == arb_from_reply(call_reply(calls_after[c0 + 1]))
    } else {
        calls_after.len() == c0 + 1 && r == Err::<ArbData, ErrorKind>(y.1->Err_0)
    }
}

/// A simulation: the plugin pipeline (frontend first, backend last), the
/// instance names and metadata of its plugins, the random seed, and the
/// host's view of the accelerator.
pub struct Simulation<P: Plugin> {
    pipeline: PluginPipeline<P>,
    metadata: Vec<PluginMetadata>,
    seed: u64,
    host: HostState,
    /// Every run request handed to the frontend, oldest first.
    requests: Ghost<Seq<(Option<ArbData>, Seq<ArbData>)>>,
}

impl<P: Plugin> Simulation<P> {
    /// The `(start, messages)` of every run request handed to the frontend,
    /// oldest first.
    pub closed spec fn sent_requests(&self) -> Seq<(Option<ArbData>, Seq<ArbData>)> {
        self.requests@
    }

    /// The running plugins, frontend first; empty once shut down.
    pub closed spec fn plugins(&self) -> Seq<P> {
        self.pipeline.plugins()
    }

    /// Every call made on the plugins, oldest first.
    pub closed spec fn plugin_calls(&self) -> Seq<PluginCall> {
        self.pipeline.calls()
    }

    /// The number of plugins the simulation was built with.
    pub closed spec fn plugin_count(&self) -> nat {
        self.pipeline.names().len()
    }

    /// Whether the plugins are still running, i.e. `drop_plugins` has not
    /// been called.
    pub closed spec fn is_open(&self) -> bool {
        self.pipeline.plugins().len() > 0
    }

    /// The instance names, in pipeline order.
    pub closed spec fn instance_names(&self) -> Seq<Seq<char>> {
        self.pipeline.names()
    }

    /// The metadata reported by the plugins, in pipeline order.
    pub closed spec fn metadata_seq(&self) -> Seq<PluginMetadata> {
        self.metadata@
    }

    /// The random seed.
    pub closed spec fn seed_value(&self) -> u64 {
        self.seed
    }

    /// The run state and the message queues.
    pub closed spec fn host_view(&self) -> HostView {
        self.host@
    }

    /// The plugins are all there, or all shut down.
    pub closed spec fn pipeline_matches(&self) -> bool {
        self.pipeline.wf()
    }

    /// Well-formedness: at least a frontend and a backend, one name and one
    /// metadata record per plugin.
    pub open spec fn wf(&self) -> bool {
        &&& self.plugin_count() >= 2
        &&& self.instance_names().len() == self.plugin_count()
        &&& self.metadata_seq().len() == self.plugin_count()
        &&& self.pipeline_matches()
    }

    /// Everything but the host's view is as in `other`.
    pub open spec fn same_pipeline(&self, other: &Self) -> bool {
        &&& self.plugin_count() == other.plugin_count()
        &&& self.instance_names() == other.instance_names()
        &&& self.metadata_seq() == other.metadata_seq()
        &&& self.seed_value() == other.seed_value()
        &&& self.is_open() == other.is_open()
    }

    /// Constructs a simulation from a pipeline of at least two plugins and
    /// a random seed, wiring the pipeline back to front.
    ///
    /// Every plugin is spawned; then every plugin is initialized from the
    /// backend to the frontend, each learning the endpoint of its
    /// downstream neighbour; then every plugin but the frontend accepts the
    /// connection of its upstream neighbour, again from the back. Each
    /// phase runs on all plugins before its failures are reported together.
    pub fn new(pipeline: Vec<P>, seed: u64) -> (r: Result<Simulation<P>, Error>)
        ensures
            pipeline@.len() < 2 <==> (r is Err && r->Err_0.kind == ErrorKind::InvArg),
            pipeline@.len() >= 2 && r is Err ==> r->Err_0.kind == ErrorKind::PluginFailure
                && exists|names: Seq<Seq<char>>, cs: Seq<PluginCall>|
                names.len() == pipeline@.len() && #[trigger] wiring_calls(
                    pipeline@.len() as int,
                    names,
                    cs,
                ) && #[trigger] wiring_outcome(pipeline@.len() as int, names, cs) == Err::<
                    Seq<PluginMetadata>,
                    Seq<char>,
                >(r->Err_0.message@),
            r matches Ok(s) ==> {
                let n = pipeline@.len() as int;
                let cs = s.plugin_calls().subrange(n, s.plugin_calls().len() as int);
                &&& s.wf()
                &&& s.is_open()
                &&& s.plugin_count() == n
                &&& s.seed_value() == seed
                &&& s.host_view().state is Idle
                &&& s.host_view().to_accel.len() == 0
                &&& s.host_view().to_host.len() == 0
                &&& s.sent_requests().len() == 0
                &&& s.plugin_calls().len() >= n
                &&& forall|k: int|
                    0 <= k < n ==> #[trigger] s.plugin_calls()[k] == (PluginCall::Name {
                        index: k,
                        result: s.instance_names()[k],
                    })
                &&& wiring_calls(n, s.instance_names(), cs)
                &&& wiring_outcome(n, s.instance_names(), cs) == Ok::<
                    Seq<PluginMetadata>,
                    Seq<char>,
                >(s.metadata_seq())
            },
    {
        if pipeline.len() < 2 {
            return Err(
                Error::new(
                    ErrorKind::InvArg,
                    "Simulation must consist of at least a frontend and backend",
                ),
            );
        }
        let ghost n = pipeline@.len() as int;
        let mut plugins = PluginPipeline::new(pipeline);
        let ghost named = plugins.calls();
        let ghost names = plugins.names();
        match connect(&mut plugins) {
            Ok(metadata) => {
                assert(plugins.calls().subrange(n, plugins.calls().len() as int) == calls_since(
                    plugins.calls(),
                    named,
                ));
                assert forall|k: int| 0 <= k < n implies #[trigger] plugins.calls()[k] == named[k] by {
                    assert(plugins.calls().subrange(0, n)[k] == plugins.calls()[k]);
                }
                Ok(
                    Simulation {
                        pipeline: plugins,
                        metadata,
                        seed,
                        host: HostState::new(),
                        requests: Ghost(Seq::empty()),
                    },
                )
            },
            Err(e) => {
                assert(wiring_calls(n, names, calls_since(plugins.calls(), named)));
                Err(e)
            },
        }
    }

    /// Shuts the plugins down, from the backend to the frontend. Names and
    /// metadata stay available; anything that needs a plugin fails with
    /// `InvOp` afterwards.
    pub fn drop_plugins(&mut self)
        requires
            old(self).wf(),
        ensures
            final(self).wf(),
            !final(self).is_open(),
            final(self).plugin_count() == old(self).plugin_count(),
            final(self).instance_names() == old(self).instance_names(),
            final(self).metadata_seq() == old(self).metadata_seq(),
            final(self).seed_value() == old(self).seed_value(),
            final(self).host_view() == old(self).host_view(),
            final(self).sent_requests() == old(self).sent_requests(),
            final(self).plugin_calls() == old(self).plugin_calls(),
    {
        self.pipeline.shut_down();
    }

    /// The frontend plugin.
    pub fn accelerator(&self) -> (r: &P)
        requires
            self.wf(),
            self.is_open(),
        ensures
            *r == self.plugins()[0],
    {
        self.pipeline.plugin(0)
    }

    /// The frontend plugin, for direct use.
    pub fn accelerator_mut(&mut self) -> (r: &mut P)
        requires
            old(self).wf(),
            old(self).is_open(),
        ensures
            *r == old(self).plugins()[0],
            final(self).wf(),
            final(self).same_pipeline(old(self)),
            final(self).host_view() == old(self).host_view(),
            final(self).plugins() == old(self).plugins().update(0, *final(r)),
            final(self).plugin_calls() == old(self).plugin_calls(),
            final(self).sent_requests() == old(self).sent_requests(),
    {
        self.pipeline.plugin_mut(0)
    }

    /// The random seed of the simulation.
    pub fn seed(&self) -> (r: u64)
        ensures
            r == self.seed_value(),
    {
        self.seed
    }

    /// The current run state of the accelerator.
    pub fn accelerator_state(&self) -> (r: &AcceleratorState)
        ensures
            *r == self.host_view().state,
    {
        self.host.state()
    }

    /// Starts a program on the accelerator. Purely local: the frontend is
    /// told on the next yield. Only allowed while idle; otherwise `InvOp`,
    /// and nothing changes.
    pub fn start(&mut self, data: ArbData) -> (r: Result<(), Error>)
        requires
            old(self).wf(),
        ensures
            final(self).wf(),
            final(self).same_pipeline(old(self)),
            final(self).host_view() == after_start(old(self).host_view(), data),
            final(self).sent_requests() == old(self).sent_requests(),
            final(self).plugins() == old(self).plugins(),
            final(self).plugin_calls() == old(self).plugin_calls(),
            r is Ok <==> old(self).host_view().state is Idle,
            r is Err ==> r->Err_0.kind == ErrorKind::InvOp,
    {
        self.host.start(data)
    }

    /// Queues a message for the accelerator. Purely local: it is delivered
    /// on the next yield.
    pub fn send(&mut self, data: ArbData) -> (r: Result<(), Error>)
        requires
            old(self).wf(),
        ensures
            final(self).wf(),
            final(self).same_pipeline(old(self)),
            final(self).host_view() == after_send(old(self).host_view(), data),
            final(self).sent_requests() == old(self).sent_requests(),
            final(self).plugins() == old(self).plugins(),
            final(self).plugin_calls() == old(self).plugin_calls(),
            r is Ok,
    {
        self.host.send(data);
        Ok(())
    }

    /// Yields to the accelerator: sends the frontend one run request with
    /// the pending start argument, if any, and every queued message, then
    /// takes in its response.
    pub fn yield_to_accelerator(&mut self) -> (r: Result<(), Error>)
        requires
            old(self).wf(),
        ensures
            final(self).wf(),
            final(self).same_pipeline(old(self)),
            !old(self).is_open() ==> r is Err && r->Err_0.kind == ErrorKind::InvOp
                && final(self).host_view() == old(self).host_view()
                && final(self).sent_requests() == old(self).sent_requests()
                && final(self).plugin_calls() == old(self).plugin_calls(),
            old(self).is_open() ==> final(self).sent_requests() == old(self).sent_requests().push(
                (request_start(old(self).host_view()), request_messages(old(self).host_view())),
            ),
            old(self).is_open() ==> {
                &&& final(self).plugin_calls().len() == old(self).plugin_calls().len() + 1
                &&& final(self).plugin_calls().drop_last() == old(self).plugin_calls()
                &&& is_run_call(final(self).plugin_calls().last(), old(self).host_view())
                &&& (final(self).host_view(), kind_of(r)) == yield_from_reply(
                    old(self).host_view(),
                    call_reply(final(self).plugin_calls().last()),
                )
                &&& unexpected_return(
                    old(self).host_view(),
                    call_reply(final(self).plugin_calls().last()),
                ) ==> r->Err_0.message@ == "unexpected run() return value"@
            },
            old(self).is_open() ==> yield_result(
                old(self).host_view(),
                final(self).host_view(),
                kind_of(r),
            ),
    {
        if self.pipeline.running() == 0 {
            return Err(Error::new(ErrorKind::InvOp, "the plugins have been shut down"));
        }
        let request = self.host.prepare_run_request();
        self.requests = Ghost(self.requests@.push((request.start, request.messages@)));
        let ghost before = self.pipeline.calls();
        let reply = match self.pipeline.rpc(0, SimulatorToPlugin::RunRequest(request)) {
            Ok(reply) => reply,
            Err(e) => return Err(e),
        };
        let response = match expect_run_response(reply) {
            Ok(response) => response,
            Err(e) => return Err(e),
        };
        let ghost ret = response.return_value;
        let ghost out = response.messages@;
        let r = self.host.apply_run_response(response);
        assert(yield_outcome(old(self).host@, ret, out) == (self.host@, kind_of(r)));
        r
    }

    /// Waits for the frontend's run function to return and returns its
    /// value. A value already received is returned at once; otherwise the
    /// host yields once, and if the run function has still not returned
    /// the accelerator is waiting for the host: `Deadlock`.
    pub fn wait(&mut self) -> (r: Result<ArbData, Error>)
        requires
            old(self).wf(),
        ensures
            final(self).wf(),
            final(self).same_pipeline(old(self)),
            old(self).host_view().state is WaitPending ==> (final(self).host_view(), kind_of(r))
                == take_return_outcome(old(self).host_view()) && final(self).sent_requests()
                == old(self).sent_requests() && final(self).plugin_calls()
                == old(self).plugin_calls(),
            !(old(self).host_view().state is WaitPending) && !old(self).is_open() ==> r is Err
                && r->Err_0.kind == ErrorKind::InvOp && final(self).host_view() == old(
                self,
            ).host_view() && final(self).sent_requests() == old(self).sent_requests()
                && final(self).plugin_calls() == old(self).plugin_calls(),
            !(old(self).host_view().state is WaitPending) && old(self).is_open() ==> {
                &&& final(self).sent_requests() == old(self).sent_requests().push(
                    (request_start(old(self).host_view()), request_messages(old(self).host_view())),
                )
                &&& final(self).plugin_calls().len() == old(self).plugin_calls().len() + 1
                &&& final(self).plugin_calls().drop_last() == old(self).plugin_calls()
                &&& is_run_call(final(self).plugin_calls().last(), old(self).host_view())
                &&& (final(self).host_view(), kind_of(r)) == wait_from_reply(
                    old(self).host_view(),
                    call_reply(final(self).plugin_calls().last()),
                )
            },
    {
        if self.host.is_wait_pending() {
            return self.host.take_return_value();
        }
        let y = self.yield_to_accelerator();
        match y {
            Err(e) => Err(e),
            Ok(()) => self.host.take_return_value(),
        }
    }

    /// Returns the oldest message from the accelerator. A queued message is
    /// returned at once; otherwise the host yields once, and if still none
    /// arrived the accelerator is not sending: `Deadlock`.
    pub fn recv(&mut self) -> (r: Result<ArbData, Error>)
        requires
            old(self).wf(),
        ensures
            final(self).wf(),
            final(self).same_pipeline(old(self)),
            old(self).host_view().to_host.len() > 0 ==> (final(self).host_view(), kind_of(r))
                == take_message_outcome(old(self).host_view()) && final(self).sent_requests()
                == old(self).sent_requests() && final(self).plugin_calls()
                == old(self).plugin_calls(),
            !(old(self).host_view().to_host.len() > 0) && !old(self).is_open() ==> r is Err
                && r->Err_0.kind == ErrorKind::InvOp && final(self).host_view() == old(
                self,
            ).host_view() && final(self).sent_requests() == old(self).sent_requests()
                && final(self).plugin_calls() == old(self).plugin_calls(),
            !(old(self).host_view().to_host.len() > 0) && old(self).is_open() ==> {
                &&& final(self).sent_requests() == old(self).sent_requests().push(
                    (request_start(old(self).host_view()), request_messages(old(self).host_view())),
                )
                &&& final(self).plugin_calls().len() == old(self).plugin_calls().len() + 1
                &&& final(self).plugin_calls().drop_last() == old(self).plugin_calls()
                &&& is_run_call(final(self).plugin_calls().last(), old(self).host_view())
                &&& (final(self).host_view(), kind_of(r)) == recv_from_reply(
                    old(self).host_view(),
                    call_reply(final(self).plugin_calls().last()),
                )
            },
    {
        if self.host.pending_receives() > 0 {
            return self.host.take_message();
        }
        let y = self.yield_to_accelerator();
        match y {
            Err(e) => Err(e),
            Ok(()) => self.host.take_message(),
        }
    }

    /// Yields, then sends `cmd` to the plugin at `index` and returns its
    /// reply.
    fn arb_at(&mut self, index: usize, cmd: ArbCmd) -> (r: Result<ArbData, Error>)
        requires
            old(self).wf(),
            index < old(self).plugin_count(),
        ensures
            final(self).wf(),
            final(self).same_pipeline(old(self)),
            !old(self).is_open() ==> r is Err && r->Err_0.kind == ErrorKind::InvOp
                && final(self).host_view() == old(self).host_view()
                && final(self).sent_requests() == old(self).sent_requests()
                && final(self).plugin_calls() == old(self).plugin_calls(),
            old(self).is_open() ==> final(self).sent_requests() == old(self).sent_requests().push(
                (request_start(old(self).host_view()), request_messages(old(self).host_view())),
            ),
            old(self).is_open() ==> arb_delivered(
                old(self).plugin_calls(),
                old(self).host_view(),
                final(self).plugin_calls(),
                final(self).host_view(),
                index as int,
                cmd,
                kind_of(r),
            ),
    {
        let ghost c0 = self.pipeline.calls().len() as int;
        let y = self.yield_to_accelerator();
        proof {
            if old(self).is_open() {
                assert(self.pipeline.calls()[c0] == self.pipeline.calls().last());
                assert(self.pipeline.calls().subrange(0, c0) =~= self.pipeline.calls().drop_last());
            }
        }
        match y {
            Err(e) => Err(e),
            Ok(()) => {
                let ghost mid = self.pipeline.calls();
                let ghost sent = cmd;
                let reply = self.pipeline.rpc(index, SimulatorToPlugin::ArbRequest(cmd));
                proof {
                    let cs = self.pipeline.calls();
                    assert(mid.subrange(0, c0) =~= mid.drop_last());
                    assert(cs.subrange(0, c0) =~= mid.subrange(0, c0));
                    assert(cs[c0] == mid[c0]);
                    assert(cs[c0 + 1] == cs.last());
                    assert(is_arb_call(cs[c0 + 1], index as int, sent));
                }
                match reply {
                    Ok(reply) => expect_arb_response(reply),
                    Err(e) => Err(e),
                }
            },
        }
    }

    /// Sends a side-channel command to the plugin at `index`: `0..N` from
    /// the frontend, `-N..0` from the back (`-1` is the backend). All
    /// pending asynchronous calls are flushed by a yield first. An index
    /// out of range is `InvArg`, and nothing is sent.
    pub fn arb_idx(&mut self, index: isize, cmd: ArbCmd) -> (r: Result<ArbData, Error>)
        requires
            old(self).wf(),
        ensures
            final(self).wf(),
            final(self).same_pipeline(old(self)),
            resolve_index(index as int, old(self).plugin_count() as int) is None ==> r is Err
                && r->Err_0.kind == ErrorKind::InvArg && final(self).host_view() == old(
                self,
            ).host_view(),
            resolve_index(index as int, old(self).plugin_count() as int) is Some
                && !old(self).is_open() ==> r is Err && r->Err_0.kind == ErrorKind::InvOp
                && final(self).host_view() == old(self).host_view(),
            resolve_index(index as int, old(self).plugin_count() as int) is None
                || !old(self).is_open() ==> final(self).sent_requests() == old(
                self,
            ).sent_requests(),
            resolve_index(index as int, old(self).plugin_count() as int) is Some
                && old(self).is_open() ==> final(self).sent_requests() == old(
                self,
            ).sent_requests().push(
                (request_start(old(self).host_view()), request_messages(old(self).host_view())),
            ),
            resolve_index(index as int, old(self).plugin_count() as int) is None
                ==> final(self).plugins() == old(self).plugins() && final(self).plugin_calls()
                == old(self).plugin_calls(),
            resolve_index(index as int, old(self).plugin_count() as int) is Some
                && !old(self).is_open() ==> final(self).plugin_calls() == old(self).plugin_calls(),
            resolve_index(index as int, old(self).plugin_count() as int) is Some
                && old(self).is_open() ==> arb_delivered(
                old(self).plugin_calls(),
                old(self).host_view(),
                final(self).plugin_calls(),
                final(self).host_view(),
                resolve_index(index as int, old(self).plugin_count() as int)->Some_0,
                cmd,
                kind_of(r),
            ),
    {
        match resolve_plugin_index(index, self.pipeline.count()) {
            Ok(i) => self.arb_at(i, cmd),
            Err(e) => Err(e),
        }
    }

    /// Sends a side-channel command to the first plugin with instance name
    /// `name`, after flushing pending asynchronous calls by a yield. An
    /// unknown name is `InvArg`, and nothing is sent.
    pub fn arb(&mut self, name: &str, cmd: ArbCmd) -> (r: Result<ArbData, Error>)
        requires
            old(self).wf(),
        ensures
            final(self).wf(),
            final(self).same_pipeline(old(self)),
            first_index_of(old(self).instance_names(), name@) is None ==> r is Err
                && r->Err_0.kind == ErrorKind::InvArg && final(self).host_view() == old(
                self,
            ).host_view(),
            first_index_of(old(self).instance_names(), name@) is Some && !old(self).is_open()
                ==> r is Err && r->Err_0.kind == ErrorKind::InvOp && final(self).host_view()
                == old(self).host_view(),
            first_index_of(old(self).instance_names(), name@) is None || !old(self).is_open()
                ==> final(self).sent_requests() == old(self).sent_requests(),
            first_index_of(old(self).instance_names(), name@) is Some && old(self).is_open()
                ==> final(self).sent_requests() == old(self).sent_requests().push(
                (request_start(old(self).host_view()), request_messages(old(self).host_view())),
            ),
            first_index_of(old(self).instance_names(), name@) is None ==> final(self).plugins()
                == old(self).plugins() && final(self).plugin_calls() == old(self).plugin_calls(),
            first_index_of(old(self).instance_names(), name@) is Some && !old(self).is_open()
                ==> final(self).plugin_calls() == old(self).plugin_calls(),
            first_index_of(old(self).instance_names(), name@) is Some && old(self).is_open()
                ==> arb_delivered(
                old(self).plugin_calls(),
                old(self).host_view(),
                final(self).plugin_calls(),
                final(self).host_view(),
                first_index_of(old(self).instance_names(), name@)->Some_0,
                cmd,
                kind_of(r),
            ),
    {
        match find_name(self.pipeline.names_vec(), name) {
            Some(i) => self.arb_at(i, cmd),
            None => Err(
                Error {
                    kind: ErrorKind::InvArg,
                    message: String::from_str("plugin ").concat(name).concat(" not found"),
                },
            ),
        }
    }

    /// The metadata of the plugin at `index`, with negative indices
    /// counting from the back. Out of range is `InvArg`.
    pub fn get_metadata_idx(&self, index: isize) -> (r: Result<&PluginMetadata, Error>)
        requires
            self.wf(),
        ensures
            resolve_index(index as int, self.plugin_count() as int) matches Some(i) ==> r is Ok
                && *r->Ok_0 == self.metadata_seq()[i],
            resolve_index(index as int, self.plugin_count() as int) is None ==> r is Err
                && r->Err_0.kind == ErrorKind::InvArg,
    {
        match resolve_plugin_index(index, self.metadata.len()) {
            Ok(i) => Ok(&self.metadata[i]),
            Err(e) => Err(e),
        }
    }

    /// The metadata of the first plugin with instance name `name`. An
    /// unknown name is `InvArg`.
    pub fn get_metadata(&self, name: &str) -> (r: Result<&PluginMetadata, Error>)
        requires
            self.wf(),
        ensures
            first_index_of(self.instance_names(), name@) matches Some(i) ==> r is Ok
                && *r->Ok_0 == self.metadata_seq()[i],
            first_index_of(self.instance_names(), name@) is None ==> r is Err
                && r->Err_0.kind == ErrorKind::InvArg,
    {
        match find_name(self.pipeline.names_vec(), name) {
            Some(i) => Ok(&self.metadata[i]),
            None => Err(
                Error {
                    kind: ErrorKind::InvArg,
                    message: String::from_str("plugin ").concat(name).concat(" not found"),
                },
            ),
        }
    }
}

} // verus!
