//! The host side of the accelerator: its run state and the two message
//! queues, with every transition stated over an abstract model.

use vstd::prelude::*;
use std::collections::VecDeque;
use crate::error::{Error, ErrorKind};
use crate::state::AcceleratorState;
use crate::types::{ArbData, FrontendRunRequest, RunResponse};

verus! {

/// Abstract model of [`HostState`].
pub struct HostView {
    pub state: AcceleratorState,
    /// Messages queued by `send()`, oldest first.
    pub to_accel: Seq<ArbData>,
    /// Messages produced by the frontend and not yet consumed by `recv()`,
    /// oldest first.
    pub to_host: Seq<ArbData>,
}

/// The model after `start(d)`: `StartPending(d)` from `Idle`, otherwise
/// unchanged.
pub open spec fn after_start(v: HostView, d: ArbData) -> HostView {
    if v.state is Idle {
        HostView { state: AcceleratorState::StartPending(d), ..v }
    } else {
        v
    }
}

/// The model after `send(d)`.
pub open spec fn after_send(v: HostView, d: ArbData) -> HostView {
    HostView { to_accel: v.to_accel.push(d), ..v }
}

/// The `start` field of the run request built from `v`.
pub open spec fn request_start(v: HostView) -> Option<ArbData> {
    if v.state is StartPending {
        v.state.payload()
    } else {
        None
    }
}

/// The `messages` field of the run request built from `v`.
pub open spec fn request_messages(v: HostView) -> Seq<ArbData> {
    v.to_accel
}

/// The model once the run request has been built: a pending start becomes
/// `Blocked` and the outgoing queue is empty.
pub open spec fn after_request(v: HostView) -> HostView {
    HostView {
        state: if v.state is StartPending {
            AcceleratorState::Blocked
        } else {
            v.state
        },
        to_accel: Seq::empty(),
        to_host: v.to_host,
    }
}

/// Whether a response carrying `ret` is acceptable in the model `v`: a
/// return value may only arrive while the run function is running.
pub open spec fn response_accepted(v: HostView, ret: Option<ArbData>) -> bool {
    ret is None || v.state is Blocked
}

/// The model after a response with return value `ret` and messages `out`:
/// the messages are queued for `recv()`, and an accepted return value makes
/// the state `WaitPending`.
pub open spec fn after_response(v: HostView, ret: Option<ArbData>, out: Seq<ArbData>) -> HostView {
    HostView {
        state: if ret is Some && v.state is Blocked {
            AcceleratorState::WaitPending(ret->Some_0)
        } else {
            v.state
        },
        to_accel: v.to_accel,
        to_host: v.to_host + out,
    }
}

/// One yield in the model, given the frontend's answer `(ret, out)`: the
/// new model and whether it succeeded or failed with a protocol error.
pub open spec fn yield_outcome(v: HostView, ret: Option<ArbData>, out: Seq<ArbData>) -> (
    HostView,
    Result<(), ErrorKind>,
) {
    let sent = after_request(v);
    (
        after_response(sent, ret, out),
        if response_accepted(sent, ret) {
            Ok(())
        } else {
            Err(ErrorKind::Protocol)
        },
    )
}

/// Consuming the return value: from `WaitPending(d)` the model becomes
/// `Idle` and `d` is returned; otherwise the host would wait forever.
pub open spec fn take_return_outcome(v: HostView) -> (HostView, Result<ArbData, ErrorKind>) {
    if v.state is WaitPending {
        (HostView { state: AcceleratorState::Idle, ..v }, Ok(v.state.payload()->Some_0))
    } else {
        (v, Err(ErrorKind::Deadlock))
    }
}

/// Consuming a message: the oldest one is returned; with none queued the
/// host would wait forever.
pub open spec fn take_message_outcome(v: HostView) -> (HostView, Result<ArbData, ErrorKind>) {
    if v.to_host.len() > 0 {
        (HostView { to_host: v.to_host.drop_first(), ..v }, Ok(v.to_host[0]))
    } else {
        (v, Err(ErrorKind::Deadlock))
    }
}

/// What a yield may leave behind, whatever the frontend answered: either
/// the call to the frontend failed once the request had been built, or
/// there is an answer `(ret, out)` whose effect it is.
pub open spec fn yield_result(before: HostView, after: HostView, r: Result<(), ErrorKind>) -> bool {
    ||| r is Err && after == after_request(before)
    ||| exists|ret: Option<ArbData>, out: Seq<ArbData>| #[trigger]
        yield_outcome(before, ret, out) == (after, r)
}

/// The model after sending each of `ds` in turn.
pub open spec fn after_sends(v: HostView, ds: Seq<ArbData>) -> HostView
    decreases ds.len(),
{
    if ds.len() == 0 {
        v
    } else {
        after_send(after_sends(v, ds.drop_last()), ds.last())
    }
}

/// The results of `k` receives in a row from the queue of `v`, without
/// yielding in between.
pub open spec fn receive_results(v: HostView, k: nat) -> Seq<Result<ArbData, ErrorKind>>
    decreases k,
{
    if k == 0 {
        Seq::empty()
    } else {
        let (next, r) = take_message_outcome(v);
        seq![r] + receive_results(next, (k - 1) as nat)
    }
}

/// Between two yields, the sends made are exactly the messages of the next
/// run request, in the order in which they were made.
pub proof fn lemma_sends_become_request(v: HostView, ds: Seq<ArbData>)
    requires
        v.to_accel.len() == 0,
    ensures
        request_messages(after_sends(v, ds)) == ds,
        after_sends(v, ds).state == v.state,
    decreases ds.len(),
{
    if ds.len() > 0 {
        lemma_sends_become_request(v, ds.drop_last());
        assert(after_sends(v, ds.drop_last()).to_accel.push(ds.last()) =~= ds);
    }
}

/// Receives drain the queue oldest first: the `i`-th of `k` receives in a
/// row returns the `i`-th queued message, and a deadlock once none is left.
pub proof fn lemma_receive_order(v: HostView, k: nat)
    ensures
        receive_results(v, k).len() == k,
        forall|i: int|
            0 <= i < k ==> #[trigger] receive_results(v, k)[i] == if i < v.to_host.len() {
                Ok::<ArbData, ErrorKind>(v.to_host[i])
            } else {
                Err::<ArbData, ErrorKind>(ErrorKind::Deadlock)
            },
    decreases k,
{
    if k > 0 {
        let (next, r) = take_message_outcome(v);
        lemma_receive_order(next, (k - 1) as nat);
        assert forall|i: int| 0 <= i < k implies #[trigger] receive_results(v, k)[i] == if i
            < v.to_host.len() {
            Ok::<ArbData, ErrorKind>(v.to_host[i])
        } else {
            Err::<ArbData, ErrorKind>(ErrorKind::Deadlock)
        } by {
            if i > 0 {
                assert(receive_results(v, k)[i] == receive_results(next, (k - 1) as nat)[i - 1]);
            }
        }
    }
}

/// The messages of a yield's answer reach the host in the order the
/// frontend produced them, after the ones already queued.
pub proof fn lemma_messages_in_order(v: HostView, ret: Option<ArbData>, out: Seq<ArbData>)
    ensures
        ({
            let after = yield_outcome(v, ret, out).0;
            let k = (v.to_host.len() + out.len()) as nat;
            forall|i: int|
                0 <= i < out.len() ==> #[trigger] receive_results(after, k)[v.to_host.len() + i]
                    == Ok::<ArbData, ErrorKind>(out[i])
        }),
{
    let after = yield_outcome(v, ret, out).0;
    let k = (v.to_host.len() + out.len()) as nat;
    lemma_receive_order(after, k);
    assert forall|i: int| 0 <= i < out.len() implies #[trigger] receive_results(after, k)[v.to_host.len()
        + i] == Ok::<ArbData, ErrorKind>(out[i]) by {
        assert(after.to_host[v.to_host.len() + i] == out[i]);
    }
}

/// Two yields with nothing in between act as one: right after a yield the
/// next request carries no start and no messages, and when the frontend
/// has nothing new to report the second yield leaves the model as it was.
pub proof fn lemma_yield_twice(v: HostView, ret: Option<ArbData>, out: Seq<ArbData>)
    ensures
        ({
            let once = yield_outcome(v, ret, out).0;
            &&& request_start(once) is None
            &&& request_messages(once).len() == 0
            &&& yield_outcome(once, None, Seq::empty()) == (once, Ok::<(), ErrorKind>(()))
        }),
{
    let once = yield_outcome(v, ret, out).0;
    let again = yield_outcome(once, None, Seq::empty()).0;
    assert(once.to_host + Seq::<ArbData>::empty() =~= once.to_host);
    assert(again.to_accel =~= once.to_accel);
    assert(again == once);
}

/// The kind of a result's error, keeping its success value.
pub open spec fn kind_of<T>(r: Result<T, Error>) -> Result<T, ErrorKind> {
    match r {
        Ok(x) => Ok(x),
        Err(e) => Err(e.kind),
    }
}

/// The accelerator's run state together with the host's message queues.
pub struct HostState {
    state: AcceleratorState,
    host_to_accelerator_data: VecDeque<ArbData>,
    accelerator_to_host_data: VecDeque<ArbData>,
}

impl View for HostState {
    type V = HostView;

    closed spec fn view(&self) -> HostView {
        HostView {
            state: self.state,
            to_accel: self.host_to_accelerator_data@,
            to_host: self.accelerator_to_host_data@,
        }
    }
}

impl HostState {
    /// An idle accelerator with empty queues.
    pub fn new() -> (r: HostState)
        ensures
            r@.state is Idle,
            r@.to_accel.len() == 0,
            r@.to_host.len() == 0,
    {
        HostState {
            state: AcceleratorState::Idle,
            host_to_accelerator_data: VecDeque::new(),
            accelerator_to_host_data: VecDeque::new(),
        }
    }

    /// The current run state.
    pub fn state(&self) -> (r: &AcceleratorState)
        ensures
            *r == self@.state,
    {
        &self.state
    }

    /// The number of messages queued by `send()`.
    pub fn pending_sends(&self) -> (r: usize)
        ensures
            r == self@.to_accel.len(),
    {
        self.host_to_accelerator_data.len()
    }

    /// The number of received messages not yet consumed.
    pub fn pending_receives(&self) -> (r: usize)
        ensures
            r == self@.to_host.len(),
    {
        self.accelerator_to_host_data.len()
    }

    /// Starts a program: only from `Idle`, which becomes `StartPending`.
    /// Otherwise fails with `InvOp` and changes nothing.
    pub fn start(&mut self, data: ArbData) -> (r: Result<(), Error>)
        ensures
            final(self)@ == after_start(old(self)@, data),
            r is Ok <==> old(self)@.state is Idle,
            r is Err ==> r->Err_0.kind == ErrorKind::InvOp,
    {
        if self.state.is_idle() {
            let r = self.state.put_data(data);
            assert(r is Ok);
            Ok(())
        } else {
            Err(Error::new(ErrorKind::InvOp, "accelerator is already running; call wait() first"))
        }
    }

    /// Queues a message for the accelerator.
    pub fn send(&mut self, data: ArbData)
        ensures
            final(self)@ == after_send(old(self)@, data),
    {
        self.host_to_accelerator_data.push_back(data);
    }

    /// Builds the request of the next yield: the argument of a pending start
    /// (which moves the state to `Blocked`) and every queued message, in
    /// the order in which they were sent.
    pub fn prepare_run_request(&mut self) -> (r: FrontendRunRequest)
        ensures
            r.start == request_start(old(self)@),
            r.start is Some <==> old(self)@.state is StartPending,
            r.messages@ == request_messages(old(self)@),
            final(self)@ == after_request(old(self)@),
    {
        let start = if self.state.is_start_pending() {
            match self.state.take_data() {
                Ok(d) => Some(d),
                Err(_) => None,
            }
        } else {
            None
        };
        let mut messages: Vec<ArbData> = Vec::new();
        let ghost queued = self.host_to_accelerator_data@;
        let ghost next_state = self.state;
        assert(next_state == after_request(old(self)@).state);
        while self.host_to_accelerator_data.len() > 0
            invariant
                messages@ + self.host_to_accelerator_data@ == queued,
                self.state == next_state,
                self.accelerator_to_host_data@ == old(self)@.to_host,
            decreases self.host_to_accelerator_data@.len(),
        {
            let ghost before = self.host_to_accelerator_data@;
            match self.host_to_accelerator_data.pop_front() {
                Some(d) => {
                    messages.push(d);
                    assert(messages@ + self.host_to_accelerator_data@ =~= queued) by {
                        assert(before =~= seq![d] + self.host_to_accelerator_data@);
                    }
                },
                None => {},
            }
        }
        assert(messages@ =~= queued);
        assert(self@.to_accel =~= Seq::<ArbData>::empty());
        FrontendRunRequest { start, messages }
    }

    /// Takes in the frontend's response to a run request: its messages are
    /// queued for `recv()` in the order produced, and a return value moves
    /// the state from `Blocked` to `WaitPending`. A return value in any
    /// other state is a protocol error.
    pub fn apply_run_response(&mut self, response: RunResponse) -> (r: Result<(), Error>)
        ensures
            final(self)@ == after_response(
                old(self)@,
                response.return_value,
                response.messages@,
            ),
            r is Ok <==> response_accepted(old(self)@, response.return_value),
            r is Err ==> r->Err_0.kind == ErrorKind::Protocol && r->Err_0.message@
                == "unexpected run() return value"@,
    {
        let RunResponse { return_value, messages } = response;
        let ghost out = messages@;
        let ghost received = self.accelerator_to_host_data@;
        let mut messages = messages;
        let n: usize = messages.len();
        let mut k: usize = 0;
        while messages.len() > 0
            invariant
                k <= out.len(),
                k + messages@.len() == out.len(),
                out.len() == n,
                messages@ == out.subrange(k as int, out.len() as int),
                self.accelerator_to_host_data@ == received + out.subrange(0, k as int),
                self.state == old(self).state,
                self.host_to_accelerator_data@ == old(self).host_to_accelerator_data@,
            decreases messages@.len(),
        {
            let d = messages.remove(0);
            self.accelerator_to_host_data.push_back(d);
            k = k + 1;
            assert(messages@ =~= out.subrange(k as int, out.len() as int));
            assert(self.accelerator_to_host_data@ =~= received + out.subrange(0, k as int));
        }
        assert(out.subrange(0, out.len() as int) =~= out);
        match return_value {
            None => Ok(()),
            Some(v) => {
                if self.state.is_blocked() {
                    let _ = self.state.put_data(v);
                    Ok(())
                } else {
                    Err(Error::new(ErrorKind::Protocol, "unexpected run() return value"))
                }
            },
        }
    }

    /// Whether a return value is waiting to be consumed.
    pub fn is_wait_pending(&self) -> (r: bool)
        ensures
            r == self@.state is WaitPending,
    {
        self.state.is_wait_pending()
    }

    /// Consumes the run function's return value; without one, the host
    /// would wait forever, which is reported as a deadlock.
    pub fn take_return_value(&mut self) -> (r: Result<ArbData, Error>)
        ensures
            (final(self)@, kind_of(r)) == take_return_outcome(old(self)@),
    {
        if self.state.is_wait_pending() {
            self.state.take_data()
        } else {
            Err(
                Error::new(
                    ErrorKind::Deadlock,
                    "Deadlock: accelerator is blocked on recv() while we are expecting it to return",
                ),
            )
        }
    }

    /// Consumes the oldest received message; without one, the host would
    /// wait forever, which is reported as a deadlock.
    pub fn take_message(&mut self) -> (r: Result<ArbData, Error>)
        ensures
            (final(self)@, kind_of(r)) == take_message_outcome(old(self)@),
    {
        match self.accelerator_to_host_data.pop_front() {
            Some(d) => {
                assert(self.accelerator_to_host_data@ =~= old(self)@.to_host.drop_first());
                Ok(d)
            },
            None => Err(
                Error::new(
                    ErrorKind::Deadlock,
                    "Deadlock: recv() called while queue is empty and accelerator is idle",
                ),
            ),
        }
    }
}

} // verus!
