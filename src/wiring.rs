//! Wiring a pipeline: spawn every plugin, initialize them back to front,
//! then let every plugin but the frontend accept its upstream neighbour.

use vstd::prelude::*;
use crate::error::{Error, ErrorKind, joined, views};
use crate::pipeline::{PluginCall, PluginPipeline};
use crate::plugin::Plugin;
use crate::simulation::{aggregate_failures, failure_label};
use crate::types::PluginMetadata;

verus! {

/// The plugin position of a call.
pub open spec fn call_index(c: PluginCall) -> int {
    match c {
        PluginCall::Name { index, .. } => index,
        PluginCall::Spawn { index, .. } => index,
        PluginCall::Init { index, .. } => index,
        PluginCall::Accept { index, .. } => index,
        PluginCall::Rpc { index, .. } => index,
    }
}

/// The error a spawn, init or accept call returned, if any.
pub open spec fn call_error(c: PluginCall) -> Option<Error> {
    match c {
        PluginCall::Spawn { result: Err(e), .. } => Some(e),
        PluginCall::Init { result: Err(e), .. } => Some(e),
        PluginCall::Accept { result: Err(e), .. } => Some(e),
        _ => None,
    }
}

/// One `name: message` label per failed call of `cs`, in order.
pub open spec fn failure_labels(names: Seq<Seq<char>>, cs: Seq<PluginCall>) -> Seq<Seq<char>>
    decreases cs.len(),
{
    if cs.len() == 0 {
        Seq::empty()
    } else {
        let rest = failure_labels(names, cs.drop_last());
        match call_error(cs.last()) {
            Some(e) => rest.push(names[call_index(cs.last())] + ": "@ + e.message@),
            None => rest,
        }
    }
}

/// The endpoint handed to the init that follows call `c`: the upstream
/// endpoint `c` returned, or, if it failed, the one it was handed.
pub open spec fn downstream_after(c: PluginCall) -> Option<String> {
    match c {
        PluginCall::Init { result: Ok(res), .. } => res.upstream,
        PluginCall::Init { downstream, .. } => downstream,
        _ => None,
    }
}

/// The metadata an init call returned.
pub open spec fn init_metadata(c: PluginCall) -> PluginMetadata {
    match c {
        PluginCall::Init { result: Ok(res), .. } => res.metadata,
        _ => arbitrary(),
    }
}

/// `cs` spawns the `n` plugins front to back.
pub open spec fn spawn_phase(n: int, cs: Seq<PluginCall>) -> bool {
    &&& cs.len() == n
    &&& forall|k: int|
        0 <= k < n ==> #[trigger] cs[k] is Spawn && call_index(cs[k]) == k
}

/// `cs` initializes the `n` plugins back to front, the backend with no
/// downstream endpoint and every other plugin with the endpoint its
/// downstream neighbour returned.
pub open spec fn init_phase(n: int, cs: Seq<PluginCall>) -> bool {
    &&& cs.len() == n
    &&& forall|k: int|
        0 <= k < n ==> {
            &&& #[trigger] cs[k] is Init
            &&& call_index(cs[k]) == n - 1 - k
            &&& cs[k]->Init_downstream == if k == 0 {
                None
            } else {
                downstream_after(cs[k - 1])
            }
        }
}

/// `cs` lets the `n - 1` plugins behind the frontend accept their upstream
/// neighbour, back to front.
pub open spec fn accept_phase(n: int, cs: Seq<PluginCall>) -> bool {
    &&& cs.len() == n - 1
    &&& forall|k: int|
        0 <= k < n - 1 ==> #[trigger] cs[k] is Accept && call_index(cs[k]) == n - 1 - k
}

/// `cs` is the whole sequence of calls that wiring `n` plugins makes: all
/// spawns; then, only if none failed, all inits; then, only if none
/// failed, all accepts.
#[verifier::opaque]
pub open spec fn wiring_calls(n: int, names: Seq<Seq<char>>, cs: Seq<PluginCall>) -> bool {
    &&& cs.len() >= n
    &&& spawn_phase(n, cs.subrange(0, n))
    &&& if failure_labels(names, cs.subrange(0, n)).len() > 0 {
        cs.len() == n
    } else {
        &&& cs.len() >= 2 * n
        &&& init_phase(n, cs.subrange(n, 2 * n))
        &&& if failure_labels(names, cs.subrange(n, 2 * n)).len() > 0 {
            cs.len() == 2 * n
        } else {
            cs.len() == 3 * n - 1 && accept_phase(n, cs.subrange(2 * n, 3 * n - 1))
        }
    }
}

/// What wiring yields, given its calls: the first phase with failures
/// gives its message, the failures joined with `"; "`; otherwise the
/// metadata the inits returned, in pipeline order.
#[verifier::opaque]
pub open spec fn wiring_outcome(n: int, names: Seq<Seq<char>>, cs: Seq<PluginCall>) -> Result<
    Seq<PluginMetadata>,
    Seq<char>,
> {
    let spawns = failure_labels(names, cs.subrange(0, n));
    let inits = failure_labels(names, cs.subrange(n, 2 * n));
    let accepts = failure_labels(names, cs.subrange(2 * n, 3 * n - 1));
    if spawns.len() > 0 {
        Err("Failed to spawn plugin(s): "@ + joined(spawns))
    } else if inits.len() > 0 {
        Err("Failed to initialize plugin(s): "@ + joined(inits))
    } else if accepts.len() > 0 {
        Err("Failed to initialize plugin(s): "@ + joined(accepts))
    } else {
        Ok(Seq::new(n as nat, |i: int| init_metadata(cs[2 * n - 1 - i])))
    }
}

proof fn lemma_labels_step(names: Seq<Seq<char>>, cs: Seq<PluginCall>, a: int, b: int)
    requires
        0 <= a <= b < cs.len(),
    ensures
        failure_labels(names, cs.subrange(a, b + 1)) == match call_error(cs[b]) {
            Some(e) => failure_labels(names, cs.subrange(a, b)).push(
                names[call_index(cs[b])] + ": "@ + e.message@,
            ),
            None => failure_labels(names, cs.subrange(a, b)),
        },
{
    assert(cs.subrange(a, b + 1).drop_last() =~= cs.subrange(a, b));
}

proof fn lemma_wiring_spawn_failed(n: int, names: Seq<Seq<char>>, s: Seq<PluginCall>)
    requires
        n >= 1,
        spawn_phase(n, s),
        failure_labels(names, s).len() > 0,
    ensures
        wiring_calls(n, names, s),
        wiring_outcome(n, names, s) == Err::<Seq<PluginMetadata>, Seq<char>>(
            "Failed to spawn plugin(s): "@ + joined(failure_labels(names, s)),
        ),
{
    reveal(wiring_calls);
    reveal(wiring_outcome);
    assert(s.subrange(0, n) =~= s);
}

proof fn lemma_wiring_init_failed(
    n: int,
    names: Seq<Seq<char>>,
    s: Seq<PluginCall>,
    i: Seq<PluginCall>,
)
    requires
        n >= 1,
        spawn_phase(n, s),
        failure_labels(names, s).len() == 0,
        init_phase(n, i),
        failure_labels(names, i).len() > 0,
    ensures
        wiring_calls(n, names, s + i),
        wiring_outcome(n, names, s + i) == Err::<Seq<PluginMetadata>, Seq<char>>(
            "Failed to initialize plugin(s): "@ + joined(failure_labels(names, i)),
        ),
{
    reveal(wiring_calls);
    reveal(wiring_outcome);
    assert((s + i).subrange(0, n) =~= s);
    assert((s + i).subrange(n, 2 * n) =~= i);
}

proof fn lemma_wiring_accepted(
    n: int,
    names: Seq<Seq<char>>,
    s: Seq<PluginCall>,
    i: Seq<PluginCall>,
    a: Seq<PluginCall>,
)
    requires
        n >= 1,
        spawn_phase(n, s),
        failure_labels(names, s).len() == 0,
        init_phase(n, i),
        failure_labels(names, i).len() == 0,
        accept_phase(n, a),
    ensures
        wiring_calls(n, names, s + i + a),
        wiring_outcome(n, names, s + i + a) == if failure_labels(names, a).len() > 0 {
            Err::<Seq<PluginMetadata>, Seq<char>>(
                "Failed to initialize plugin(s): "@ + joined(failure_labels(names, a)),
            )
        } else {
            Ok(Seq::new(n as nat, |j: int| init_metadata(i[n - 1 - j])))
        },
{
    reveal(wiring_calls);
    reveal(wiring_outcome);
    let cs = s + i + a;
    assert(cs.subrange(0, n) =~= s);
    assert(cs.subrange(n, 2 * n) =~= i);
    assert(cs.subrange(2 * n, 3 * n - 1) =~= a);
    assert(Seq::new(n as nat, |j: int| init_metadata(cs[2 * n - 1 - j])) =~= Seq::new(
        n as nat,
        |j: int| init_metadata(i[n - 1 - j]),
    ));
}

/// The calls made since a pipeline had `before` calls.
pub open spec fn calls_since(after: Seq<PluginCall>, before: Seq<PluginCall>) -> Seq<PluginCall> {
    after.subrange(before.len() as int, after.len() as int)
}

proof fn lemma_since_concat(a: Seq<PluginCall>, b: Seq<PluginCall>, c: Seq<PluginCall>)
    requires
        a.len() <= b.len() <= c.len(),
        b.subrange(0, a.len() as int) == a,
        c.subrange(0, b.len() as int) == b,
    ensures
        c.subrange(0, a.len() as int) == a,
        calls_since(c, a) == calls_since(b, a) + calls_since(c, b),
{
    assert(c.subrange(0, a.len() as int) =~= b.subrange(0, a.len() as int));
    assert(calls_since(c, a) =~= calls_since(b, a) + calls_since(c, b));
}

/// Spawns every plugin, front to back, and returns the failure labels.
fn spawn_all<P: Plugin>(p: &mut PluginPipeline<P>) -> (failures: Vec<String>)
    requires
        old(p).wf(),
        old(p).plugins().len() == old(p).names().len(),
    ensures
        final(p).wf(),
        final(p).names() == old(p).names(),
        final(p).plugins().len() == old(p).plugins().len(),
        final(p).calls().len() == old(p).calls().len() + old(p).names().len(),
        final(p).calls().subrange(0, old(p).calls().len() as int) == old(p).calls(),
        spawn_phase(old(p).names().len() as int, calls_since(final(p).calls(), old(p).calls())),
        views(failures@) == failure_labels(
            old(p).names(),
            calls_since(final(p).calls(), old(p).calls()),
        ),
{
    let n = p.running();
    let ghost c0 = p.calls().len() as int;
    let ghost names = p.names();
    let mut failures: Vec<String> = Vec::new();
    let mut i: usize = 0;
    while i < n
        invariant
            p.wf(),
            c0 == old(p).calls().len(),
            names == old(p).names(),
            n == p.plugins().len(),
            n == names.len(),
            p.names() == names,
            i <= n,
            p.calls().len() == c0 + i,
            p.calls().subrange(0, c0) == old(p).calls(),
            forall|k: int|
                0 <= k < i ==> #[trigger] p.calls()[c0 + k] is Spawn && call_index(p.calls()[c0 + k])
                    == k,
            views(failures@) == failure_labels(names, p.calls().subrange(c0, c0 + i)),
        decreases n - i,
    {
        let ghost before = p.calls();
        let r = p.spawn(i);
        proof {
            lemma_labels_step(names, p.calls(), c0, c0 + i);
            assert(p.calls().subrange(c0, c0 + i) =~= before.subrange(c0, c0 + i));
            assert(p.calls().subrange(0, c0) =~= before.subrange(0, c0));
        }
        match r {
            Ok(()) => {},
            Err(e) => {
                let label = failure_label(&p.names_vec()[i], &e);
                failures.push(label);
                proof {
                    assert(views(failures@) =~= views(failures@.drop_last()).push(label@));
                }
            },
        }
        i = i + 1;
    }
    let ghost spawns = p.calls().subrange(c0, c0 + n);
    assert forall|k: int| 0 <= k < n implies #[trigger] spawns[k] is Spawn && call_index(spawns[k])
        == k by {
        assert(spawns[k] == p.calls()[c0 + k]);
    }
    failures
}

/// Initializes every plugin, back to front, threading the endpoints.
/// Returns the failure labels and the metadata of the successful inits,
/// in walk order.
#[verifier::rlimit(100)]
fn init_all<P: Plugin>(p: &mut PluginPipeline<P>) -> (r: (Vec<String>, Vec<PluginMetadata>))
    requires
        old(p).wf(),
        old(p).plugins().len() == old(p).names().len(),
    ensures
        final(p).wf(),
        final(p).names() == old(p).names(),
        final(p).plugins().len() == old(p).plugins().len(),
        final(p).calls().len() == old(p).calls().len() + old(p).names().len(),
        final(p).calls().subrange(0, old(p).calls().len() as int) == old(p).calls(),
        init_phase(old(p).names().len() as int, calls_since(final(p).calls(), old(p).calls())),
        views(r.0@) == failure_labels(old(p).names(), calls_since(final(p).calls(), old(p).calls())),
        r.0@.len() == 0 ==> r.1@.len() == old(p).names().len() && forall|j: int|
            0 <= j < r.1@.len() ==> r.1@[j] == init_metadata(
                #[trigger] calls_since(final(p).calls(), old(p).calls())[j],
            ),
{
    let n = p.running();
    let ghost c1 = p.calls().len() as int;
    let ghost names = p.names();
    let mut failures: Vec<String> = Vec::new();
    let mut downstream: Option<String> = None;
    let mut collected: Vec<PluginMetadata> = Vec::new();
    let mut k: usize = 0;
    while k < n
        invariant
            p.wf(),
            c1 == old(p).calls().len(),
            names == old(p).names(),
            n == p.plugins().len(),
            n == names.len(),
            p.names() == names,
            k <= n,
            p.calls().len() == c1 + k,
            p.calls().subrange(0, c1) == old(p).calls(),
            forall|j: int|
                0 <= j < k ==> {
                    &&& #[trigger] p.calls()[c1 + j] is Init
                    &&& call_index(p.calls()[c1 + j]) == n - 1 - j
                    &&& p.calls()[c1 + j]->Init_downstream == if j == 0 {
                        None
                    } else {
                        downstream_after(p.calls()[c1 + j - 1])
                    }
                },
            downstream == if k == 0 {
                None
            } else {
                downstream_after(p.calls()[c1 + k - 1])
            },
            views(failures@) == failure_labels(names, p.calls().subrange(c1, c1 + k)),
            failures@.len() == 0 ==> collected@.len() == k && forall|j: int|
                0 <= j < k ==> collected@[j] == init_metadata(#[trigger] p.calls()[c1 + j]),
        decreases n - k,
    {
        let ghost before = p.calls();
        let i = n - 1 - k;
        let r = p.init(i, &downstream);
        proof {
            lemma_labels_step(names, p.calls(), c1, c1 + k);
            assert(p.calls().subrange(c1, c1 + k) =~= before.subrange(c1, c1 + k));
            assert(p.calls().subrange(0, c1) =~= before.subrange(0, c1));
        }
        match r {
            Ok(res) => {
                downstream = res.upstream;
                collected.push(res.metadata);
            },
            Err(e) => {
                let label = failure_label(&p.names_vec()[i], &e);
                failures.push(label);
                proof {
                    assert(views(failures@) =~= views(failures@.drop_last()).push(label@));
                }
            },
        }
        k = k + 1;
    }
    let ghost inits = p.calls().subrange(c1, c1 + n);
    assert forall|j: int| 0 <= j < n implies {
        &&& #[trigger] inits[j] is Init
        &&& call_index(inits[j]) == n - 1 - j
        &&& inits[j]->Init_downstream == if j == 0 {
            None
        } else {
            downstream_after(inits[j - 1])
        }
    } by {
        assert(inits[j] == p.calls()[c1 + j]);
        if j > 0 {
            assert(inits[j - 1] == p.calls()[c1 + j - 1]);
        }
    }
    if failures.len() == 0 {
        assert forall|j: int| 0 <= j < n implies collected@[j] == init_metadata(#[trigger] inits[j]) by {
            assert(inits[j] == p.calls()[c1 + j]);
        }
    }
    (failures, collected)
}

/// Lets every plugin but the frontend accept its upstream neighbour, back
/// to front, and returns the failure labels.
fn accept_all<P: Plugin>(p: &mut PluginPipeline<P>) -> (failures: Vec<String>)
    requires
        old(p).wf(),
        old(p).plugins().len() == old(p).names().len(),
        old(p).plugins().len() >= 1,
    ensures
        final(p).wf(),
        final(p).names() == old(p).names(),
        final(p).plugins().len() == old(p).plugins().len(),
        final(p).calls().len() == old(p).calls().len() + old(p).names().len() - 1,
        final(p).calls().subrange(0, old(p).calls().len() as int) == old(p).calls(),
        accept_phase(old(p).names().len() as int, calls_since(final(p).calls(), old(p).calls())),
        views(failures@) == failure_labels(
            old(p).names(),
            calls_since(final(p).calls(), old(p).calls()),
        ),
{
    let n = p.running();
    let ghost c2 = p.calls().len() as int;
    let ghost names = p.names();
    let mut failures: Vec<String> = Vec::new();
    let mut k: usize = 0;
    while k + 1 < n
        invariant
            p.wf(),
            c2 == old(p).calls().len(),
            names == old(p).names(),
            n == p.plugins().len(),
            n == names.len(),
            n >= 1,
            p.names() == names,
            k + 1 <= n,
            p.calls().len() == c2 + k,
            p.calls().subrange(0, c2) == old(p).calls(),
            forall|j: int|
                0 <= j < k ==> #[trigger] p.calls()[c2 + j] is Accept && call_index(p.calls()[c2 + j])
                    == n - 1 - j,
            views(failures@) == failure_labels(names, p.calls().subrange(c2, c2 + k)),
        decreases n - k,
    {
        let ghost before = p.calls();
        let i = n - 1 - k;
        let r = p.accept_upstream(i);
        proof {
            lemma_labels_step(names, p.calls(), c2, c2 + k);
            assert(p.calls().subrange(c2, c2 + k) =~= before.subrange(c2, c2 + k));
            assert(p.calls().subrange(0, c2) =~= before.subrange(0, c2));
        }
        match r {
            Ok(()) => {},
            Err(e) => {
                let label = failure_label(&p.names_vec()[i], &e);
                failures.push(label);
                proof {
                    assert(views(failures@) =~= views(failures@.drop_last()).push(label@));
                }
            },
        }
        k = k + 1;
    }
    let ghost accepts = p.calls().subrange(c2, c2 + n - 1);
    assert forall|j: int| 0 <= j < n - 1 implies #[trigger] accepts[j] is Accept && call_index(
        accepts[j],
    ) == n - 1 - j by {
        assert(accepts[j] == p.calls()[c2 + j]);
    }
    failures
}

/// `walked` in reverse order.
fn reversed(walked: Vec<PluginMetadata>) -> (r: Vec<PluginMetadata>)
    ensures
        r@.len() == walked@.len(),
        forall|j: int| 0 <= j < r@.len() ==> r@[j] == walked@[walked@.len() - 1 - j],
{
    let ghost w = walked@;
    let mut collected = walked;
    let mut metadata: Vec<PluginMetadata> = Vec::new();
    while collected.len() > 0
        invariant
            metadata@.len() + collected@.len() == w.len(),
            collected@ == w.subrange(0, collected@.len() as int),
            forall|j: int| 0 <= j < metadata@.len() ==> metadata@[j] == w[w.len() - 1 - j],
        decreases collected@.len(),
    {
        match collected.pop() {
            Some(x) => {
                metadata.push(x);
                assert(collected@ =~= w.subrange(0, collected@.len() as int));
            },
            None => {},
        }
    }
    metadata
}

/// Wires the pipeline: spawns every plugin; if none failed, initializes
/// every plugin from the backend to the frontend, threading the upstream
/// endpoint each returns into the next; if none failed, lets every plugin
/// but the frontend accept its upstream neighbour, from the back. Every
/// phase runs on all its plugins before its failures are reported, as
/// one error that joins them.
#[verifier::rlimit(100)]
#[verifier::spinoff_prover]
pub fn connect<P: Plugin>(p: &mut PluginPipeline<P>) -> (r: Result<Vec<PluginMetadata>, Error>)
    requires
        old(p).wf(),
        old(p).plugins().len() >= 1,
    ensures
        final(p).wf(),
        final(p).names() == old(p).names(),
        final(p).plugins().len() == old(p).plugins().len(),
        final(p).calls().len() >= old(p).calls().len(),
        final(p).calls().subrange(0, old(p).calls().len() as int) == old(p).calls(),
        ({
            let n = old(p).names().len() as int;
            let cs = calls_since(final(p).calls(), old(p).calls());
            &&& wiring_calls(n, old(p).names(), cs)
            &&& r matches Ok(md) ==> md@.len() == n && wiring_outcome(n, old(p).names(), cs) == Ok::<
                Seq<PluginMetadata>,
                Seq<char>,
            >(md@)
            &&& r matches Err(e) ==> e.kind == ErrorKind::PluginFailure && wiring_outcome(
                n,
                old(p).names(),
                cs,
            ) == Err::<Seq<PluginMetadata>, Seq<char>>(e.message@)
        }),
{
    let ghost old_calls = p.calls();
    let ghost names = p.names();
    let ghost n = names.len() as int;
    let failures = spawn_all(p);
    let ghost after_spawn = p.calls();
    let ghost spawns = calls_since(after_spawn, old_calls);
    if failures.len() > 0 {
        proof {
            lemma_wiring_spawn_failed(n, names, spawns);
        }
        return Err(aggregate_failures("Failed to spawn plugin(s): ", &failures));
    }
    let (failures, walked) = init_all(p);
    let ghost after_init = p.calls();
    let ghost inits = calls_since(after_init, after_spawn);
    proof {
        lemma_since_concat(old_calls, after_spawn, after_init);
    }
    if failures.len() > 0 {
        proof {
            lemma_wiring_init_failed(n, names, spawns, inits);
        }
        return Err(aggregate_failures("Failed to initialize plugin(s): ", &failures));
    }
    let failures = accept_all(p);
    let ghost accepts = calls_since(p.calls(), after_init);
    proof {
        lemma_since_concat(old_calls, after_init, p.calls());
        lemma_wiring_accepted(n, names, spawns, inits, accepts);
    }
    if failures.len() > 0 {
        return Err(aggregate_failures("Failed to initialize plugin(s): ", &failures));
    }
    let metadata = reversed(walked);
    proof {
        assert(metadata@ =~= Seq::new(n as nat, |j: int| init_metadata(inits[n - 1 - j])));
    }
    Ok(metadata)
}

} // verus!
