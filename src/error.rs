//! Error model of the simulation core.

use vstd::prelude::*;
use vstd::string::*;

verus! {

/// Classification of the ways an operation can fail.
#[derive(Clone, Copy, Debug, PartialEq, Eq, Structural)]
pub enum ErrorKind {
    /// The caller passed an invalid argument.
    InvArg,
    /// The arguments are legal, but the operation is not allowed in the
    /// current state.
    InvOp,
    /// A peer violated the RPC contract.
    Protocol,
    /// The host and the accelerator are waiting on each other.
    Deadlock,
    /// A plugin failed while spawning, initializing, connecting or
    /// handling a request.
    PluginFailure,
    /// A transport or operating-system failure.
    Io,
}

/// An error: its kind and a human-readable message.
#[derive(Clone, Debug)]
pub struct Error {
    pub kind: ErrorKind,
    pub message: String,
}

impl Error {
    /// Constructs an error of the given kind.
    pub fn new(kind: ErrorKind, message: &str) -> (r: Error)
        ensures
            r.kind == kind,
            r.message@ == message@,
    {
        Error { kind, message: String::from_str(message) }
    }

    /// Returns the message of this error.
    pub fn to_string(&self) -> (r: String)
        ensures
            r@ == self.message@,
    {
        self.message.clone()
    }
}

/// `parts` joined with `"; "` between consecutive elements.
pub open spec fn joined(parts: Seq<Seq<char>>) -> Seq<char>
    decreases parts.len(),
{
    if parts.len() == 0 {
        Seq::empty()
    } else if parts.len() == 1 {
        parts[0]
    } else {
        joined(parts.drop_last()) + "; "@ + parts.last()
    }
}

/// The views of a vector of strings.
pub open spec fn views(v: Seq<String>) -> Seq<Seq<char>> {
    v.map_values(|s: String| s@)
}

/// Joins messages with `"; "`, one per failed item.
pub fn join_messages(parts: &Vec<String>) -> (r: String)
    ensures
        r@ == joined(views(parts@)),
{
    let mut out = String::new();
    let mut i: usize = 0;
    while i < parts.len()
        invariant
            i <= parts.len(),
            out@ == joined(views(parts@.subrange(0, i as int))),
        decreases parts.len() - i,
    {
        proof {
            reveal_strlit("; ");
            let pre = parts@.subrange(0, i as int);
            let post = parts@.subrange(0, i as int + 1);
            assert(post.drop_last() =~= pre);
            assert(views(post).drop_last() =~= views(pre));
        }
        if i > 0 {
            out.append("; ");
        }
        out.append(parts[i].as_str());
        i = i + 1;
    }
    assert(parts@.subrange(0, parts.len() as int) =~= parts@);
    out
}

} // verus!
