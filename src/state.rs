//! The run-state machine of the simulated accelerator.

use vstd::prelude::*;
use crate::error::{Error, ErrorKind};
use crate::types::ArbData;

verus! {

/// Tracks the state of the simulated accelerator.
#[derive(Debug)]
pub enum AcceleratorState {
    /// No program is running and no data is pending.
    Idle,
    /// `start()` was called, but was not yet forwarded to the frontend. The
    /// payload is the argument of the frontend's run function.
    StartPending(ArbData),
    /// The frontend's run function is running or waiting for host input;
    /// it has not returned yet.
    Blocked,
    /// The frontend's run function returned the payload, which `wait()` has
    /// not yet consumed.
    WaitPending(ArbData),
}

/// The four legal edges of the state machine.
pub open spec fn legal_edge(from: AcceleratorState, to: AcceleratorState) -> bool {
    ||| from is Idle && to is StartPending
    ||| from is StartPending && to is Blocked
    ||| from is Blocked && to is WaitPending
    ||| from is WaitPending && to is Idle
}

impl AcceleratorState {
    /// The payload that the state carries, if any.
    pub open spec fn payload(self) -> Option<ArbData> {
        match self {
            AcceleratorState::StartPending(d) => Some(d),
            AcceleratorState::WaitPending(d) => Some(d),
            _ => None,
        }
    }

    pub fn is_idle(&self) -> (r: bool)
        ensures
            r == self is Idle,
    {
        if let AcceleratorState::Idle = self {
            true
        } else {
            false
        }
    }

    pub fn is_start_pending(&self) -> (r: bool)
        ensures
            r == self is StartPending,
    {
        if let AcceleratorState::StartPending(_) = self {
            true
        } else {
            false
        }
    }

    pub fn is_blocked(&self) -> (r: bool)
        ensures
            r == self is Blocked,
    {
        if let AcceleratorState::Blocked = self {
            true
        } else {
            false
        }
    }

    pub fn is_wait_pending(&self) -> (r: bool)
        ensures
            r == self is WaitPending,
    {
        if let AcceleratorState::WaitPending(_) = self {
            true
        } else {
            false
        }
    }

    /// Consumes a data-carrying state and returns its payload.
    pub fn data(self) -> (r: ArbData)
        requires
            self.payload() is Some,
        ensures
            Some(r) == self.payload(),
    {
        match self {
            AcceleratorState::StartPending(x) => x,
            AcceleratorState::WaitPending(x) => x,
            AcceleratorState::Idle => ArbData::from_json("{}"),
            AcceleratorState::Blocked => ArbData::from_json("{}"),
        }
    }

    /// Moves to the data-carrying state that follows the current one:
    /// `Idle` becomes `StartPending(data)` and `Blocked` becomes
    /// `WaitPending(data)`. In any other state the data is refused with
    /// `InvOp` and the state is left as it was.
    pub fn put_data(&mut self, data: ArbData) -> (r: Result<(), Error>)
        ensures
            *old(self) is Idle ==> r is Ok && *final(self) == AcceleratorState::StartPending(data),
            *old(self) is Blocked ==> r is Ok && *final(self) == AcceleratorState::WaitPending(data),
            old(self).payload() is Some ==> r is Err && r->Err_0.kind == ErrorKind::InvOp
                && *final(self) == *old(self),
            r is Ok ==> legal_edge(*old(self), *final(self)),
    {
        match self {
            AcceleratorState::Idle => {
                *self = AcceleratorState::StartPending(data);
                Ok(())
            },
            AcceleratorState::StartPending(_) => Err(
                Error::new(ErrorKind::InvOp, "data is already pending"),
            ),
            AcceleratorState::Blocked => {
                *self = AcceleratorState::WaitPending(data);
                Ok(())
            },
            AcceleratorState::WaitPending(_) => Err(
                Error::new(ErrorKind::InvOp, "data is already pending"),
            ),
        }
    }

    /// Takes the pending payload out: `StartPending(d)` becomes `Blocked`
    /// and `WaitPending(d)` becomes `Idle`, both returning `d`. In any other
    /// state this fails with `InvOp` and the state is left as it was.
    pub fn take_data(&mut self) -> (r: Result<ArbData, Error>)
        ensures
            *old(self) is StartPending ==> *final(self) is Blocked,
            *old(self) is WaitPending ==> *final(self) is Idle,
            old(self).payload() is Some ==> r == Ok::<ArbData, Error>(old(self).payload()->Some_0),
            old(self).payload() is None ==> r is Err && r->Err_0.kind == ErrorKind::InvOp
                && *final(self) == *old(self),
            r is Ok ==> legal_edge(*old(self), *final(self)),
    {
        let next = if self.is_start_pending() {
            AcceleratorState::Blocked
        } else if self.is_wait_pending() {
            AcceleratorState::Idle
        } else {
            return Err(Error::new(ErrorKind::InvOp, "no data pending"));
        };
        let mut prev = next;
        core::mem::swap(self, &mut prev);
        Ok(prev.data())
    }
}

} // verus!
