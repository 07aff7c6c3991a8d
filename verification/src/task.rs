//! The pull protocol shared by operations and bodies.

use core::task::Context;
use vstd::prelude::*;

verus! {

/// The waker context that a driver hands down with every pull. Nothing in
/// this library looks inside it: it is passed on to the innermost operation
/// or body, which is the only place where suspension happens.
#[verifier::external_type_specification]
#[verifier::external_body]
pub struct ExContext<'a>(Context<'a>);

/// What one pull reports: the value, or that it is not there yet.
#[derive(Debug, PartialEq, Eq)]
pub enum Poll<T> {
    Ready(T),
    Pending,
}

impl<T> Poll<T> {
    /// Whether the pull produced its value.
    pub fn is_ready(&self) -> (b: bool)
        ensures
            b == (*self is Ready),
    {
        match self {
            Poll::Ready(_) => true,
            Poll::Pending => false,
        }
    }

    /// Whether the pull has to be repeated later.
    pub fn is_pending(&self) -> (b: bool)
        ensures
            b == (*self is Pending),
    {
        match self {
            Poll::Ready(_) => false,
            Poll::Pending => true,
        }
    }
}

/// An asynchronous computation owned by its caller. It resolves exactly
/// once; a driver pulls it until it reports `Ready`.
pub trait Operation {
    type Output;

    /// Whether the operation may be pulled: it is well formed and has not
    /// resolved yet. Pulling a resolved operation is a caller's error, which
    /// `poll` rules out by demanding this.
    spec fn pollable(&self) -> bool;

    /// Whether `v` is a value this operation may still resolve to.
    spec fn admits(&self, v: Self::Output) -> bool;

    /// Whether the operation is certain not to be ready at the next pull:
    /// what it waits for is not there yet.
    spec fn stalls(&self) -> bool;

    /// Whether the operation may not be ready at the next pull. Where the
    /// next pull is decided by the state alone, this is `stalls`; an
    /// operation that runs a follow-up may also wait for what the follow-up
    /// starts.
    spec fn may_stall(&self) -> bool;

    /// Pulls the operation once. `Ready(v)` hands out a value the operation
    /// admitted and leaves it resolved; `Pending` leaves it pollable and
    /// admits no value it did not admit before. The pull reports `Pending`
    /// whenever the operation stalls, and only when it may stall.
    fn poll(&mut self, cx: &mut Context<'_>) -> (out: Poll<Self::Output>)
        requires
            old(self).pollable(),
        ensures
            match out {
                Poll::Ready(v) => old(self).admits(v) && !final(self).pollable(),
                Poll::Pending => final(self).pollable() && forall|v: Self::Output|
                    final(self).admits(v) ==> old(self).admits(v),
            },
            old(self).stalls() ==> out is Pending,
            out is Pending ==> old(self).may_stall(),
    ;
}

/// An operation that holds its value from the start and hands it out at the
/// first pull.
pub struct Ready<T> {
    pub value: Option<T>,
}

/// Makes an operation that resolves to `value` at once.
pub fn ready<T>(value: T) -> (op: Ready<T>)
    ensures
        op.value == Some(value),
{
    Ready { value: Some(value) }
}

impl<T> Operation for Ready<T> {
    type Output = T;

    open spec fn pollable(&self) -> bool {
        self.value is Some
    }

    open spec fn admits(&self, v: T) -> bool {
        self.value == Some(v)
    }

    open spec fn stalls(&self) -> bool {
        false
    }

    open spec fn may_stall(&self) -> bool {
        false
    }

    fn poll(&mut self, cx: &mut Context<'_>) -> (out: Poll<T>)
        ensures
            old(self).value matches Some(v) ==> out == Poll::Ready(v),
            final(self).value is None,
    {
        match self.value.take() {
            Some(v) => Poll::Ready(v),
            None => Poll::Pending,
        }
    }
}

} // verus!
