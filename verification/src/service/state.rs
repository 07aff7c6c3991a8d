//! The state shared by the two-phase operations.

use crate::task::Operation;
use vstd::prelude::*;

verus! {

/// Where a two-phase operation stands. It starts in `A`, moves to `B` when
/// the follow-up function is run on the first outcome, and to `Empty` when
/// the second operation resolves. It never moves back.
#[allow(inconsistent_fields)]
pub enum State<Fut1, Fut2> {
    /// The first operation is running.
    A { fut: Fut1 },
    /// The operation that the follow-up produced is running.
    B { fut: Fut2 },
    /// The second operation has resolved.
    Empty,
}

impl<Fut1, Fut2> State<Fut1, Fut2> {
    /// Whether the follow-up function has been run.
    pub open spec fn followed_up(&self) -> bool {
        !(*self is A)
    }
}

/// Whether the follow-up `f` may be run on `r` and then gives an operation
/// that can be pulled.
pub open spec fn follows<R, F: Fn(R) -> Fut, Fut: Operation>(f: &F, r: R) -> bool {
    call_requires(*f, (r,)) && forall|next: Fut| call_ensures(*f, (r,), next) ==> next.pollable()
}

} // verus!
