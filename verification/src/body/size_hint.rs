//! An estimate of how many content bytes are still to come.

use vstd::prelude::*;

verus! {

/// A lower bound and, where one is known, an upper bound on the number of
/// content bytes that a body has left. The lower bound never lies above the
/// upper one.
#[derive(Debug, Clone, Copy)]
pub struct SizeHint {
    lower: u64,
    upper: Option<u64>,
}

impl SizeHint {
    #[verifier::type_invariant]
    spec fn ordered(self) -> bool {
        self.upper matches Some(upper) ==> self.lower <= upper
    }

    /// The lower bound.
    pub closed spec fn spec_lower(&self) -> u64 {
        self.lower
    }

    /// The upper bound, if one is known.
    pub closed spec fn spec_upper(&self) -> Option<u64> {
        self.upper
    }

    /// Whether the bounds are in order. It holds of every hint that exists.
    pub open spec fn in_order(&self) -> bool {
        self.upper() matches Some(upper) ==> self.lower() <= upper
    }

    /// The hint that knows nothing: at least 0 bytes, no upper bound.
    pub fn new() -> (hint: Self)
        ensures
            hint.lower() == 0,
            hint.upper() is None,
    {
        SizeHint { lower: 0, upper: None }
    }

    /// The hint of exactly `value` bytes.
    pub fn with_exact(value: u64) -> (hint: Self)
        ensures
            hint.lower() == value,
            hint.upper() == Some(value),
    {
        SizeHint { lower: value, upper: Some(value) }
    }

    #[verifier::when_used_as_spec(spec_lower)]
    pub fn lower(&self) -> (lower: u64)
        ensures
            lower == self.lower(),
    {
        self.lower
    }

    #[verifier::when_used_as_spec(spec_upper)]
    pub fn upper(&self) -> (upper: Option<u64>)
        ensures
            upper == self.upper(),
            upper matches Some(u) ==> self.lower() <= u,
    {
        proof {
            use_type_invariant(self);
        }
        self.upper
    }

    /// The exact number of bytes, where both bounds agree.
    pub fn exact(&self) -> (exact: Option<u64>)
        ensures
            exact == (if self.upper() == Some(self.lower()) {
                Some(self.lower())
            } else {
                None
            }),
    {
        if Some(self.lower) == self.upper {
            self.upper
        } else {
            None
        }
    }

    /// Sets the lower bound. It may not pass the upper bound.
    pub fn set_lower(&mut self, value: u64)
        requires
            old(self).upper() matches Some(upper) ==> value <= upper,
        ensures
            final(self).lower() == value,
            final(self).upper() == old(self).upper(),
    {
        self.lower = value;
    }

    /// Sets the upper bound. It may not fall below the lower bound.
    pub fn set_upper(&mut self, value: u64)
        requires
            old(self).lower() <= value,
        ensures
            final(self).lower() == old(self).lower(),
            final(self).upper() == Some(value),
    {
        self.upper = Some(value);
    }

    /// Sets both bounds to `value`.
    pub fn set_exact(&mut self, value: u64)
        ensures
            final(self).lower() == value,
            final(self).upper() == Some(value),
    {
        *self = SizeHint { lower: value, upper: Some(value) };
    }
}

impl Default for SizeHint {
    fn default() -> (hint: Self)
        ensures
            hint.lower() == 0,
            hint.upper() is None,
    {
        SizeHint::new()
    }
}

} // verus!
