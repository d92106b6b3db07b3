//! Positive machine integers.

use vstd::prelude::*;

verus! {

/// A strictly positive machine integer, used for de Bruijn indices and arities.
#[derive(Clone, Copy, Debug, PartialEq, Eq)]
pub struct Positive(usize);

impl View for Positive {
    type V = nat;

    closed spec fn view(&self) -> nat {
        self.0 as nat
    }
}

impl Positive {
    #[verifier::type_invariant]
    spec fn positive(self) -> bool {
        self.0 >= 1
    }

    /// Wraps `n`, or returns `None` when `n` is zero.
    pub fn new(n: usize) -> (r: Option<Positive>)
        ensures
            n == 0 ==> r is None,
            n > 0 ==> r is Some && r->0@ == n,
    {
        if n == 0 {
            None
        } else {
            Some(Positive(n))
        }
    }

    /// The number one.
    pub fn one() -> (r: Positive)
        ensures
            r@ == 1,
    {
        Positive(1)
    }

    /// The wrapped integer, which is never zero.
    pub fn get(self) -> (n: usize)
        ensures
            n == self@,
            n >= 1,
    {
        proof {
            use_type_invariant(&self);
        }
        self.0
    }
}

} // verus!
