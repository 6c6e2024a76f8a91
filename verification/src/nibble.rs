//! Unsigned four-bit values, the width of every data signal of the circuit.

use vstd::prelude::*;

verus! {

/// Number of bits in a [`Nibble`].
pub const WIDTH: u32 = 4;

/// Number of distinct values of a [`Nibble`]: two to the power of [`WIDTH`].
pub const DOMAIN_SIZE: u8 = 16;

/// An unsigned value of four bits, `0..=15`.
///
/// The field is private, so every value in executable code was built by
/// [`Nibble::new`] or [`Nibble::default`] and lies in range.
#[derive(Clone, Copy, Debug, PartialEq, Eq, Structural)]
pub struct Nibble {
    value: u8,
}

impl View for Nibble {
    type V = nat;

    /// The number that the four bits encode.
    closed spec fn view(&self) -> nat {
        self.value as nat
    }
}

impl Nibble {
    #[verifier::type_invariant]
    spec fn in_range(self) -> bool {
        self.value < DOMAIN_SIZE
    }

    /// A value is well formed when it fits in four bits. Executable values
    /// always are; a value that a proof quantifies over has to be told so.
    pub open spec fn wf(self) -> bool {
        self@ < DOMAIN_SIZE
    }

    /// The nibble that encodes `value`, or `None` when `value` needs more
    /// than four bits.
    pub fn new(value: u8) -> (n: Option<Nibble>)
        ensures
            n is Some <==> value < DOMAIN_SIZE,
            n matches Some(x) ==> x@ == value && x.wf(),
    {
        if value < DOMAIN_SIZE {
            Some(Nibble { value })
        } else {
            None
        }
    }

    /// The number that the four bits encode.
    pub fn value(&self) -> (v: u8)
        ensures
            v == self@,
            v < DOMAIN_SIZE,
    {
        proof {
            use_type_invariant(self);
        }
        self.value
    }

    /// Two nibbles that encode the same number are the same nibble.
    pub proof fn lemma_equal_by_value(a: Nibble, b: Nibble)
        requires
            a@ == b@,
        ensures
            a == b,
    {
    }
}

impl Default for Nibble {
    /// All four bits clear.
    fn default() -> (n: Nibble)
        ensures
            n@ == 0,
            n.wf(),
    {
        Nibble { value: 0 }
    }
}

} // verus!
