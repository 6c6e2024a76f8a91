//! Stimulus for verification: every input the circuit can see, each paired
//! with the output that is expected for it.

use vstd::prelude::*;
use crate::circuit::LedController;
use crate::nibble::{Nibble, DOMAIN_SIZE};

verus! {

/// One test case: the input to apply and the output expected one clock
/// edge later.
#[derive(Clone, Copy, Debug, PartialEq, Eq, Structural)]
pub struct StimulusVector {
    /// The value to put on the circuit's input.
    pub input: Nibble,
    /// The value the output must show after the next clock edge.
    pub expected: Nibble,
}

/// The stimulus sequence is this and nothing else: sixteen vectors, the one
/// at index `i` applying `i` and expecting `i`.
pub open spec fn is_stimulus_sequence(s: Seq<StimulusVector>) -> bool {
    &&& s.len() == DOMAIN_SIZE
    &&& forall|i: int|
        0 <= i < s.len() ==> (#[trigger] s[i]).input@ == i && s[i].expected@ == i
}

/// Builds the stimulus sequence. It takes no input and draws on nothing
/// outside itself, so every call gives the same sequence.
pub fn stimulus_sequence() -> (vectors: Vec<StimulusVector>)
    ensures
        is_stimulus_sequence(vectors@),
{
    let mut vectors: Vec<StimulusVector> = Vec::new();
    let mut n: u8 = 0;
    while n < DOMAIN_SIZE
        invariant
            n <= DOMAIN_SIZE,
            vectors@.len() == n,
            forall|i: int|
                0 <= i < n ==> (#[trigger] vectors@[i]).input@ == i && vectors@[i].expected@ == i,
        decreases DOMAIN_SIZE - n,
    {
        let value = Nibble::new(n).unwrap();
        vectors.push(StimulusVector { input: value, expected: value });
        n = n + 1;
    }
    vectors
}

/// The sequence covers the input domain: every four-bit value is applied,
/// and it is applied at the index equal to its number and nowhere else.
pub proof fn lemma_stimulus_exhaustive(s: Seq<StimulusVector>, v: Nibble)
    requires
        is_stimulus_sequence(s),
        v.wf(),
    ensures
        s[v@ as int].input == v,
        forall|i: int| 0 <= i < s.len() && s[i].input == v ==> i == v@,
{
    Nibble::lemma_equal_by_value(s[v@ as int].input, v);
}

/// Inputs come in ascending order, so no input occurs twice.
pub proof fn lemma_stimulus_ascending(s: Seq<StimulusVector>, i: int, j: int)
    requires
        is_stimulus_sequence(s),
        0 <= i < j < s.len(),
    ensures
        s[i].input@ < s[j].input@,
        s[i].input != s[j].input,
{
}

/// Every vector expects what the circuit's update rule gives for its
/// input.
pub proof fn lemma_stimulus_expects_rule(s: Seq<StimulusVector>, i: int)
    requires
        is_stimulus_sequence(s),
        0 <= i < s.len(),
    ensures
        s[i].expected == LedController::next_leds(s[i].input),
{
    Nibble::lemma_equal_by_value(s[i].expected, s[i].input);
}

/// There is one stimulus sequence: two sequences that both qualify are
/// equal, vector for vector.
pub proof fn lemma_stimulus_unique(a: Seq<StimulusVector>, b: Seq<StimulusVector>)
    requires
        is_stimulus_sequence(a),
        is_stimulus_sequence(b),
    ensures
        a == b,
{
    assert forall|i: int| 0 <= i < a.len() implies a[i] == b[i] by {
        Nibble::lemma_equal_by_value(a[i].input, b[i].input);
        Nibble::lemma_equal_by_value(a[i].expected, b[i].expected);
    }
    assert(a =~= b);
}

} // verus!
