//! The outcome of a verification run, and the rule that decides it: the
//! run fails at the first vector whose sampled output is not the expected
//! one, and passes when there is none.

use vstd::prelude::*;
use crate::nibble::Nibble;
use crate::stimulus::StimulusVector;

verus! {

/// A vector whose sampled output was not the expected one.
#[derive(Clone, Copy, Debug, PartialEq, Eq, Structural)]
pub struct Mismatch {
    /// Index of the clock cycle, counted from zero at the start of the run;
    /// it is also the index of the vector in the stimulus sequence.
    pub cycle: usize,
    /// The input that was applied before the clock edge.
    pub applied: Nibble,
    /// The output that was sampled after the clock edge.
    pub actual: Nibble,
    /// The output that the vector asked for.
    pub expected: Nibble,
}

/// What a verification run found.
#[derive(Clone, Copy, Debug, PartialEq, Eq, Structural)]
pub enum RunReport {
    /// Every vector was applied and every sampled output was as expected.
    Success,
    /// The run stopped at this vector, the first to disagree.
    Failed(Mismatch),
}

impl RunReport {
    /// True for a run without a mismatch. A caller that has to signal the
    /// outcome to its environment distinguishes the two by this.
    pub fn passed(&self) -> (ok: bool)
        ensures
            ok <==> *self == RunReport::Success,
    {
        match self {
            RunReport::Success => true,
            RunReport::Failed(_) => false,
        }
    }

    /// The mismatch that ended the run, if there was one.
    pub fn mismatch(&self) -> (m: Option<Mismatch>)
        ensures
            m == match *self {
                RunReport::Success => None::<Mismatch>,
                RunReport::Failed(found) => Some(found),
            },
    {
        match self {
            RunReport::Success => None,
            RunReport::Failed(found) => Some(*found),
        }
    }
}

/// The verdict on one vector: nothing when `actual` is the expected output,
/// else the mismatch with all that is known of it.
pub open spec fn judge(cycle: int, vector: StimulusVector, actual: Nibble) -> Option<Mismatch> {
    if actual == vector.expected {
        None
    } else {
        Some(
            Mismatch {
                cycle: cycle as usize,
                applied: vector.input,
                actual,
                expected: vector.expected,
            },
        )
    }
}

/// Compares the output sampled in cycle `cycle` with what `vector` expects.
pub fn check_vector(cycle: usize, vector: StimulusVector, actual: Nibble) -> (verdict: Option<
    Mismatch,
>)
    ensures
        verdict == judge(cycle as int, vector, actual),
{
    if actual == vector.expected {
        None
    } else {
        Some(Mismatch { cycle, applied: vector.input, actual, expected: vector.expected })
    }
}

/// The first mismatch of a run in which `outputs[i]` was sampled after
/// `vectors[i]` had been applied. Outputs beyond the length of `vectors`
/// play no part.
pub open spec fn first_mismatch(vectors: Seq<StimulusVector>, outputs: Seq<Nibble>) -> Option<
    Mismatch,
>
    decreases vectors.len(),
{
    if vectors.len() == 0 {
        None
    } else {
        match first_mismatch(vectors.drop_last(), outputs) {
            Some(earlier) => Some(earlier),
            None => judge(vectors.len() - 1, vectors.last(), outputs[vectors.len() - 1]),
        }
    }
}

/// The report on a run in which `outputs[i]` was sampled after `vectors[i]`
/// had been applied.
pub open spec fn report_of(vectors: Seq<StimulusVector>, outputs: Seq<Nibble>) -> RunReport {
    match first_mismatch(vectors, outputs) {
        Some(found) => RunReport::Failed(found),
        None => RunReport::Success,
    }
}

/// What [`first_mismatch`] finds is the first mismatch: it names a vector
/// whose output disagrees, every vector before it agrees, and its fields are
/// those of that vector. Where it finds nothing, every vector agrees.
pub proof fn lemma_first_mismatch_is_first(vectors: Seq<StimulusVector>, outputs: Seq<Nibble>)
    requires
        vectors.len() <= usize::MAX,
    ensures
        match first_mismatch(vectors, outputs) {
            Some(found) => {
                &&& 0 <= found.cycle < vectors.len()
                &&& outputs[found.cycle as int] != vectors[found.cycle as int].expected
                &&& forall|i: int| 0 <= i < found.cycle ==> outputs[i] == vectors[i].expected
                &&& found.applied == vectors[found.cycle as int].input
                &&& found.actual == outputs[found.cycle as int]
                &&& found.expected == vectors[found.cycle as int].expected
            },
            None => forall|i: int| 0 <= i < vectors.len() ==> outputs[i] == vectors[i].expected,
        },
    decreases vectors.len(),
{
    if vectors.len() > 0 {
        lemma_first_mismatch_is_first(vectors.drop_last(), outputs);
    }
}

/// A mismatch found in the first `k` vectors is the mismatch of the whole
/// sequence: nothing that comes after it can change the report.
pub proof fn lemma_first_mismatch_stays(
    vectors: Seq<StimulusVector>,
    outputs: Seq<Nibble>,
    k: int,
)
    requires
        0 <= k <= vectors.len(),
        first_mismatch(vectors.take(k), outputs) is Some,
    ensures
        first_mismatch(vectors, outputs) == first_mismatch(vectors.take(k), outputs),
    decreases vectors.len() - k,
{
    if k < vectors.len() {
        assert(vectors.take(k + 1).drop_last() =~= vectors.take(k));
        lemma_first_mismatch_stays(vectors, outputs, k + 1);
    } else {
        assert(vectors.take(k) =~= vectors);
    }
}

/// The report depends on the outputs only at the indices of the vectors:
/// two runs that sampled the same output for every vector get the same
/// report.
pub proof fn lemma_report_depends_on_sampled_outputs(
    vectors: Seq<StimulusVector>,
    first: Seq<Nibble>,
    second: Seq<Nibble>,
)
    requires
        forall|i: int| 0 <= i < vectors.len() ==> first[i] == second[i],
    ensures
        first_mismatch(vectors, first) == first_mismatch(vectors, second),
        report_of(vectors, first) == report_of(vectors, second),
    decreases vectors.len(),
{
    if vectors.len() > 0 {
        lemma_report_depends_on_sampled_outputs(vectors.drop_last(), first, second);
    }
}

} // verus!
