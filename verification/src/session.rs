//! A verification session as a state machine.
//!
//! The session holds the stimulus sequence and the position in it. Whoever
//! owns the circuit under test asks the session for the next vector, applies
//! its input, clocks the circuit once, and hands the sampled output back.
//! The session decides: it goes on to the next vector, or it stops at the
//! first output that is not the expected one.

use vstd::prelude::*;
use crate::nibble::Nibble;
use crate::report::{check_vector, first_mismatch, judge, report_of, Mismatch, RunReport};
use crate::stimulus::StimulusVector;

verus! {

/// The state of a session as a mathematical value.
pub struct SessionView {
    /// The stimulus sequence of the session.
    pub vectors: Seq<StimulusVector>,
    /// How many outputs the session has judged.
    pub position: nat,
    /// The mismatch that stopped the session, if one did.
    pub failure: Option<Mismatch>,
}

impl SessionView {
    /// A session that has judged nothing yet.
    pub open spec fn start(vectors: Seq<StimulusVector>) -> SessionView {
        SessionView { vectors, position: 0, failure: None }
    }

    /// A session is finished once a mismatch was found or every vector was
    /// judged.
    pub open spec fn finished(self) -> bool {
        self.failure is Some || self.position >= self.vectors.len()
    }

    /// The vector to apply next; none once the session is finished.
    pub open spec fn next_vector(self) -> Option<StimulusVector> {
        if self.finished() {
            None
        } else {
            Some(self.vectors[self.position as int])
        }
    }

    /// The session after `actual` was sampled for the vector that was due.
    /// A finished session takes no further output: it stays as it is.
    pub open spec fn observe(self, actual: Nibble) -> SessionView {
        if self.finished() {
            self
        } else {
            SessionView {
                position: self.position + 1,
                failure: judge(self.position as int, self.vectors[self.position as int], actual),
                ..self
            }
        }
    }

    /// The report of a finished session; none while vectors are still due.
    pub open spec fn report(self) -> Option<RunReport> {
        match self.failure {
            Some(found) => Some(RunReport::Failed(found)),
            None => if self.position >= self.vectors.len() {
                Some(RunReport::Success)
            } else {
                None
            },
        }
    }

    /// The session after the outputs in `outputs` were handed to it one by
    /// one, in order.
    pub open spec fn run(self, outputs: Seq<Nibble>) -> SessionView
        decreases outputs.len(),
    {
        if outputs.len() == 0 {
            self
        } else {
            self.run(outputs.drop_last()).observe(outputs.last())
        }
    }

    /// The number of vectors for which `outputs` holds an output: the
    /// shorter of the two lengths.
    pub open spec fn covered(vectors: Seq<StimulusVector>, outputs: Seq<Nibble>) -> int {
        if outputs.len() <= vectors.len() {
            outputs.len() as int
        } else {
            vectors.len() as int
        }
    }

    /// The number of outputs that a session judges out of `outputs`: all of
    /// them up to and with the first mismatch, and no more than there are
    /// vectors.
    pub open spec fn judged(vectors: Seq<StimulusVector>, outputs: Seq<Nibble>) -> nat {
        let covered = Self::covered(vectors, outputs);
        match first_mismatch(vectors.take(covered), outputs) {
            Some(found) => (found.cycle + 1) as nat,
            None => covered as nat,
        }
    }
}

/// A verification session over one stimulus sequence.
pub struct VerifySession {
    vectors: Vec<StimulusVector>,
    position: usize,
    failure: Option<Mismatch>,
}

impl View for VerifySession {
    type V = SessionView;

    closed spec fn view(&self) -> SessionView {
        SessionView {
            vectors: self.vectors@,
            position: self.position as nat,
            failure: self.failure,
        }
    }
}

impl VerifySession {
    /// Starts a session over `vectors`.
    pub fn new(vectors: Vec<StimulusVector>) -> (session: VerifySession)
        ensures
            session@ == SessionView::start(vectors@),
    {
        VerifySession { vectors, position: 0, failure: None }
    }

    /// True once a mismatch was found or every vector was judged.
    pub fn is_finished(&self) -> (done: bool)
        ensures
            done == self@.finished(),
    {
        self.failure.is_some() || self.position >= self.vectors.len()
    }

    /// The vector to apply next, or `None` once the session is finished.
    pub fn next_vector(&self) -> (next: Option<StimulusVector>)
        ensures
            next == self@.next_vector(),
    {
        if self.failure.is_some() || self.position >= self.vectors.len() {
            None
        } else {
            Some(self.vectors[self.position])
        }
    }

    /// How many outputs the session has judged: the number of clock cycles
    /// that the circuit under test was asked to run.
    pub fn position(&self) -> (judged: usize)
        ensures
            judged == self@.position,
    {
        self.position
    }

    /// Takes the output sampled after the vector that was due had been
    /// applied and the circuit clocked once. Returns the mismatch if the
    /// output is not the expected one. A finished session ignores the
    /// output and returns `None`.
    pub fn observe(&mut self, actual: Nibble) -> (verdict: Option<Mismatch>)
        ensures
            final(self)@ == old(self)@.observe(actual),
            verdict == if old(self)@.finished() {
                None
            } else {
                final(self)@.failure
            },
    {
        if self.failure.is_some() || self.position >= self.vectors.len() {
            None
        } else {
            let verdict = check_vector(self.position, self.vectors[self.position], actual);
            self.failure = verdict;
            self.position = self.position + 1;
            verdict
        }
    }

    /// The report of the session, or `None` while vectors are still due.
    pub fn report(&self) -> (report: Option<RunReport>)
        ensures
            report == self@.report(),
    {
        match self.failure {
            Some(found) => Some(RunReport::Failed(found)),
            None => if self.position >= self.vectors.len() {
                Some(RunReport::Success)
            } else {
                None
            },
        }
    }
}

/// Where a session stands after it was handed `outputs` one by one: it has
/// judged the outputs up to and with the first mismatch, and what it holds
/// as its failure is the first mismatch among the vectors it got outputs
/// for. Outputs handed over after the session finished changed nothing.
pub proof fn lemma_session_tracks_first_mismatch(
    vectors: Seq<StimulusVector>,
    outputs: Seq<Nibble>,
)
    requires
        vectors.len() <= usize::MAX,
    ensures
        SessionView::start(vectors).run(outputs) == (SessionView {
            vectors,
            position: SessionView::judged(vectors, outputs),
            failure: first_mismatch(
                vectors.take(SessionView::covered(vectors, outputs)),
                outputs,
            ),
        }),
    decreases outputs.len(),
{
    if outputs.len() > 0 {
        let shorter = outputs.drop_last();
        let covered = SessionView::covered(vectors, outputs);
        let covered_before = SessionView::covered(vectors, shorter);
        lemma_session_tracks_first_mismatch(vectors, shorter);
        crate::report::lemma_first_mismatch_is_first(vectors.take(covered_before), shorter);
        crate::report::lemma_report_depends_on_sampled_outputs(
            vectors.take(covered_before),
            shorter,
            outputs,
        );
        if outputs.len() <= vectors.len() {
            assert(vectors.take(covered).drop_last() =~= vectors.take(covered_before));
            assert(vectors.take(covered).last() == vectors[covered - 1]);
        }
    }
}

/// A session that was handed an output for every vector reports what
/// [`report_of`] says of the whole run, however many outputs came after.
pub proof fn lemma_session_reports_first_mismatch(
    vectors: Seq<StimulusVector>,
    outputs: Seq<Nibble>,
)
    requires
        vectors.len() <= usize::MAX,
        outputs.len() >= vectors.len(),
    ensures
        SessionView::start(vectors).run(outputs).report() == Some(report_of(vectors, outputs)),
{
    lemma_session_tracks_first_mismatch(vectors, outputs);
    assert(vectors.take(vectors.len() as int) =~= vectors);
    crate::report::lemma_first_mismatch_is_first(vectors, outputs);
}

/// Once a session has found a mismatch it stands still: it asks for no
/// further vector, and an output handed to it changes neither its position
/// nor its report.
pub proof fn lemma_session_stops_at_mismatch(session: SessionView, actual: Nibble)
    requires
        session.failure is Some,
    ensures
        session.next_vector() is None,
        session.observe(actual) == session,
        session.report() == Some(RunReport::Failed(session.failure->0)),
{
}

} // verus!
