//! The simulation driver: it owns one circuit, applies inputs to it, clocks
//! it one cycle at a time, and samples its output.

use vstd::prelude::*;
use crate::circuit::LedController;
use crate::nibble::Nibble;
use crate::report::{first_mismatch, report_of, RunReport};
use crate::session::{SessionView, VerifySession};
use crate::stimulus::{is_stimulus_sequence, StimulusVector};

verus! {

/// The state of a driver as a mathematical value.
pub struct DriverView {
    /// The circuit that the driver owns.
    pub circuit: LedController,
    /// The number of clock cycles that the driver has run.
    pub cycle: nat,
}

impl DriverView {
    /// The driver after `value` was put on the circuit's input. The output
    /// and the cycle count are untouched: an input is seen at the next
    /// clock edge, never before.
    pub open spec fn apply_input(self, value: Nibble) -> DriverView {
        DriverView { circuit: LedController { buttons: value, ..self.circuit }, ..self }
    }

    /// The driver after one clock cycle: the update rule was evaluated once
    /// and its result committed, and the clock is back at the level it had.
    pub open spec fn advance(self) -> DriverView {
        DriverView { circuit: self.circuit.updated(), cycle: self.cycle + 1 }
    }

    /// The driver after `n` clock cycles without a change of input.
    pub open spec fn advance_by(self, n: nat) -> DriverView
        decreases n,
    {
        if n == 0 {
            self
        } else {
            self.advance_by((n - 1) as nat).advance()
        }
    }

    /// The output that the circuit shows.
    pub open spec fn output(self) -> Nibble {
        self.circuit.leds
    }

    /// The driver after the vectors in `vectors` were run in order: for
    /// each, its input applied and the circuit clocked once.
    pub open spec fn run(self, vectors: Seq<StimulusVector>) -> DriverView
        decreases vectors.len(),
    {
        if vectors.len() == 0 {
            self
        } else {
            self.run(vectors.drop_last()).apply_input(vectors.last().input).advance()
        }
    }

    /// The outputs that a run over `vectors` samples when it starts from
    /// this driver: the one at index `i` is what the circuit shows after
    /// the vectors up to and with `vectors[i]` were run.
    pub open spec fn sampled(self, vectors: Seq<StimulusVector>) -> Seq<Nibble> {
        Seq::new(vectors.len(), |i: int| self.run(vectors.take(i + 1)).output())
    }
}

/// What the circuit shows after each vector of `vectors` when its input is
/// applied and the circuit clocked once: the update rule's value for that
/// input.
pub open spec fn circuit_outputs(vectors: Seq<StimulusVector>) -> Seq<Nibble> {
    Seq::new(vectors.len(), |i: int| LedController::next_leds(vectors[i].input))
}

/// The number of vectors that a verification run evaluates: all of them
/// when none fails, else those up to and with the first that fails.
pub open spec fn evaluated(vectors: Seq<StimulusVector>) -> nat {
    match first_mismatch(vectors, circuit_outputs(vectors)) {
        Some(found) => (found.cycle + 1) as nat,
        None => vectors.len(),
    }
}

/// The signals of the circuit as they stand after one clock cycle.
#[derive(Clone, Copy, Debug, PartialEq, Eq, Structural)]
pub struct Sample {
    /// Index of the clock cycle that ended with this sample; the driver's
    /// first cycle has index zero.
    pub cycle: u64,
    /// The input of the circuit.
    pub buttons: Nibble,
    /// The output of the circuit.
    pub leds: Nibble,
}

/// One live circuit with the count of the clock cycles it has run.
pub struct SimulationDriver {
    circuit: LedController,
    cycle: u64,
}

impl View for SimulationDriver {
    type V = DriverView;

    closed spec fn view(&self) -> DriverView {
        DriverView { circuit: self.circuit, cycle: self.cycle as nat }
    }
}

impl SimulationDriver {
    /// A driver that owns `circuit` and has run no cycle yet.
    pub fn new(circuit: LedController) -> (driver: SimulationDriver)
        ensures
            driver@ == (DriverView { circuit, cycle: 0 }),
    {
        SimulationDriver { circuit, cycle: 0 }
    }

    /// The circuit as it stands.
    pub fn circuit(&self) -> (circuit: LedController)
        ensures
            circuit == self@.circuit,
    {
        self.circuit
    }

    /// The number of clock cycles run so far.
    pub fn cycle_count(&self) -> (cycles: u64)
        ensures
            cycles == self@.cycle,
    {
        self.cycle
    }

    /// Puts `value` on the circuit's input. The output does not move until
    /// the next clock cycle.
    pub fn apply_input(&mut self, value: Nibble)
        ensures
            final(self)@ == old(self)@.apply_input(value),
            final(self)@.output() == old(self)@.output(),
    {
        self.circuit.buttons = value;
    }

    /// Runs one clock cycle: the clock line rises, the update rule is
    /// evaluated and its result committed, and the clock line falls back.
    /// No state in between is visible to a caller.
    pub fn advance_one_cycle(&mut self)
        requires
            old(self)@.cycle < u64::MAX,
        ensures
            final(self)@ == old(self)@.advance(),
            final(self)@.output() == LedController::next_leds(old(self)@.circuit.buttons),
    {
        self.circuit.clock.toggle();
        self.circuit.update();
        self.circuit.clock.toggle();
        self.cycle = self.cycle + 1;
    }

    /// The output that the circuit shows: the value committed at the last
    /// clock edge.
    pub fn sample_output(&self) -> (value: Nibble)
        ensures
            value == self@.output(),
    {
        self.circuit.leds
    }

    /// Runs `n_cycles` clock cycles without touching the input and without
    /// judging anything. Returns one sample for each cycle, in order, for
    /// the caller to hand to whatever records the run.
    pub fn run_fixed(&mut self, n_cycles: usize) -> (samples: Vec<Sample>)
        requires
            old(self)@.cycle + n_cycles <= u64::MAX,
        ensures
            final(self)@ == old(self)@.advance_by(n_cycles as nat),
            final(self)@.cycle == old(self)@.cycle + n_cycles,
            samples@.len() == n_cycles,
            forall|k: int|
                0 <= k < n_cycles ==> #[trigger] samples@[k] == (Sample {
                    cycle: (old(self)@.cycle + k) as u64,
                    buttons: old(self)@.circuit.buttons,
                    leds: LedController::next_leds(old(self)@.circuit.buttons),
                }),
    {
        let mut samples: Vec<Sample> = Vec::new();
        let mut done: usize = 0;
        while done < n_cycles
            invariant
                done <= n_cycles,
                old(self)@.cycle + n_cycles <= u64::MAX,
                self@ == old(self)@.advance_by(done as nat),
                self@.cycle == old(self)@.cycle + done,
                self@.circuit.buttons == old(self)@.circuit.buttons,
                samples@.len() == done,
                forall|k: int|
                    0 <= k < done ==> #[trigger] samples@[k] == (Sample {
                        cycle: (old(self)@.cycle + k) as u64,
                        buttons: old(self)@.circuit.buttons,
                        leds: LedController::next_leds(old(self)@.circuit.buttons),
                    }),
            decreases n_cycles - done,
        {
            let index = self.cycle;
            self.advance_one_cycle();
            samples.push(
                Sample { cycle: index, buttons: self.circuit.buttons, leds: self.circuit.leds },
            );
            done = done + 1;
        }
        samples
    }

    /// Runs the vectors in order: for each, applies the input, runs one
    /// clock cycle, samples the output and compares it with the expected
    /// one. Stops after the first vector whose output disagrees and reports
    /// it; reports success when every vector agreed.
    pub fn run_verified(&mut self, vectors: Vec<StimulusVector>) -> (report: RunReport)
        requires
            old(self)@.cycle + vectors@.len() <= u64::MAX,
        ensures
            report == report_of(vectors@, circuit_outputs(vectors@)),
            final(self)@ == old(self)@.run(vectors@.take(evaluated(vectors@) as int)),
            final(self)@.cycle == old(self)@.cycle + evaluated(vectors@),
    {
        let ghost all = vectors@;
        let ghost outputs = circuit_outputs(all);
        assert(all.len() == vectors.len());
        let mut session = VerifySession::new(vectors);
        loop
            invariant
                old(self)@.cycle + all.len() <= u64::MAX,
                all.len() <= usize::MAX,
                outputs == circuit_outputs(all),
                session@.vectors == all,
                session@.position <= all.len(),
                session@.failure == first_mismatch(all.take(session@.position as int), outputs),
                session@.failure is Some ==> session@.position == session@.failure->0.cycle + 1,
                self@ == old(self)@.run(all.take(session@.position as int)),
                self@.cycle == old(self)@.cycle + session@.position,
            ensures
                session@.finished(),
            decreases all.len() - session@.position,
        {
            match session.next_vector() {
                Some(vector) => {
                    let ghost before = session@.position as int;
                    self.apply_input(vector.input);
                    self.advance_one_cycle();
                    let actual = self.sample_output();
                    session.observe(actual);
                    proof {
                        assert(all.take(before + 1).drop_last() =~= all.take(before));
                        assert(all.take(before + 1).last() == all[before]);
                        assert(outputs[before] == actual);
                    }
                },
                None => {
                    break ;
                },
            }
        }
        proof {
            let stop = session@.position as int;
            if session@.failure is Some {
                crate::report::lemma_first_mismatch_stays(all, outputs, stop);
            } else {
                assert(all.take(stop) =~= all);
            }
        }
        session.report().unwrap()
    }
}

/// Applying an input and running one clock cycle shows the update rule's
/// value for that input, which is the input itself, whatever the circuit
/// held before; and it takes exactly one cycle.
pub proof fn lemma_step_is_identity(driver: DriverView, value: Nibble)
    ensures
        driver.apply_input(value).advance().output() == value,
        driver.apply_input(value).advance().cycle == driver.cycle + 1,
{
}

/// An input that was applied is not seen before a clock cycle has run: the
/// output is what it was, however many inputs were applied in between.
pub proof fn lemma_input_waits_for_edge(driver: DriverView, first: Nibble, second: Nibble)
    ensures
        driver.apply_input(first).output() == driver.output(),
        driver.apply_input(first).apply_input(second).output() == driver.output(),
        driver.apply_input(first).cycle == driver.cycle,
{
}

/// A fixed run of `n` cycles is `n` clock edges, no more and no fewer: the
/// cycle count grows by `n`, the input stays, and from the first cycle on
/// the output is the update rule's value for the input.
pub proof fn lemma_fixed_run_counts_cycles(driver: DriverView, n: nat)
    ensures
        driver.advance_by(n).cycle == driver.cycle + n,
        driver.advance_by(n).circuit.buttons == driver.circuit.buttons,
        driver.advance_by(n).circuit.clock == driver.circuit.clock,
        driver.advance_by(n).output() == if n == 0 {
            driver.output()
        } else {
            LedController::next_leds(driver.circuit.buttons)
        },
    decreases n,
{
    if n > 0 {
        lemma_fixed_run_counts_cycles(driver, (n - 1) as nat);
    }
}

/// The circuit passes the stimulus sequence: a verification run over it
/// reports success, having evaluated all sixteen vectors.
pub proof fn lemma_stimulus_sequence_passes(vectors: Seq<StimulusVector>)
    requires
        is_stimulus_sequence(vectors),
    ensures
        report_of(vectors, circuit_outputs(vectors)) == RunReport::Success,
        evaluated(vectors) == vectors.len(),
{
    let outputs = circuit_outputs(vectors);
    crate::report::lemma_first_mismatch_is_first(vectors, outputs);
    if first_mismatch(vectors, outputs) is Some {
        let at = first_mismatch(vectors, outputs)->0.cycle as int;
        crate::stimulus::lemma_stimulus_expects_rule(vectors, at);
    }
}

/// Whatever a driver holds when a run starts, the output it shows after a
/// vector is the update rule's value for that vector's input.
pub proof fn lemma_sampled_outputs_follow_rule(driver: DriverView, vectors: Seq<StimulusVector>)
    ensures
        driver.sampled(vectors) == circuit_outputs(vectors),
{
    assert forall|i: int| 0 <= i < vectors.len() implies driver.sampled(vectors)[i]
        == circuit_outputs(vectors)[i] by {
        assert(vectors.take(i + 1).last() == vectors[i]);
    }
    assert(driver.sampled(vectors) =~= circuit_outputs(vectors));
}

/// The report of a verification run is a function of the stimulus alone:
/// two drivers, whatever they hold and however many cycles they have run,
/// sample the same outputs over the same vectors and come to the same
/// report.
pub proof fn lemma_verification_is_deterministic(
    first: DriverView,
    second: DriverView,
    vectors: Seq<StimulusVector>,
)
    ensures
        first.sampled(vectors) == second.sampled(vectors),
        report_of(vectors, first.sampled(vectors)) == report_of(vectors, second.sampled(vectors)),
{
    lemma_sampled_outputs_follow_rule(first, vectors);
    lemma_sampled_outputs_follow_rule(second, vectors);
}

/// What a driver's verification run reports is what a session reports that
/// is handed the circuit's outputs: the run inside the driver and a run
/// that a caller steers through a session come to the same verdict.
pub proof fn lemma_driver_agrees_with_session(vectors: Seq<StimulusVector>)
    requires
        vectors.len() <= usize::MAX,
    ensures
        SessionView::start(vectors).run(circuit_outputs(vectors)).report() == Some(
            report_of(vectors, circuit_outputs(vectors)),
        ),
{
    crate::session::lemma_session_reports_first_mismatch(vectors, circuit_outputs(vectors));
}

} // verus!
