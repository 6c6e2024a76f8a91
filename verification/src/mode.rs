//! The run modes, and the choice of one from the selector word that the
//! caller was given.

use vstd::prelude::*;

verus! {

/// Frequency of the circuit's clock in a simulation, in hertz.
pub const CLOCK_SPEED_HZ: u64 = 10_000;

/// Number of clock cycles of a traced run: four seconds of the clock.
pub const TRACE_CYCLES: u64 = 4 * CLOCK_SPEED_HZ;

/// What one invocation does. A mode is chosen once; nothing leads from one
/// mode to another.
#[derive(Clone, Copy, Debug, PartialEq, Eq, Structural)]
pub enum RunMode {
    /// Compile the circuit to hardware-description text.
    Export,
    /// Run the stimulus sequence against the circuit and report.
    Verify,
    /// Run the circuit for a fixed number of cycles and record its signals.
    Trace,
}

impl RunMode {
    /// The mode that a selector stands for: `export` and `verify` select
    /// their modes, and every other word selects `Trace`, as does no word
    /// at all. No selector is turned away.
    pub open spec fn of_selector(selector: Option<Seq<char>>) -> RunMode {
        match selector {
            Some(word) => if word == "export"@ {
                RunMode::Export
            } else if word == "verify"@ {
                RunMode::Verify
            } else {
                RunMode::Trace
            },
            None => RunMode::Trace,
        }
    }

    /// Chooses the mode for `selector`, the first word given to the
    /// program, if one was given.
    pub fn from_selector(selector: Option<&str>) -> (mode: RunMode)
        ensures
            mode == RunMode::of_selector(
                match selector {
                    Some(word) => Some(word@),
                    None => None,
                },
            ),
    {
        match selector {
            Some(word) => {
                let word = word.to_owned();
                if word == "export".to_owned() {
                    RunMode::Export
                } else if word == "verify".to_owned() {
                    RunMode::Verify
                } else {
                    RunMode::Trace
                }
            },
            None => RunMode::Trace,
        }
    }

    /// The two selectors that name a mode are different words, so a
    /// selector stands for one mode only; and `trace` itself selects
    /// `Trace`.
    pub proof fn lemma_selectors_are_distinct()
        ensures
            RunMode::of_selector(Some("export"@)) == RunMode::Export,
            RunMode::of_selector(Some("verify"@)) == RunMode::Verify,
            RunMode::of_selector(Some("trace"@)) == RunMode::Trace,
            RunMode::of_selector(None) == RunMode::Trace,
    {
        reveal_strlit("export");
        reveal_strlit("verify");
        reveal_strlit("trace");
        assert("verify"@[0] != "export"@[0]);
        assert("trace"@.len() != "export"@.len());
        assert("trace"@.len() != "verify"@.len());
    }
}

} // verus!
