//! A four-bit passthrough circuit and the testbench driver that clocks it.
//!
//! The circuit copies its `buttons` input to its `leds` output on every clock
//! edge. Around it stand a generator of stimulus vectors, a driver that
//! clocks the circuit one cycle at a time, a session that judges outputs
//! sampled from any circuit under test, and the selection of a run mode.

pub mod nibble;
pub mod circuit;
pub mod stimulus;
pub mod report;
pub mod session;
pub mod driver;
pub mod mode;

pub use circuit::{Clock, LedController};
pub use driver::{Sample, SimulationDriver};
pub use mode::RunMode;
pub use nibble::Nibble;
pub use report::{Mismatch, RunReport};
pub use session::VerifySession;
pub use stimulus::{stimulus_sequence, StimulusVector};
