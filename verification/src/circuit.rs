//! The circuit itself: one clocked block with a clock pin, four button
//! inputs and four LED outputs.

use vstd::prelude::*;
use crate::nibble::Nibble;

verus! {

/// A clock signal.
///
/// It is a type of its own so that it cannot stand where a data signal is
/// wanted: the update rule reads data signals only, and the clock serves to
/// mark edges.
#[derive(Clone, Copy, Debug, PartialEq, Eq, Structural)]
pub struct Clock {
    /// The level of the clock line.
    pub clk: bool,
}

impl Clock {
    /// The clock after half a period: the level is inverted.
    pub open spec fn toggled(self) -> Clock {
        Clock { clk: !self.clk }
    }

    /// Inverts the level of the clock line.
    pub fn toggle(&mut self)
        ensures
            *final(self) == old(self).toggled(),
    {
        self.clk = !self.clk;
    }
}

/// The circuit: `leds` follows `buttons`.
///
/// `clock` and `buttons` are inputs, driven from outside; `leds` is the
/// output, written by [`LedController::update`] alone.
#[derive(Clone, Copy, Debug, PartialEq, Eq, Structural)]
pub struct LedController {
    /// Clock input.
    pub clock: Clock,
    /// Data input, four bits wide.
    pub buttons: Nibble,
    /// Data output, four bits wide.
    pub leds: Nibble,
}

impl LedController {
    /// The update rule: the value that `leds` takes on the next clock edge
    /// when `buttons` holds `buttons`. The circuit keeps no state, so the
    /// rule depends on the input alone, and it is the identity.
    pub open spec fn next_leds(buttons: Nibble) -> Nibble {
        buttons
    }

    /// The circuit after one evaluation of the update rule. Inputs are left
    /// as they are.
    pub open spec fn updated(self) -> LedController {
        LedController { leds: Self::next_leds(self.buttons), ..self }
    }

    /// Evaluates the update rule once and commits the new output.
    pub fn update(&mut self)
        ensures
            *final(self) == old(self).updated(),
    {
        self.leds = self.buttons;
    }

    /// Evaluating the rule a second time without a change of input changes
    /// nothing: the circuit has settled after one evaluation.
    pub proof fn lemma_update_settles(c: LedController)
        ensures
            c.updated().updated() == c.updated(),
    {
    }
}

impl Default for LedController {
    /// The circuit at power-up: clock low, inputs and outputs zero.
    fn default() -> (c: LedController)
        ensures
            !c.clock.clk,
            c.buttons@ == 0,
            c.leds@ == 0,
            c.buttons.wf(),
            c.leds.wf(),
    {
        LedController {
            clock: Clock { clk: false },
            buttons: Nibble::default(),
            leds: Nibble::default(),
        }
    }
}

} // verus!
