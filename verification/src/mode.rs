//! The two behaviours of the controller and the machine that switches
//! between them.

use vstd::prelude::*;

verus! {

/// How the controller behaves in a cycle.
#[derive(Clone, Copy, Debug, PartialEq, Eq, Structural)]
pub enum Mode {
    /// Track the current target under the impedance law.
    Target,
    /// Command zero torque, so that the arm can be moved by hand.
    Drag,
}

impl Mode {
    /// The mode that a wire code selects: zero selects target tracking, and
    /// every other code, known or not, the compliant mode.
    pub open spec fn of_code(code: int) -> Mode {
        if code == 0 {
            Mode::Target
        } else {
            Mode::Drag
        }
    }

    /// The wire code of a mode.
    pub open spec fn code_spec(self) -> int {
        match self {
            Mode::Target => 0,
            Mode::Drag => 1,
        }
    }

    /// Decodes a wire code. Unknown codes fall to [`Mode::Drag`], the mode
    /// that does not actuate.
    pub fn from_code(code: i32) -> (mode: Mode)
        ensures
            mode == Mode::of_code(code as int),
    {
        if code == 0 {
            Mode::Target
        } else {
            Mode::Drag
        }
    }

    /// Encodes a mode for the wire.
    pub fn code(self) -> (code: i32)
        ensures
            code == self.code_spec(),
    {
        match self {
            Mode::Target => 0,
            Mode::Drag => 1,
        }
    }

    /// Decoding undoes encoding.
    pub proof fn lemma_code_round_trip(self)
        ensures
            Mode::of_code(self.code_spec()) == self,
    {
    }
}

/// The mode state machine. It starts in [`Mode::Target`], has no terminal
/// state, and every mode it receives replaces the current one without
/// condition.
#[derive(Clone, Copy, Debug, PartialEq, Eq, Structural)]
pub struct ModeStateMachine {
    mode: Mode,
}

impl ModeStateMachine {
    /// The state of the machine.
    pub closed spec fn state(self) -> Mode {
        self.mode
    }

    /// The state after an optional delivery: the delivered mode if there is
    /// one, the state before otherwise.
    pub open spec fn after(state: Mode, delivered: Option<Mode>) -> Mode {
        match delivered {
            Some(mode) => mode,
            None => state,
        }
    }

    /// A machine in its initial state.
    pub fn new() -> (machine: Self)
        ensures
            machine.state() == Mode::Target,
    {
        ModeStateMachine { mode: Mode::Target }
    }

    /// The current mode.
    pub fn current(&self) -> (mode: Mode)
        ensures
            mode == self.state(),
    {
        self.mode
    }

    /// Takes what the bridge delivered in this cycle, if anything.
    pub fn deliver(&mut self, delivered: Option<Mode>)
        ensures
            final(self).state() == Self::after(old(self).state(), delivered),
    {
        match delivered {
            Some(mode) => {
                self.mode = mode;
            },
            None => {},
        }
    }
}

} // verus!
