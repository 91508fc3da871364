//! Six-step commutation table for BLDC motor control.
//!
//! Each step energizes exactly two of the three phases: one phase is driven
//! high, one is driven low, and the third floats (high impedance). The order
//! of the six steps is fixed by the winding topology; advancing through them
//! produces a rotating stator field.

use vstd::prelude::*;

verus! {

/// One of the six commutation steps.
#[derive(Clone, Copy, Debug, PartialEq, Eq, Structural)]
pub enum CommutationStep {
    Step0,
    Step1,
    Step2,
    Step3,
    Step4,
    Step5,
}

impl CommutationStep {
    /// The step's position in the cycle, in 0..6.
    pub open spec fn step_number(self) -> int {
        match self {
            CommutationStep::Step0 => 0,
            CommutationStep::Step1 => 1,
            CommutationStep::Step2 => 2,
            CommutationStep::Step3 => 3,
            CommutationStep::Step4 => 4,
            CommutationStep::Step5 => 5,
        }
    }

    /// The step whose position is `n` (for `n` in 0..6).
    pub open spec fn from_number(n: int) -> CommutationStep {
        if n == 0 {
            CommutationStep::Step0
        } else if n == 1 {
            CommutationStep::Step1
        } else if n == 2 {
            CommutationStep::Step2
        } else if n == 3 {
            CommutationStep::Step3
        } else if n == 4 {
            CommutationStep::Step4
        } else {
            CommutationStep::Step5
        }
    }

    /// The step that follows this one in the cycle.
    pub open spec fn spec_next(self) -> CommutationStep {
        Self::from_number((self.step_number() + 1) % 6)
    }

    /// Phase enable and polarity pattern for this step, as
    /// `(en_a, en_b, en_c, high_a, high_b, high_c)`:
    /// - enable flags: true = phase active, false = floating;
    /// - high flags: true = high side on, false = low side on.
    pub open spec fn spec_phase_states(self) -> (bool, bool, bool, bool, bool, bool) {
        match self {
            // A+, B-, C floating
            CommutationStep::Step0 => (true, true, false, true, false, false),
            // A+, C-, B floating
            CommutationStep::Step1 => (true, false, true, true, false, false),
            // B+, C-, A floating
            CommutationStep::Step2 => (false, true, true, false, true, false),
            // B+, A-, C floating
            CommutationStep::Step3 => (true, true, false, false, true, false),
            // C+, A-, B floating
            CommutationStep::Step4 => (true, false, true, false, false, true),
            // C+, B-, A floating
            CommutationStep::Step5 => (false, true, true, false, false, true),
        }
    }

    /// How many of the three phases this step enables.
    pub open spec fn enabled_count(self) -> int {
        let (en_a, en_b, en_c, _, _, _) = self.spec_phase_states();
        (if en_a { 1int } else { 0int }) + (if en_b { 1int } else { 0int })
            + (if en_c { 1int } else { 0int })
    }

    /// Advance to the next commutation step.
    pub fn next(self) -> (r: Self)
        ensures
            r == self.spec_next(),
            r.step_number() == (self.step_number() + 1) % 6,
    {
        match self {
            Self::Step0 => Self::Step1,
            Self::Step1 => Self::Step2,
            Self::Step2 => Self::Step3,
            Self::Step3 => Self::Step4,
            Self::Step4 => Self::Step5,
            Self::Step5 => Self::Step0,
        }
    }

    /// The step number (0-5).
    pub fn as_u8(self) -> (r: u8)
        ensures
            r == self.step_number(),
            r < 6,
    {
        match self {
            Self::Step0 => 0,
            Self::Step1 => 1,
            Self::Step2 => 2,
            Self::Step3 => 3,
            Self::Step4 => 4,
            Self::Step5 => 5,
        }
    }

    /// Phase enable/polarity pattern for this step; see [`Self::spec_phase_states`].
    pub fn get_phase_states(self) -> (r: (bool, bool, bool, bool, bool, bool))
        ensures
            r == self.spec_phase_states(),
    {
        match self {
            Self::Step0 => (true, true, false, true, false, false),
            Self::Step1 => (true, false, true, true, false, false),
            Self::Step2 => (false, true, true, false, true, false),
            Self::Step3 => (true, true, false, false, true, false),
            Self::Step4 => (true, false, true, false, false, true),
            Self::Step5 => (false, true, true, false, false, true),
        }
    }
}

/// Every commutation step enables exactly two of the three phases; the third
/// floats.
pub proof fn lemma_two_phases_enabled(s: CommutationStep)
    ensures
        s.enabled_count() == 2,
{
}

/// Advancing six times returns to the starting step: the commutation sequence
/// is a cycle of length six.
pub proof fn lemma_next_six_is_identity(s: CommutationStep)
    ensures
        s.spec_next().spec_next().spec_next().spec_next().spec_next().spec_next() == s,
{
}

} // verus!
