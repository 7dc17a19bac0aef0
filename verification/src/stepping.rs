//! A dial for an actuator that cannot be sent to a position: it can only be advanced by one
//! digit at a time, from 9 back to 0. This is the fallback; a dial that can be positioned is
//! faster and is in `display`.

use vstd::prelude::*;

use crate::display::{is_digit, MAX_DIGIT};

verus! {

/// A dial that moves in single steps and remembers the digit it stands at.
#[derive(Clone, Copy, Debug)]
pub struct StepDial {
    counter: u64,
}

impl StepDial {
    /// The dial stands at a digit.
    #[verifier::type_invariant]
    pub closed spec fn wf(self) -> bool {
        self.counter <= MAX_DIGIT
    }

    /// The digit the dial stands at.
    pub closed spec fn counter(self) -> nat {
        self.counter as nat
    }

    /// The number of single steps that bring the dial to `digit`.
    pub open spec fn steps_to(self, digit: u64) -> nat {
        ((digit + 10 - self.counter()) % 10) as nat
    }

    /// A dial that stands at 0.
    pub fn new() -> (dial: StepDial)
        ensures
            dial.counter() == 0,
            dial.wf(),
    {
        StepDial { counter: 0 }
    }

    /// The digit the dial stands at.
    pub fn shown(&self) -> (digit: u64)
        ensures
            digit == self.counter(),
            is_digit(digit),
    {
        proof {
            use_type_invariant(self);
        }
        self.counter
    }

    /// Advances the dial by one digit; after 9 comes 0.
    pub fn step(&mut self)
        ensures
            final(self).counter() == (old(self).counter() + 1) % 10,
            final(self).wf(),
    {
        proof {
            use_type_invariant(&*self);
        }
        if self.counter == MAX_DIGIT {
            self.counter = 0;
        } else {
            self.counter = self.counter + 1;
        }
    }

    /// Steps the dial forward until it stands at `digit`, and returns the number of steps taken,
    /// each of which is one move of the actuator: at most 9. A value above 9 is refused: the
    /// dial does not move.
    pub fn set_digit(&mut self, digit: u64) -> (steps: u64)
        ensures
            is_digit(digit) ==> final(self).counter() == digit && steps == old(self).steps_to(
                digit,
            ),
            !is_digit(digit) ==> *final(self) == *old(self) && steps == 0,
            steps <= MAX_DIGIT,
            final(self).wf(),
    {
        proof {
            use_type_invariant(&*self);
        }
        if digit > MAX_DIGIT {
            return 0;
        }
        let mut steps: u64 = 0;
        while self.counter != digit
            invariant
                digit <= MAX_DIGIT,
                self.wf(),
                steps <= MAX_DIGIT,
                self.counter() == (old(self).counter() + steps) % 10,
                steps <= old(self).steps_to(digit),
            decreases old(self).steps_to(digit) - steps,
        {
            self.step();
            steps = steps + 1;
        }
        steps
    }
}

/// A step dial that already stands at the digit asked for does not move.
pub proof fn lemma_step_dial_at_rest(dial: StepDial, digit: u64)
    requires
        dial.wf(),
        dial.counter() == digit,
    ensures
        dial.steps_to(digit) == 0,
{
}

/// A step dial never needs more than 9 steps, and needs none only where it already stands at
/// the digit asked for.
pub proof fn lemma_step_count_is_bounded(dial: StepDial, digit: u64)
    requires
        dial.wf(),
        is_digit(digit),
    ensures
        dial.steps_to(digit) <= 9,
        dial.steps_to(digit) == 0 <==> dial.counter() == digit,
        (dial.counter() + dial.steps_to(digit)) % 10 == digit,
{
}

} // verus!
