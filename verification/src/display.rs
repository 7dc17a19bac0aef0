//! The four dials of the display: where a dial stands for each digit, and how a four-digit
//! value is spread over them.

use vstd::prelude::*;

verus! {

/// Dial angle, in degrees, at which the digit 0 stands.
pub const MIN_ANGLE: u32 = 0;

/// Dial angle, in degrees, of a full sweep.
pub const MAX_ANGLE: u32 = 180;

/// Largest value a single dial can show.
pub const MAX_DIGIT: u64 = 9;

/// Number of dials on the display.
pub const DIAL_COUNT: usize = 4;

/// The four digits on display, leftmost first.
pub type DisplayContent = [u64; 4];

/// Whether `digit` is something a dial can show.
pub open spec fn is_digit(digit: u64) -> bool {
    digit <= MAX_DIGIT
}

/// The angle at which `digit` stands: the sweep is cut into ten equal steps.
pub open spec fn dial_angle(digit: nat) -> nat {
    MIN_ANGLE as nat + ((MAX_ANGLE - MIN_ANGLE) as nat / (MAX_DIGIT as nat + 1)) * digit
}

/// Linear image of `x` from the range `in_min..=in_max` in the range `out_min..=out_max`,
/// multiplied before it is divided, and rounded down.
pub open spec fn scaled(x: nat, in_min: nat, in_max: nat, out_min: nat, out_max: nat) -> nat {
    ((x - in_min) * (out_max - out_min) / (in_max - in_min) + out_min) as nat
}

/// One dial: the range of positions its actuator accepts and the position it was last sent to.
#[derive(Clone, Copy, Debug)]
pub struct Digit {
    min: u32,
    max: u32,
    position: Option<u32>,
}

impl Digit {
    /// The range is not empty, and the dial was never sent outside of it.
    #[verifier::type_invariant]
    pub closed spec fn wf(self) -> bool {
        &&& self.min <= self.max
        &&& self.position matches Some(p) ==> self.min <= p <= self.max
    }

    /// Position of the digit 0.
    pub closed spec fn min_position(self) -> nat {
        self.min as nat
    }

    /// Position at the end of the sweep.
    pub closed spec fn max_position(self) -> nat {
        self.max as nat
    }

    /// The position the dial was last sent to, if it was ever sent anywhere.
    pub closed spec fn position(self) -> Option<u32> {
        self.position
    }

    /// The position at which this dial shows `digit`.
    pub open spec fn position_for(self, digit: nat) -> nat {
        scaled(
            dial_angle(digit),
            MIN_ANGLE as nat,
            MAX_ANGLE as nat,
            self.min_position(),
            self.max_position(),
        )
    }

    /// What is sent to the actuator when the dial is asked for `digit`: the position of that
    /// digit, or nothing when a dial cannot show it.
    pub open spec fn command_for(self, digit: u64) -> Option<u32> {
        if is_digit(digit) {
            Some(self.position_for(digit as nat) as u32)
        } else {
            None
        }
    }

    /// The dial after it was asked for `digit`: it stands where it was sent, and stays where
    /// it stood when nothing was sent.
    pub closed spec fn after_set(self, digit: u64) -> Digit {
        match self.command_for(digit) {
            Some(p) => Digit { min: self.min, max: self.max, position: Some(p) },
            None => self,
        }
    }

    /// A dial for an actuator whose full scale is `max_duty`: the sweep runs from 5% to 10% of
    /// the full scale, and the dial has not been sent anywhere yet.
    pub fn new(max_duty: u32) -> (dial: Digit)
        ensures
            dial.min_position() == max_duty * 5 / 100,
            dial.max_position() == max_duty * 10 / 100,
            dial.position() is None,
            dial.wf(),
    {
        let full: u64 = max_duty as u64;
        let min: u64 = full * 5 / 100;
        let max: u64 = full * 10 / 100;
        Digit { min: min as u32, max: max as u32, position: None }
    }

    /// The position the dial was last sent to, if it was ever sent anywhere.
    pub fn last_position(&self) -> (p: Option<u32>)
        ensures
            p == self.position(),
    {
        self.position
    }

    /// Turns the dial to `digit` and returns the position to send to its actuator. A value
    /// above 9 is refused: nothing is to be sent and the dial stays as it was.
    pub fn set_digit(&mut self, digit: u64) -> (command: Option<u32>)
        ensures
            command == old(self).command_for(digit),
            *final(self) == old(self).after_set(digit),
            final(self).min_position() == old(self).min_position(),
            final(self).max_position() == old(self).max_position(),
            is_digit(digit) ==> final(self).position() == command,
            !is_digit(digit) ==> *final(self) == *old(self),
            final(self).wf(),
    {
        proof {
            use_type_invariant(&*self);
        }
        if digit > MAX_DIGIT {
            return None;
        }
        let step: u32 = (MAX_ANGLE - MIN_ANGLE) / (MAX_DIGIT as u32 + 1);
        assert(step == 180u32 / 10u32 == 18);
        assert(step * digit == 18 * digit <= 162) by (nonlinear_arith)
            requires
                step == 18,
                digit <= 9,
        ;
        let angle: u32 = MIN_ANGLE + step * (digit as u32);
        let duty: u32 = Self::map(angle, MIN_ANGLE, MAX_ANGLE, self.min, self.max);
        self.position = Some(duty);
        Some(duty)
    }

    fn map(x: u32, in_min: u32, in_max: u32, out_min: u32, out_max: u32) -> (y: u32)
        requires
            in_min <= x <= in_max,
            in_min < in_max,
            out_min <= out_max,
        ensures
            y == scaled(x as nat, in_min as nat, in_max as nat, out_min as nat, out_max as nat),
            out_min <= y <= out_max,
    {
        let run: u64 = (x - in_min) as u64;
        let rise: u64 = (out_max - out_min) as u64;
        let span: u64 = (in_max - in_min) as u64;
        assert(run * rise <= span * rise) by (nonlinear_arith)
            requires
                run <= span,
        ;
        assert(span * rise <= u32::MAX * u32::MAX) by (nonlinear_arith)
            requires
                span <= u32::MAX,
                rise <= u32::MAX,
        ;
        assert(run * rise / (span as int) <= rise) by (nonlinear_arith)
            requires
                run * rise <= span * rise,
                span > 0,
        ;
        let offset: u64 = run * rise / span;
        (offset + out_min as u64) as u32
    }
}

/// Asking a dial for the same digit twice sends the same position both times, and the second
/// request leaves the dial where the first one put it.
pub proof fn lemma_set_digit_idempotent(dial: Digit, digit: u64)
    ensures
        dial.after_set(digit).command_for(digit) == dial.command_for(digit),
        dial.after_set(digit).after_set(digit) == dial.after_set(digit),
{
}

/// Asking a dial for a value above 9 sends nothing and leaves the dial exactly as it was.
pub proof fn lemma_refused_digit_changes_nothing(dial: Digit, digit: u64)
    requires
        !is_digit(digit),
    ensures
        dial.command_for(digit) is None,
        dial.after_set(digit) == dial,
{
}

/// The position of a dial follows its digit: a larger digit never stands below a smaller one,
/// the digit 0 stands at the start of the sweep, and no digit stands beyond its end.
pub proof fn lemma_position_follows_digit(dial: Digit, low: u64, high: u64)
    requires
        dial.wf(),
        low <= high,
        is_digit(high),
    ensures
        dial.position_for(0) == dial.min_position(),
        dial.min_position() <= dial.position_for(low as nat),
        dial.position_for(low as nat) <= dial.position_for(high as nat),
        dial.position_for(high as nat) <= dial.max_position(),
{
    let width: int = dial.max_position() - dial.min_position();
    let a: int = dial_angle(low as nat) as int;
    let b: int = dial_angle(high as nat) as int;
    assert(a == 18 * low && b == 18 * high && dial_angle(0) == 0) by {
        assert((MAX_ANGLE - MIN_ANGLE) as nat / (MAX_DIGIT as nat + 1) == 180nat / 10nat == 18);
    }
    assert(0 <= a * width / 180 <= b * width / 180 <= width) by (nonlinear_arith)
        requires
            0 <= a <= b <= 162,
            0 <= width,
    ;
}

/// The dials of the display, leftmost first.
pub type Servos = [Digit; 4];

/// The whole display.
pub struct Display {
    pub servos: Servos,
}

impl Display {
    /// Shows `digits`, each on its own dial and in order, and returns what is to be sent to
    /// each actuator. A dial whose digit is refused is skipped; the others still turn.
    pub fn write(&mut self, digits: DisplayContent) -> (commands: [Option<u32>; 4])
        ensures
            forall|i: int|
                0 <= i < DIAL_COUNT ==> final(self).servos[i] == old(self).servos[i].after_set(
                    #[trigger] digits[i],
                ),
            forall|i: int|
                0 <= i < DIAL_COUNT ==> #[trigger] commands[i] == old(self).servos[i].command_for(
                    digits[i],
                ),
    {
        let mut commands: [Option<u32>; 4] = [None, None, None, None];
        for i in 0..DIAL_COUNT
            invariant
                forall|j: int|
                    0 <= j < i ==> self.servos[j] == old(self).servos[j].after_set(
                        #[trigger] digits[j],
                    ),
                forall|j: int| i <= j < DIAL_COUNT ==> #[trigger] self.servos[j] == old(self).servos[j],
                forall|j: int|
                    0 <= j < i ==> #[trigger] commands[j] == old(self).servos[j].command_for(
                        digits[j],
                    ),
        {
            let mut servo: Digit = self.servos[i];
            let command: Option<u32> = servo.set_digit(digits[i]);
            self.servos[i] = servo;
            commands[i] = command;
        }
        commands
    }
}

} // verus!
