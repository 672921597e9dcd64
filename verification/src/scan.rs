//! The multiplexing scheduler: how a clock reading is spread over the four
//! digits of the display.
//!
//! A scan shows the four digits one after the other, from the leftmost
//! (position four, the thousands) to the rightmost (position one, the
//! units), each for the dwell time. The reading is taken once for a whole
//! scan, so the four digits of one scan always belong to one reading.

use crate::display::{frame, show_plan, DigitPosition, LineWrite, SevenSegment};
use crate::register::TimeRegister;
use vstd::prelude::*;

verus! {

/// How long each digit stays lit before the scan moves on, in microseconds.
pub const DWELL_MICROS: u64 = 700;

/// The largest reading that a clock gives: 23 hours, 59 minutes.
pub const MAX_CLOCK_VALUE: u16 = 2359;

/// One step of a scan: `number` is shown on the digit that `digit` selects.
#[derive(Clone, Copy, Debug, PartialEq, Eq, Structural)]
pub struct ScanStep {
    pub digit: u8,
    pub number: u8,
}

/// The number that `value` shows at `position`: the thousands at position
/// four, the hundreds at three, the tens at two, the units at one (and at
/// every other position).
pub open spec fn digit_of(value: u16, position: int) -> int {
    if position == 4 {
        value as int / 1000
    } else if position == 3 {
        value as int % 1000 / 100
    } else if position == 2 {
        value as int % 100 / 10
    } else {
        value as int % 10
    }
}

/// The step of a scan of `value` that shows the digit at `position`.
pub open spec fn step_of(value: u16, position: int) -> ScanStep {
    ScanStep { digit: position as u8, number: digit_of(value, position) as u8 }
}

/// The four steps of a scan of `value`, from position four down to one.
pub open spec fn cycle_of(value: u16) -> Seq<ScanStep> {
    seq![step_of(value, 4), step_of(value, 3), step_of(value, 2), step_of(value, 1)]
}

/// For a reading of at most four decimal digits, and so for every clock
/// reading from 0 to 2359, each of the four numbers is a decimal digit and
/// the four together, weighted by their positions, give the reading back.
pub proof fn digits_recompose(value: u16)
    requires
        value <= 9999,
    ensures
        forall|position: int| 0 <= #[trigger] digit_of(value, position) <= 9,
        digit_of(value, 4) * 1000 + digit_of(value, 3) * 100 + digit_of(value, 2) * 10 + digit_of(
            value,
            1,
        ) == value,
        value <= MAX_CLOCK_VALUE ==> digit_of(value, 4) <= 2,
{
}

/// Whatever the reading, the numbers at positions three, two and one are
/// decimal digits, and the number at position four is at most 65. A
/// reading above 9999 is no clock reading; its leftmost number is 10 or
/// more and shows as the decimal point or as the fallback glyph.
pub proof fn digits_bounded(value: u16)
    ensures
        0 <= digit_of(value, 4) <= 65,
        0 <= digit_of(value, 3) <= 9,
        0 <= digit_of(value, 2) <= 9,
        0 <= digit_of(value, 1) <= 9,
{
}

/// Splits `value` into the number to show at `position`.
pub fn digit_at(value: u16, position: DigitPosition) -> (number: u8)
    ensures
        number == digit_of(value, position.spec_number()),
{
    match position {
        DigitPosition::Four => (value / 1000) as u8,
        DigitPosition::Three => (value % 1000 / 100) as u8,
        DigitPosition::Two => (value % 100 / 10) as u8,
        DigitPosition::One => (value % 10) as u8,
    }
}

/// The four steps of one scan of `value`, in the order in which they are
/// shown: position four first, position one last.
pub fn scan_cycle(value: u16) -> (steps: [ScanStep; 4])
    ensures
        steps@ == cycle_of(value),
{
    let steps = [
        ScanStep { digit: 4, number: digit_at(value, DigitPosition::Four) },
        ScanStep { digit: 3, number: digit_at(value, DigitPosition::Three) },
        ScanStep { digit: 2, number: digit_at(value, DigitPosition::Two) },
        ScanStep { digit: 1, number: digit_at(value, DigitPosition::One) },
    ];
    proof {
        digits_bounded(value);
        assert(steps@ =~= cycle_of(value));
    }
    steps
}

/// The position that a scan shows after `position`: from four down to
/// one, and after one, four again.
pub open spec fn position_after(position: DigitPosition) -> DigitPosition {
    match position {
        DigitPosition::Four => DigitPosition::Three,
        DigitPosition::Three => DigitPosition::Two,
        DigitPosition::Two => DigitPosition::One,
        DigitPosition::One => DigitPosition::Four,
    }
}

/// Where a scan stands: the position that the next step shows, and the
/// reading that the scan belongs to.
#[derive(Clone, Copy, Debug, PartialEq, Eq, Structural)]
pub struct ScanState {
    pub position: DigitPosition,
    pub reading: u16,
}

/// The reading that the step at `state` shows a digit of, where the
/// register gives `sample`: a scan takes up the sample at its first step,
/// at position four, and keeps its reading at the other three.
pub open spec fn reading_at(state: ScanState, sample: u16) -> u16 {
    if state.position == DigitPosition::Four {
        sample
    } else {
        state.reading
    }
}

/// What the step at `state` shows, where the register gives `sample`.
pub open spec fn shown_at(state: ScanState, sample: u16) -> ScanStep {
    step_of(reading_at(state, sample), state.position.spec_number())
}

/// Where the scan stands after the step at `state`, where the register
/// gives `sample`.
pub open spec fn state_after(state: ScanState, sample: u16) -> ScanState {
    ScanState { position: position_after(state.position), reading: reading_at(state, sample) }
}

/// A scan that starts at position four shows, in its four steps, the four
/// digits of the sample that its first step took up, whatever the register
/// gives during the other three steps; and then the next scan starts.
pub proof fn scan_shows_one_reading(start: ScanState, samples: Seq<u16>)
    requires
        start.position == DigitPosition::Four,
        samples.len() == 4,
    ensures
        ({
            let second = state_after(start, samples[0]);
            let third = state_after(second, samples[1]);
            let fourth = state_after(third, samples[2]);
            let restart = state_after(fourth, samples[3]);
            &&& seq![
                shown_at(start, samples[0]),
                shown_at(second, samples[1]),
                shown_at(third, samples[2]),
                shown_at(fourth, samples[3]),
            ] == cycle_of(samples[0])
            &&& restart.position == DigitPosition::Four
            &&& restart.reading == samples[0]
        }),
{
}

/// The scheduler of the display: it walks through the four positions and
/// shows, at each, the digit of the reading that its scan took up.
pub struct Multiplexer {
    state: ScanState,
}

impl Multiplexer {
    /// Where the scan stands.
    pub closed spec fn view(&self) -> ScanState {
        self.state
    }

    /// A scheduler at the start of a scan.
    pub fn new() -> (scheduler: Self)
        ensures
            scheduler@ == (ScanState { position: DigitPosition::Four, reading: 0 }),
    {
        Multiplexer { state: ScanState { position: DigitPosition::Four, reading: 0 } }
    }

    /// Where the scan stands.
    pub fn state(&self) -> (state: ScanState)
        ensures
            state == self@,
    {
        self.state
    }

    /// Whether the next step starts a scan, and so takes up a sample.
    pub fn at_scan_start(&self) -> (start: bool)
        ensures
            start == (self@.position == DigitPosition::Four),
    {
        match self.state.position {
            DigitPosition::Four => true,
            _ => false,
        }
    }

    /// Performs one step of the scan, where the register gives `sample`:
    /// shows the digit of the step on `display`, moves on to the next
    /// position, and returns the writes for the physical lines. The caller
    /// performs them and then waits for [`DWELL_MICROS`].
    pub fn step_with(&mut self, sample: u16, display: &mut SevenSegment) -> (writes: Vec<LineWrite>)
        ensures
            final(self)@ == state_after(old(self)@, sample),
            writes@ == show_plan(
                shown_at(old(self)@, sample).digit,
                shown_at(old(self)@, sample).number,
            ),
            final(display)@ == frame(
                shown_at(old(self)@, sample).digit,
                shown_at(old(self)@, sample).number,
            ),
    {
        let position = self.state.position;
        let reading = if self.at_scan_start() {
            sample
        } else {
            self.state.reading
        };
        let next = match position {
            DigitPosition::Four => DigitPosition::Three,
            DigitPosition::Three => DigitPosition::Two,
            DigitPosition::Two => DigitPosition::One,
            DigitPosition::One => DigitPosition::Four,
        };
        proof {
            digits_bounded(reading);
        }
        let number = digit_at(reading, position);
        self.state = ScanState { position: next, reading };
        display.display_digit_number(position.number(), number)
    }

    /// Performs one step of the scan. The first step of a scan reads
    /// `register`; the other three do not.
    pub fn step(&mut self, register: &TimeRegister, display: &mut SevenSegment) -> (writes: Vec<
        LineWrite,
    >)
        ensures
            exists|sample: u16|
                {
                    &&& final(self)@ == #[trigger] state_after(old(self)@, sample)
                    &&& writes@ == show_plan(
                        shown_at(old(self)@, sample).digit,
                        shown_at(old(self)@, sample).number,
                    )
                    &&& final(display)@ == frame(
                        shown_at(old(self)@, sample).digit,
                        shown_at(old(self)@, sample).number,
                    )
                },
            old(self)@.position != DigitPosition::Four ==> final(self)@.reading == old(
                self,
            )@.reading,
            final(self)@.position == position_after(old(self)@.position),
    {
        let sample = if self.at_scan_start() {
            register.load()
        } else {
            self.state.reading
        };
        self.step_with(sample, display)
    }
}

} // verus!
