use segment_clock::display::{DigitPosition, Line, SevenSegment};
use segment_clock::register::TimeRegister;
use segment_clock::scan::{
    digit_at, scan_cycle, Multiplexer, ScanState, ScanStep, DWELL_MICROS, MAX_CLOCK_VALUE,
};
use segment_clock::segments::pattern_for;
use segment_clock::segments::Segment;

const SEGMENTS: [Segment; 8] = [
    Segment::A,
    Segment::B,
    Segment::C,
    Segment::D,
    Segment::E,
    Segment::F,
    Segment::G,
    Segment::Dp,
];

fn step(digit: u8, number: u8) -> ScanStep {
    ScanStep { digit, number }
}

#[test]
fn scan_of_1234_shows_one_two_three_four_from_the_left() {
    assert_eq!(scan_cycle(1234), [step(4, 1), step(3, 2), step(2, 3), step(1, 4)]);
}

#[test]
fn scan_of_zero_keeps_the_leading_zeros() {
    assert_eq!(scan_cycle(0), [step(4, 0), step(3, 0), step(2, 0), step(1, 0)]);
}

#[test]
fn scan_of_the_last_minute_of_the_day() {
    assert_eq!(MAX_CLOCK_VALUE, 2359);
    assert_eq!(scan_cycle(2359), [step(4, 2), step(3, 3), step(2, 5), step(1, 9)]);
}

#[test]
fn scan_of_4321() {
    assert_eq!(scan_cycle(4321), [step(4, 4), step(3, 3), step(2, 2), step(1, 1)]);
}

#[test]
fn digits_give_the_reading_back() {
    for value in 0..=9999u16 {
        let steps = scan_cycle(value);
        let mut sum: u32 = 0;
        for step in steps {
            assert!(step.number <= 9);
            sum = sum * 10 + step.number as u32;
        }
        assert_eq!(sum, value as u32);
    }
}

#[test]
fn readings_above_four_digits_overflow_the_leftmost_digit() {
    assert_eq!(scan_cycle(10_000), [step(4, 10), step(3, 0), step(2, 0), step(1, 0)]);
    assert_eq!(scan_cycle(65_535), [step(4, 65), step(3, 5), step(2, 3), step(1, 5)]);
}

#[test]
fn digit_at_follows_the_division_rule() {
    for value in [0u16, 7, 42, 999, 1000, 2359, 9999, 12_345, 65_535] {
        assert_eq!(digit_at(value, DigitPosition::Four) as u16, value / 1000);
        assert_eq!(digit_at(value, DigitPosition::Three) as u16, value % 1000 / 100);
        assert_eq!(digit_at(value, DigitPosition::Two) as u16, value % 100 / 10);
        assert_eq!(digit_at(value, DigitPosition::One) as u16, value % 10);
    }
}

#[test]
fn dwell_is_seven_hundred_microseconds() {
    assert_eq!(DWELL_MICROS, 700);
}

#[test]
fn a_scan_of_1234_renders_each_digit_at_its_position() {
    let mut display = SevenSegment::new();
    let expected = [
        (DigitPosition::Four, 1u8),
        (DigitPosition::Three, 2),
        (DigitPosition::Two, 3),
        (DigitPosition::One, 4),
    ];
    // Two scans in a row: the scan repeats.
    for _ in 0..2 {
        for (step, (position, number)) in scan_cycle(1234).into_iter().zip(expected) {
            display.display_digit_number(step.digit, step.number);
            for other in [
                DigitPosition::One,
                DigitPosition::Two,
                DigitPosition::Three,
                DigitPosition::Four,
            ] {
                assert_eq!(display.is_high(Line::Select(other)), other == position);
            }
            let pattern = pattern_for(number);
            for segment in SEGMENTS {
                assert_eq!(display.is_high(Line::Segment(segment)), pattern.contains(segment));
            }
        }
    }
}

#[test]
fn a_scan_of_zero_renders_zero_at_every_position() {
    let mut display = SevenSegment::new();
    let zero = pattern_for(0);
    for (step, digit) in scan_cycle(0).into_iter().zip([4u8, 3, 2, 1]) {
        assert_eq!(step.digit, digit);
        display.display_digit_number(step.digit, step.number);
        assert!(display.is_high(Line::Select(DigitPosition::from_number(digit))));
        for segment in SEGMENTS {
            assert_eq!(display.is_high(Line::Segment(segment)), zero.contains(segment));
        }
        assert!(!display.is_high(Line::Segment(Segment::G)));
    }
}

fn shown(display: &SevenSegment) -> (Vec<DigitPosition>, Vec<Segment>) {
    let positions =
        [DigitPosition::One, DigitPosition::Two, DigitPosition::Three, DigitPosition::Four];
    (
        positions.into_iter().filter(|position| display.is_high(Line::Select(*position))).collect(),
        SEGMENTS.into_iter().filter(|segment| display.is_high(Line::Segment(*segment))).collect(),
    )
}

fn pattern_segments(number: u8) -> Vec<Segment> {
    let pattern = pattern_for(number);
    SEGMENTS.into_iter().filter(|segment| pattern.contains(*segment)).collect()
}

#[test]
fn a_new_scheduler_stands_at_the_start_of_a_scan() {
    let scheduler = Multiplexer::new();
    assert_eq!(scheduler.state(), ScanState { position: DigitPosition::Four, reading: 0 });
    assert!(scheduler.at_scan_start());
}

#[test]
fn scheduler_walks_from_position_four_down_to_one_and_starts_again() {
    let register = TimeRegister::new(1234);
    let mut display = SevenSegment::new();
    let mut scheduler = Multiplexer::new();
    let expected = [
        (DigitPosition::Four, 1u8),
        (DigitPosition::Three, 2),
        (DigitPosition::Two, 3),
        (DigitPosition::One, 4),
    ];
    for _ in 0..3 {
        for (position, number) in expected {
            assert_eq!(scheduler.state().position, position);
            let mut replay = SevenSegment::new();
            let writes = scheduler.step(&register, &mut display);
            assert_eq!(writes, replay.display_digit_number(position.number(), number));
            assert_eq!(shown(&display), (vec![position], pattern_segments(number)));
        }
        assert!(scheduler.at_scan_start());
    }
}

#[test]
fn a_scan_keeps_the_reading_that_it_started_with() {
    let register = TimeRegister::new(1234);
    let mut display = SevenSegment::new();
    let mut scheduler = Multiplexer::new();
    scheduler.step(&register, &mut display);
    assert_eq!(shown(&display), (vec![DigitPosition::Four], pattern_segments(1)));
    // The time source stores a new reading in the middle of the scan.
    register.store(2359);
    scheduler.step(&register, &mut display);
    assert_eq!(shown(&display), (vec![DigitPosition::Three], pattern_segments(2)));
    scheduler.step(&register, &mut display);
    assert_eq!(shown(&display), (vec![DigitPosition::Two], pattern_segments(3)));
    scheduler.step(&register, &mut display);
    assert_eq!(shown(&display), (vec![DigitPosition::One], pattern_segments(4)));
    // The next scan takes the new reading up.
    assert!(scheduler.at_scan_start());
    scheduler.step(&register, &mut display);
    assert_eq!(scheduler.state(), ScanState { position: DigitPosition::Three, reading: 2359 });
    assert_eq!(shown(&display), (vec![DigitPosition::Four], pattern_segments(2)));
    scheduler.step(&register, &mut display);
    assert_eq!(shown(&display), (vec![DigitPosition::Three], pattern_segments(3)));
}

#[test]
fn step_with_ignores_the_sample_in_the_middle_of_a_scan() {
    let mut display = SevenSegment::new();
    let mut scheduler = Multiplexer::new();
    scheduler.step_with(905, &mut display);
    assert_eq!(scheduler.state(), ScanState { position: DigitPosition::Three, reading: 905 });
    scheduler.step_with(1111, &mut display);
    assert_eq!(scheduler.state(), ScanState { position: DigitPosition::Two, reading: 905 });
    assert_eq!(shown(&display), (vec![DigitPosition::Three], pattern_segments(9)));
    scheduler.step_with(2222, &mut display);
    assert_eq!(shown(&display), (vec![DigitPosition::Two], pattern_segments(0)));
    scheduler.step_with(3333, &mut display);
    assert_eq!(shown(&display), (vec![DigitPosition::One], pattern_segments(5)));
    assert_eq!(scheduler.state(), ScanState { position: DigitPosition::Four, reading: 905 });
}
