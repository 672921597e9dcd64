use segment_clock::display::{DigitPosition, Line, LineWrite, SevenSegment};
use segment_clock::segments::{pattern_for, Segment};

const POSITIONS: [DigitPosition; 4] =
    [DigitPosition::One, DigitPosition::Two, DigitPosition::Three, DigitPosition::Four];

const SEGMENTS: [Segment; 8] = [
    Segment::A,
    Segment::B,
    Segment::C,
    Segment::D,
    Segment::E,
    Segment::F,
    Segment::G,
    Segment::Dp,
];

fn low(line: Line) -> LineWrite {
    LineWrite { line, high: false }
}

fn high(line: Line) -> LineWrite {
    LineWrite { line, high: true }
}

fn clear_writes() -> Vec<LineWrite> {
    let mut writes = Vec::new();
    for position in POSITIONS {
        writes.push(low(Line::Select(position)));
    }
    for segment in SEGMENTS {
        writes.push(low(Line::Segment(segment)));
    }
    writes
}

fn selected(display: &SevenSegment) -> Vec<DigitPosition> {
    POSITIONS.iter().copied().filter(|position| display.is_high(Line::Select(*position))).collect()
}

fn lit(display: &SevenSegment) -> Vec<Segment> {
    SEGMENTS.iter().copied().filter(|segment| display.is_high(Line::Segment(*segment))).collect()
}

#[test]
fn new_driver_has_every_line_low() {
    let display = SevenSegment::new();
    assert!(selected(&display).is_empty());
    assert!(lit(&display).is_empty());
}

#[test]
fn show_writes_clear_then_select_then_paint() {
    let mut display = SevenSegment::new();
    let writes = display.display_digit_number(4, 1);
    let mut expected = clear_writes();
    expected.push(high(Line::Select(DigitPosition::Four)));
    expected.push(high(Line::Segment(Segment::B)));
    expected.push(high(Line::Segment(Segment::C)));
    assert_eq!(writes, expected);
}

#[test]
fn show_leaves_one_digit_selected_and_the_pattern_lit() {
    let mut display = SevenSegment::new();
    for digit in 1..=4u8 {
        for number in 0..=12u8 {
            display.display_digit_number(digit, number);
            assert_eq!(selected(&display), vec![DigitPosition::from_number(digit)]);
            let pattern = pattern_for(number);
            for segment in SEGMENTS {
                assert_eq!(display.is_high(Line::Segment(segment)), pattern.contains(segment));
            }
        }
    }
}

#[test]
fn show_does_not_depend_on_what_was_shown_before() {
    let mut fresh = SevenSegment::new();
    fresh.display_digit_number(2, 7);
    let mut used = SevenSegment::new();
    used.display_digit_number(4, 8);
    used.display_digit_number(3, 10);
    used.display_digit_number(2, 7);
    for position in POSITIONS {
        assert_eq!(fresh.is_high(Line::Select(position)), used.is_high(Line::Select(position)));
    }
    for segment in SEGMENTS {
        assert_eq!(fresh.is_high(Line::Segment(segment)), used.is_high(Line::Segment(segment)));
    }
    assert_eq!(selected(&used), vec![DigitPosition::Two]);
    assert_eq!(lit(&used), vec![Segment::A, Segment::B, Segment::C, Segment::F]);
}

#[test]
fn showing_twice_gives_the_same_writes() {
    let mut display = SevenSegment::new();
    let first = display.display_digit_number(3, 5);
    let second = display.display_digit_number(3, 5);
    assert_eq!(first, second);
}

#[test]
fn replaying_the_writes_on_any_lines_reaches_the_frame() {
    let mut display = SevenSegment::new();
    let writes = display.display_digit_number(1, 9);
    // Twelve physical lines that all start high.
    let mut lines = [true; 12];
    for write in &writes {
        lines[write.line.index()] = write.high;
    }
    for index in 0..12 {
        assert_eq!(lines[index], display.is_high(Line::at(index)));
    }
    let high_selects: Vec<usize> = (0..4).filter(|index| lines[*index]).collect();
    assert_eq!(high_selects, vec![0]);
}

#[test]
fn every_write_after_the_first_twelve_is_high() {
    let mut display = SevenSegment::new();
    let writes = display.display_digit_number(2, 8);
    assert_eq!(writes.len(), 12 + 1 + 7);
    assert!(writes[..12].iter().all(|write| !write.high));
    assert!(writes[12..].iter().all(|write| write.high));
}

#[test]
fn numbers_outside_one_to_four_select_position_one() {
    for digit in [0u8, 5, 6, 100, 255] {
        let mut display = SevenSegment::new();
        let writes = display.display_digit_number(digit, 0);
        assert_eq!(writes[12], high(Line::Select(DigitPosition::One)));
        assert_eq!(selected(&display), vec![DigitPosition::One]);
    }
}

#[test]
fn decimal_point_value_lights_only_the_decimal_point_line() {
    let mut display = SevenSegment::new();
    let writes = display.display_digit_number(3, 10);
    assert_eq!(writes.len(), 14);
    assert_eq!(writes[13], high(Line::Segment(Segment::Dp)));
    assert_eq!(lit(&display), vec![Segment::Dp]);
}

#[test]
fn position_numbers_run_from_one_to_four() {
    assert_eq!(DigitPosition::One.number(), 1);
    assert_eq!(DigitPosition::Two.number(), 2);
    assert_eq!(DigitPosition::Three.number(), 3);
    assert_eq!(DigitPosition::Four.number(), 4);
    for position in POSITIONS {
        assert_eq!(DigitPosition::from_number(position.number()), position);
    }
}

#[test]
fn line_index_and_at_are_inverse() {
    for index in 0..12usize {
        assert_eq!(Line::at(index).index(), index);
    }
    assert_eq!(Line::at(0), Line::Select(DigitPosition::One));
    assert_eq!(Line::at(3), Line::Select(DigitPosition::Four));
    assert_eq!(Line::at(4), Line::Segment(Segment::A));
    assert_eq!(Line::at(11), Line::Segment(Segment::Dp));
}

#[test]
fn no_digit_is_selected_while_the_segments_change() {
    for (old_digit, old_number, digit, number) in
        [(4u8, 8u8, 3u8, 1u8), (1, 2, 1, 5), (2, 10, 4, 0), (3, 7, 2, 200)]
    {
        let mut display = SevenSegment::new();
        display.display_digit_number(old_digit, old_number);
        let mut lines = [false; 12];
        for index in 0..12 {
            lines[index] = display.is_high(Line::at(index));
        }
        let before = lines;
        let writes = display.display_digit_number(digit, number);
        for (done, write) in writes.iter().enumerate() {
            lines[write.line.index()] = write.high;
            let done = done + 1;
            let selects = lines[..4].iter().filter(|high| **high).count();
            assert!(selects <= 1);
            if done <= 12 {
                for index in 0..12 {
                    assert!(!lines[index] || before[index]);
                }
            }
            if (4..=12).contains(&done) {
                assert_eq!(selects, 0);
            }
            if done >= 12 {
                for index in 0..12 {
                    assert!(!lines[index] || display.is_high(Line::at(index)));
                }
            }
        }
    }
}
