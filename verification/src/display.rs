//! The display driver: twelve output lines, and the line writes that show
//! a value on one digit.
//!
//! The driver keeps the level of every line and hands out, for each
//! operation, the writes to perform on the physical lines, in order. It
//! never touches hardware itself.

use crate::segments::{glyph, pattern_for, Segment};
use vstd::prelude::*;

verus! {

/// One of the four digits of the display. Position four is the leftmost
/// digit, position one the rightmost.
#[derive(Clone, Copy, Debug, PartialEq, Eq, Structural)]
pub enum DigitPosition {
    One,
    Two,
    Three,
    Four,
}

impl DigitPosition {
    /// The position that the number `digit` selects: 2, 3 and 4 select
    /// their own position, every other number selects position one.
    pub open spec fn of(digit: int) -> DigitPosition {
        if digit == 4 {
            DigitPosition::Four
        } else if digit == 3 {
            DigitPosition::Three
        } else if digit == 2 {
            DigitPosition::Two
        } else {
            DigitPosition::One
        }
    }

    /// The number of this position, from 1 to 4.
    pub open spec fn spec_number(self) -> int {
        match self {
            DigitPosition::One => 1,
            DigitPosition::Two => 2,
            DigitPosition::Three => 3,
            DigitPosition::Four => 4,
        }
    }

    /// The position that the number `digit` selects.
    pub fn from_number(digit: u8) -> (position: Self)
        ensures
            position == Self::of(digit as int),
            1 <= digit <= 4 ==> position.spec_number() == digit,
    {
        match digit {
            4 => DigitPosition::Four,
            3 => DigitPosition::Three,
            2 => DigitPosition::Two,
            _ => DigitPosition::One,
        }
    }

    /// The number of this position, from 1 to 4.
    pub fn number(self) -> (number: u8)
        ensures
            number == self.spec_number(),
            1 <= number <= 4,
            Self::of(number as int) == self,
    {
        match self {
            DigitPosition::One => 1,
            DigitPosition::Two => 2,
            DigitPosition::Three => 3,
            DigitPosition::Four => 4,
        }
    }
}

/// One of the twelve output lines: a digit-select line or a segment line.
#[derive(Clone, Copy, Debug, PartialEq, Eq, Structural)]
pub enum Line {
    Select(DigitPosition),
    Segment(Segment),
}

impl Line {
    /// The place of this line among the twelve, counted from 0: the
    /// digit-select lines from position one to four, then the segments `a`
    /// to `g`, then the decimal point.
    pub open spec fn spec_index(self) -> int {
        match self {
            Line::Select(position) => position.spec_number() - 1,
            Line::Segment(segment) => 4 + segment.spec_rank(),
        }
    }

    /// The line at place `index`; position one where `index` is negative,
    /// the decimal point where it is 11 or more.
    pub open spec fn spec_at(index: int) -> Line {
        if index < 4 {
            Line::Select(DigitPosition::of(index + 1))
        } else {
            Line::Segment(Segment::spec_at(index - 4))
        }
    }

    /// The place of this line among the twelve, counted from 0.
    pub fn index(self) -> (index: usize)
        ensures
            index == self.spec_index(),
            index < 12,
            Self::spec_at(index as int) == self,
    {
        match self {
            Line::Select(position) => (position.number() - 1) as usize,
            Line::Segment(segment) => 4 + segment.rank(),
        }
    }

    /// The line at place `index`; the decimal point where `index` is 11
    /// or more.
    pub fn at(index: usize) -> (line: Self)
        ensures
            line == Self::spec_at(index as int),
            index < 12 ==> line.spec_index() == index,
    {
        if index < 4 {
            Line::Select(DigitPosition::from_number((index + 1) as u8))
        } else {
            Line::Segment(Segment::at(index - 4))
        }
    }
}

/// Every line has a place from 0 to 11, and no two lines share one.
pub proof fn lemma_line_index(line: Line)
    ensures
        0 <= line.spec_index() < 12,
        Line::spec_at(line.spec_index()) == line,
{
}

/// One write to an output line: drive it high (active) or low (inactive).
#[derive(Clone, Copy, Debug, PartialEq, Eq, Structural)]
pub struct LineWrite {
    pub line: Line,
    pub high: bool,
}

/// The write that drives `line` low.
pub open spec fn low(line: Line) -> LineWrite {
    LineWrite { line, high: false }
}

/// The write that drives `line` high.
pub open spec fn high(line: Line) -> LineWrite {
    LineWrite { line, high: true }
}

/// The lines that are high after `write`, where `lines` were high before.
pub open spec fn after_write(lines: Set<Line>, write: LineWrite) -> Set<Line> {
    if write.high {
        lines.insert(write.line)
    } else {
        lines.remove(write.line)
    }
}

/// The lines that are high after `writes`, performed in order, where
/// `lines` were high before.
pub open spec fn after_writes(lines: Set<Line>, writes: Seq<LineWrite>) -> Set<Line>
    decreases writes.len(),
{
    if writes.len() == 0 {
        lines
    } else {
        after_write(after_writes(lines, writes.drop_last()), writes.last())
    }
}

/// The first `count` of the writes that drive every line low.
pub open spec fn clear_upto(count: nat) -> Seq<LineWrite> {
    Seq::new(count, |index: int| low(Line::spec_at(index)))
}

/// The writes that drive every line low: the four digit-select lines from
/// position one to four, then the segments `a` to `g`, then the decimal
/// point.
pub open spec fn clear_plan() -> Seq<LineWrite> {
    clear_upto(12)
}

/// The write that lights `segment` if `lit` holds it, and no write if not.
pub open spec fn paint_one(lit: Set<Segment>, segment: Segment) -> Seq<LineWrite> {
    if lit.contains(segment) {
        seq![high(Line::Segment(segment))]
    } else {
        Seq::empty()
    }
}

/// The writes that light those of the first `count` segments that `lit`
/// holds.
pub open spec fn paint_upto(lit: Set<Segment>, count: nat) -> Seq<LineWrite>
    decreases count,
{
    if count == 0 {
        Seq::empty()
    } else {
        paint_upto(lit, (count - 1) as nat) + paint_one(lit, Segment::spec_at(count - 1))
    }
}

/// The writes that light the segments of `lit`, in the order `a` to `g`,
/// then the decimal point.
pub open spec fn paint_plan(lit: Set<Segment>) -> Seq<LineWrite> {
    paint_upto(lit, 8)
}

/// The write that selects the digit of the number `digit`.
pub open spec fn select_write(digit: u8) -> LineWrite {
    high(Line::Select(DigitPosition::of(digit as int)))
}

/// The writes that show `number` on the digit that `digit` selects: clear
/// every line, select the digit, light the segments of the number.
pub open spec fn show_plan(digit: u8, number: u8) -> Seq<LineWrite> {
    clear_plan().push(select_write(digit)) + paint_plan(glyph(number))
}

/// The lines that are high while `number` shows on the digit that `digit`
/// selects: that digit's select line and no other, and the segments of the
/// number and no others.
pub open spec fn frame(digit: u8, number: u8) -> Set<Line> {
    Set::new(
        |line: Line|
            match line {
                Line::Select(position) => position == DigitPosition::of(digit as int),
                Line::Segment(segment) => glyph(number).contains(segment),
            },
    )
}

/// Writes performed after others act on what the others left.
pub proof fn lemma_after_writes_concat(lines: Set<Line>, first: Seq<LineWrite>, then: Seq<LineWrite>)
    ensures
        after_writes(lines, first + then) == after_writes(after_writes(lines, first), then),
    decreases then.len(),
{
    if then.len() == 0 {
        assert(first + then =~= first);
    } else {
        assert((first + then).drop_last() =~= first + then.drop_last());
        assert((first + then).last() == then.last());
        lemma_after_writes_concat(lines, first, then.drop_last());
    }
}

/// One more write acts on what the writes before it left.
pub proof fn lemma_after_writes_push(lines: Set<Line>, writes: Seq<LineWrite>, write: LineWrite)
    ensures
        after_writes(lines, writes.push(write)) == after_write(after_writes(lines, writes), write),
{
    assert(writes.push(write).drop_last() =~= writes);
    assert(writes.push(write).last() == write);
}

/// The lines of `lines` whose place is `count` or more.
pub open spec fn from_place(lines: Set<Line>, count: nat) -> Set<Line> {
    Set::new(|line: Line| lines.contains(line) && line.spec_index() >= count)
}

/// The first `count` clearing writes lower the first `count` lines and
/// leave the others as they were.
pub proof fn lemma_clear_upto(lines: Set<Line>, count: nat)
    requires
        count <= 12,
    ensures
        after_writes(lines, clear_upto(count)) == from_place(lines, count),
    decreases count,
{
    if count == 0 {
        assert(from_place(lines, 0) =~= lines) by {
            assert forall|line: Line| lines.contains(line) implies from_place(lines, 0).contains(
                line,
            ) by {
                lemma_line_index(line);
            }
        }
    } else {
        let before = (count - 1) as nat;
        lemma_clear_upto(lines, before);
        let write = low(Line::spec_at(before as int));
        assert(clear_upto(count) =~= clear_upto(before).push(write));
        lemma_after_writes_push(lines, clear_upto(before), write);
        assert(from_place(lines, before).remove(write.line) =~= from_place(lines, count)) by {
            assert forall|line: Line|
                from_place(lines, before).remove(write.line).contains(line) == from_place(
                    lines,
                    count,
                ).contains(line) by {
                lemma_line_index(line);
                lemma_line_index(write.line);
            }
        }
    }
}

/// Clearing leaves no line high, whatever was high before.
pub proof fn lemma_clear_plan_clears(lines: Set<Line>)
    ensures
        after_writes(lines, clear_plan()) == Set::<Line>::empty(),
{
    lemma_clear_upto(lines, 12);
    assert(from_place(lines, 12) =~= Set::<Line>::empty()) by {
        assert forall|line: Line| !from_place(lines, 12).contains(line) by {
            lemma_line_index(line);
        }
    }
}

/// The lines that are high after those of the first `count` segments that
/// `lit` holds were lit, where `lines` were high before.
pub open spec fn painted(lines: Set<Line>, lit: Set<Segment>, count: nat) -> Set<Line> {
    Set::new(
        |line: Line|
            lines.contains(line) || match line {
                Line::Select(_) => false,
                Line::Segment(segment) => segment.spec_rank() < count && lit.contains(segment),
            },
    )
}

/// Painting raises the lines of the lit segments and changes no other line.
pub proof fn lemma_paint_upto(lines: Set<Line>, lit: Set<Segment>, count: nat)
    requires
        count <= 8,
    ensures
        after_writes(lines, paint_upto(lit, count)) == painted(lines, lit, count),
    decreases count,
{
    if count == 0 {
        assert(painted(lines, lit, 0) =~= lines);
    } else {
        let before = (count - 1) as nat;
        let segment = Segment::spec_at(before as int);
        lemma_paint_upto(lines, lit, before);
        lemma_after_writes_concat(lines, paint_upto(lit, before), paint_one(lit, segment));
        let reached = painted(lines, lit, before);
        if lit.contains(segment) {
            let write = high(Line::Segment(segment));
            assert(paint_one(lit, segment) =~= Seq::<LineWrite>::empty().push(write));
            lemma_after_writes_push(reached, Seq::empty(), write);
            assert(reached.insert(write.line) =~= painted(lines, lit, count));
        } else {
            assert(reached =~= painted(lines, lit, count));
        }
    }
}

/// Whatever lines were high before, the writes that show a number on a
/// digit leave exactly one digit-select line high, that of the digit, and
/// exactly the segment lines of the number's pattern.
pub proof fn show_plan_reaches_frame(before: Set<Line>, digit: u8, number: u8)
    ensures
        after_writes(before, show_plan(digit, number)) == frame(digit, number),
        forall|position: DigitPosition| #[trigger]
            frame(digit, number).contains(Line::Select(position)) <==> position
                == DigitPosition::of(digit as int),
        forall|segment: Segment| #[trigger]
            frame(digit, number).contains(Line::Segment(segment)) <==> glyph(number).contains(
                segment,
            ),
{
    let select = select_write(digit);
    let head = clear_plan().push(select);
    lemma_clear_plan_clears(before);
    lemma_after_writes_push(before, clear_plan(), select);
    let selected = after_writes(before, head);
    assert(selected == Set::<Line>::empty().insert(select.line));
    lemma_after_writes_concat(before, head, paint_plan(glyph(number)));
    lemma_paint_upto(selected, glyph(number), 8);
    assert(painted(selected, glyph(number), 8) =~= frame(digit, number));
}

/// Whether every write of `writes` raises a line of `allowed`.
pub open spec fn only_raises(writes: Seq<LineWrite>, allowed: Set<Line>) -> bool {
    forall|index: int|
        0 <= index < writes.len() ==> (#[trigger] writes[index]).high && allowed.contains(
            writes[index].line,
        )
}

/// Writes that only raise lines of `allowed` leave no line high that was
/// not high before, other than lines of `allowed`.
pub proof fn lemma_raises_stay_within(lines: Set<Line>, writes: Seq<LineWrite>, allowed: Set<Line>)
    requires
        only_raises(writes, allowed),
    ensures
        after_writes(lines, writes).subset_of(lines + allowed),
    decreases writes.len(),
{
    if writes.len() > 0 {
        let last = writes.last();
        assert(last == writes[writes.len() - 1]);
        assert forall|index: int| 0 <= index < writes.drop_last().len() implies (
        #[trigger] writes.drop_last()[index]).high && allowed.contains(
            writes.drop_last()[index].line,
        ) by {
            assert(writes.drop_last()[index] == writes[index]);
        }
        lemma_raises_stay_within(lines, writes.drop_last(), allowed);
    }
}

/// Every write of a paint plan raises the line of a lit segment.
pub proof fn lemma_paint_only_raises(lit: Set<Segment>, count: nat, allowed: Set<Line>)
    requires
        forall|segment: Segment|
            lit.contains(segment) ==> #[trigger] allowed.contains(Line::Segment(segment)),
    ensures
        only_raises(paint_upto(lit, count), allowed),
    decreases count,
{
    if count > 0 {
        lemma_paint_only_raises(lit, (count - 1) as nat, allowed);
    }
}

/// The lines that are high when the first `done` writes of the plan that
/// shows `number` on `digit` are performed, where `before` were high
/// before.
pub open spec fn during_show(before: Set<Line>, digit: u8, number: u8, done: int) -> Set<Line> {
    after_writes(before, show_plan(digit, number).take(done))
}

/// While a number is being shown, no digit ever shows segments that are
/// not its own. Whatever lines were high before, after any number of the
/// writes of the plan, performed in order:
///
/// - no line is high that was low before, as long as the plan is still
///   clearing (the first twelve writes);
/// - no digit is selected from the moment the four digit-select lines are
///   cleared (four writes) until every line is cleared (twelve writes), so
///   the segments change in the dark;
/// - from then on every line that is high is one of the new frame.
pub proof fn show_plan_never_ghosts(before: Set<Line>, digit: u8, number: u8, done: int)
    requires
        0 <= done <= show_plan(digit, number).len(),
    ensures
        done <= 12 ==> during_show(before, digit, number, done).subset_of(before),
        4 <= done <= 12 ==> forall|position: DigitPosition|
            !(#[trigger] during_show(before, digit, number, done).contains(
                Line::Select(position),
            )),
        12 <= done ==> during_show(before, digit, number, done).subset_of(frame(digit, number)),
{
    let plan = show_plan(digit, number);
    let reached = during_show(before, digit, number, done);
    let select = select_write(digit);
    let head = clear_plan().push(select);
    if done <= 12 {
        assert(plan.take(done) =~= clear_upto(done as nat));
        lemma_clear_upto(before, done as nat);
        if done >= 4 {
            assert forall|position: DigitPosition|
                !(#[trigger] reached.contains(Line::Select(position))) by {
                lemma_line_index(Line::Select(position));
            }
        }
        if done == 12 {
            lemma_clear_plan_clears(before);
        }
    } else {
        let paint = paint_plan(glyph(number));
        let part = paint.take(done - 13);
        assert(plan.take(done) =~= head + part);
        lemma_clear_plan_clears(before);
        lemma_after_writes_push(before, clear_plan(), select);
        lemma_after_writes_concat(before, head, part);
        let selected = Set::<Line>::empty().insert(select.line);
        lemma_paint_only_raises(glyph(number), 8, frame(digit, number));
        assert(only_raises(part, frame(digit, number))) by {
            assert forall|index: int| 0 <= index < part.len() implies (#[trigger] part[index]).high
                && frame(digit, number).contains(part[index].line) by {
                assert(part[index] == paint[index]);
            }
        }
        lemma_raises_stay_within(selected, part, frame(digit, number));
    }
}

/// The driver of the display. It keeps the level that it last gave each
/// of the twelve lines. The caller owns the pins and performs on them the
/// writes that the driver hands out.
pub struct SevenSegment {
    levels: [bool; 12],
}

impl SevenSegment {
    /// The lines that are high.
    pub closed spec fn view(&self) -> Set<Line> {
        Set::new(|line: Line| self.levels@[line.spec_index()])
    }

    /// A driver whose lines are all low.
    pub fn new() -> (driver: Self)
        ensures
            driver@ == Set::<Line>::empty(),
    {
        let driver = SevenSegment { levels: [false; 12] };
        assert(driver@ =~= Set::<Line>::empty()) by {
            assert forall|line: Line| !driver@.contains(line) by {
                lemma_line_index(line);
            }
        }
        driver
    }

    /// Whether `line` is high.
    pub fn is_high(&self, line: Line) -> (r: bool)
        ensures
            r == self@.contains(line),
    {
        self.levels[line.index()]
    }

    /// Gives `line` the level `high` and appends the write to `writes`.
    fn drive(&mut self, line: Line, high: bool, writes: &mut Vec<LineWrite>)
        ensures
            final(self)@ == after_write(old(self)@, LineWrite { line, high }),
            final(writes)@ == old(writes)@.push(LineWrite { line, high }),
    {
        let index = line.index();
        self.levels[index] = high;
        writes.push(LineWrite { line, high });
        assert(self@ =~= after_write(old(self)@, LineWrite { line, high })) by {
            assert forall|other: Line|
                self@.contains(other) == after_write(old(self)@, LineWrite { line, high }).contains(
                    other,
                ) by {
                lemma_line_index(other);
                lemma_line_index(line);
            }
        }
    }

    /// Drives every line low and appends the writes to `writes`.
    fn turn_off_all(&mut self, writes: &mut Vec<LineWrite>)
        ensures
            final(self)@ == after_writes(old(self)@, clear_plan()),
            final(writes)@ == old(writes)@ + clear_plan(),
    {
        let ghost lines = self@;
        let ghost written = writes@;
        let mut index: usize = 0;
        assert(writes@ =~= written + clear_upto(0));
        while index < 12
            invariant
                index <= 12,
                self@ == after_writes(lines, clear_upto(index as nat)),
                writes@ == written + clear_upto(index as nat),
            decreases 12 - index,
        {
            let line = Line::at(index);
            self.drive(line, false, writes);
            proof {
                assert(clear_upto((index + 1) as nat) =~= clear_upto(index as nat).push(low(line)));
                lemma_after_writes_push(lines, clear_upto(index as nat), low(line));
                assert(writes@ =~= written + clear_upto((index + 1) as nat));
            }
            index += 1;
        }
    }

    /// Shows `number` on the digit that `digit` selects, and returns the
    /// writes to perform on the lines, in order: every line low, then the
    /// digit's select line high, then the lines of the number's segments
    /// high. Of `digit`, 2, 3 and 4 select their own position and every
    /// other number selects position one.
    pub fn display_digit_number(&mut self, digit: u8, number: u8) -> (writes: Vec<LineWrite>)
        ensures
            writes@ == show_plan(digit, number),
            final(self)@ == after_writes(old(self)@, writes@),
            final(self)@ == frame(digit, number),
    {
        let ghost lines = self@;
        let mut writes: Vec<LineWrite> = Vec::new();
        self.turn_off_all(&mut writes);
        self.drive(Line::Select(DigitPosition::from_number(digit)), true, &mut writes);
        let ghost head = clear_plan().push(select_write(digit));
        let lit = pattern_for(number);
        proof {
            assert(writes@ =~= head + paint_upto(lit@, 0));
            lemma_after_writes_push(lines, clear_plan(), select_write(digit));
        }
        let mut rank: usize = 0;
        while rank < 8
            invariant
                rank <= 8,
                lit@ == glyph(number),
                self@ == after_writes(lines, writes@),
                writes@ == head + paint_upto(lit@, rank as nat),
            decreases 8 - rank,
        {
            let segment = Segment::at(rank);
            let ghost painted = writes@;
            if lit.contains(segment) {
                self.drive(Line::Segment(segment), true, &mut writes);
                proof {
                    lemma_after_writes_push(lines, painted, high(Line::Segment(segment)));
                }
            }
            proof {
                assert(writes@ =~= painted + paint_one(lit@, segment));
                assert(writes@ =~= head + paint_upto(lit@, (rank + 1) as nat));
            }
            rank += 1;
        }
        proof {
            show_plan_reaches_frame(lines, digit, number);
        }
        writes
    }
}

} // verus!
