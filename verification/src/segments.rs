//! The segment pattern table: which segments render which value.

use vstd::prelude::*;

verus! {

/// The value that lights the decimal point and nothing else.
pub const DECIMAL_POINT: u8 = 10;

/// One segment of a digit: the seven bars `a` to `g`, and the decimal point.
#[derive(Clone, Copy, Debug, PartialEq, Eq, Structural)]
pub enum Segment {
    A,
    B,
    C,
    D,
    E,
    F,
    G,
    Dp,
}

impl Segment {
    /// The place of this segment in the order `a` to `g`, then the decimal
    /// point, counted from 0.
    pub open spec fn spec_rank(self) -> int {
        match self {
            Segment::A => 0,
            Segment::B => 1,
            Segment::C => 2,
            Segment::D => 3,
            Segment::E => 4,
            Segment::F => 5,
            Segment::G => 6,
            Segment::Dp => 7,
        }
    }

    /// The segment at place `rank`; the decimal point where `rank` is 7 or
    /// more.
    pub open spec fn spec_at(rank: int) -> Segment {
        if rank <= 0 {
            Segment::A
        } else if rank == 1 {
            Segment::B
        } else if rank == 2 {
            Segment::C
        } else if rank == 3 {
            Segment::D
        } else if rank == 4 {
            Segment::E
        } else if rank == 5 {
            Segment::F
        } else if rank == 6 {
            Segment::G
        } else {
            Segment::Dp
        }
    }

    /// The place of this segment in the order `a` to `g`, then the decimal
    /// point, counted from 0.
    pub fn rank(self) -> (rank: usize)
        ensures
            rank == self.spec_rank(),
            rank < 8,
            Self::spec_at(rank as int) == self,
    {
        match self {
            Segment::A => 0,
            Segment::B => 1,
            Segment::C => 2,
            Segment::D => 3,
            Segment::E => 4,
            Segment::F => 5,
            Segment::G => 6,
            Segment::Dp => 7,
        }
    }

    /// The segment at place `rank`; the decimal point where `rank` is 7 or
    /// more.
    pub fn at(rank: usize) -> (segment: Self)
        ensures
            segment == Self::spec_at(rank as int),
            rank < 8 ==> segment.spec_rank() == rank,
    {
        match rank {
            0 => Segment::A,
            1 => Segment::B,
            2 => Segment::C,
            3 => Segment::D,
            4 => Segment::E,
            5 => Segment::F,
            6 => Segment::G,
            _ => Segment::Dp,
        }
    }
}

/// The segments that are lit, one flag per segment.
#[derive(Clone, Copy, Debug, PartialEq, Eq, Structural)]
pub struct SegmentSet {
    pub a: bool,
    pub b: bool,
    pub c: bool,
    pub d: bool,
    pub e: bool,
    pub f: bool,
    pub g: bool,
    pub dp: bool,
}

impl SegmentSet {
    /// Whether the flag of `segment` is set.
    pub open spec fn lit(self, segment: Segment) -> bool {
        match segment {
            Segment::A => self.a,
            Segment::B => self.b,
            Segment::C => self.c,
            Segment::D => self.d,
            Segment::E => self.e,
            Segment::F => self.f,
            Segment::G => self.g,
            Segment::Dp => self.dp,
        }
    }

    /// The lit segments as a set.
    pub open spec fn view(self) -> Set<Segment> {
        Set::new(|segment: Segment| self.lit(segment))
    }

    /// Whether `segment` is lit.
    pub fn contains(&self, segment: Segment) -> (r: bool)
        ensures
            r == self@.contains(segment),
    {
        match segment {
            Segment::A => self.a,
            Segment::B => self.b,
            Segment::C => self.c,
            Segment::D => self.d,
            Segment::E => self.e,
            Segment::F => self.f,
            Segment::G => self.g,
            Segment::Dp => self.dp,
        }
    }

    /// The set with the flags given in the order `a` to `g`, then the
    /// decimal point.
    fn of(a: bool, b: bool, c: bool, d: bool, e: bool, f: bool, g: bool, dp: bool) -> (s: Self)
        ensures
            s == (SegmentSet { a, b, c, d, e, f, g, dp }),
    {
        SegmentSet { a, b, c, d, e, f, g, dp }
    }
}

/// The glyph shown where a value is neither a digit nor the decimal point:
/// the middle bar alone.
pub open spec fn fallback_glyph() -> Set<Segment> {
    set![Segment::G]
}

/// The segments that render `value`: the usual shapes for the digits 0 to
/// 9, the decimal point alone for [`DECIMAL_POINT`], and the fallback glyph
/// for everything else.
pub open spec fn glyph(value: u8) -> Set<Segment> {
    if value == 0 {
        set![Segment::A, Segment::B, Segment::C, Segment::D, Segment::E, Segment::F]
    } else if value == 1 {
        set![Segment::B, Segment::C]
    } else if value == 2 {
        set![Segment::A, Segment::B, Segment::D, Segment::E, Segment::G]
    } else if value == 3 {
        set![Segment::A, Segment::B, Segment::C, Segment::D, Segment::G]
    } else if value == 4 {
        set![Segment::B, Segment::C, Segment::F, Segment::G]
    } else if value == 5 {
        set![Segment::A, Segment::C, Segment::D, Segment::F, Segment::G]
    } else if value == 6 {
        set![Segment::A, Segment::C, Segment::D, Segment::E, Segment::F, Segment::G]
    } else if value == 7 {
        set![Segment::A, Segment::B, Segment::C, Segment::F]
    } else if value == 8 {
        set![Segment::A, Segment::B, Segment::C, Segment::D, Segment::E, Segment::F, Segment::G]
    } else if value == 9 {
        set![Segment::A, Segment::B, Segment::C, Segment::D, Segment::F, Segment::G]
    } else if value == DECIMAL_POINT {
        set![Segment::Dp]
    } else {
        fallback_glyph()
    }
}

/// A number that tells the sets of segments apart: one bit per segment.
pub open spec fn code_of(lit: Set<Segment>) -> int {
    (if lit.contains(Segment::A) { 1int } else { 0 })
    + (if lit.contains(Segment::B) { 2int } else { 0 })
    + (if lit.contains(Segment::C) { 4int } else { 0 })
    + (if lit.contains(Segment::D) { 8int } else { 0 })
    + (if lit.contains(Segment::E) { 16int } else { 0 })
    + (if lit.contains(Segment::F) { 32int } else { 0 })
    + (if lit.contains(Segment::G) { 64int } else { 0 })
    + (if lit.contains(Segment::Dp) { 128int } else { 0 })
}

/// The number of the pattern of each value.
proof fn code_of_glyph(value: u8)
    ensures
        code_of(glyph(value)) == if value == 0 {
            63int
        } else if value == 1 {
            6
        } else if value == 2 {
            91
        } else if value == 3 {
            79
        } else if value == 4 {
            102
        } else if value == 5 {
            109
        } else if value == 6 {
            125
        } else if value == 7 {
            39
        } else if value == 8 {
            127
        } else if value == 9 {
            111
        } else if value == DECIMAL_POINT {
            128
        } else {
            64
        },
{
}

/// The pattern of a value tells the value: two values with the same
/// pattern are the same digit, or both the decimal point, or both
/// something else.
pub proof fn glyph_tells_value(first: u8, second: u8)
    requires
        glyph(first) == glyph(second),
    ensures
        first == second || (first > DECIMAL_POINT && second > DECIMAL_POINT),
{
    code_of_glyph(first);
    code_of_glyph(second);
}

/// A value that is neither a digit nor the decimal point has the fallback
/// glyph. That glyph lights a segment, and it is the pattern of no digit
/// and not that of the decimal point.
pub proof fn fallback_is_distinct(value: u8, other: u8)
    requires
        value > DECIMAL_POINT,
        other <= DECIMAL_POINT,
    ensures
        glyph(value) == fallback_glyph(),
        glyph(value) != glyph(other),
        glyph(value) != Set::<Segment>::empty(),
        glyph(value).contains(Segment::G),
{
    if glyph(value) == glyph(other) {
        glyph_tells_value(value, other);
    }
    assert(glyph(value).contains(Segment::G));
}

/// A set of flags is fixed by the segments that it lights: two sets that
/// light the same segments are equal. So every lookup of one value gives
/// the same flags.
pub proof fn pattern_is_fixed(first: SegmentSet, second: SegmentSet)
    requires
        first@ == second@,
    ensures
        first == second,
{
    assert forall|segment: Segment| first.lit(segment) == second.lit(segment) by {
        assert(first@.contains(segment) == first.lit(segment));
        assert(second@.contains(segment) == second.lit(segment));
    }
    assert(first.lit(Segment::A) == second.lit(Segment::A));
    assert(first.lit(Segment::B) == second.lit(Segment::B));
    assert(first.lit(Segment::C) == second.lit(Segment::C));
    assert(first.lit(Segment::D) == second.lit(Segment::D));
    assert(first.lit(Segment::E) == second.lit(Segment::E));
    assert(first.lit(Segment::F) == second.lit(Segment::F));
    assert(first.lit(Segment::G) == second.lit(Segment::G));
    assert(first.lit(Segment::Dp) == second.lit(Segment::Dp));
}

/// Looks up the segments that render `value`. The lookup is total: every
/// value has a pattern, and the same value always has the same one.
pub fn pattern_for(value: u8) -> (s: SegmentSet)
    ensures
        s@ == glyph(value),
{
    let s = match value {
        0 => SegmentSet::of(true, true, true, true, true, true, false, false),
        1 => SegmentSet::of(false, true, true, false, false, false, false, false),
        2 => SegmentSet::of(true, true, false, true, true, false, true, false),
        3 => SegmentSet::of(true, true, true, true, false, false, true, false),
        4 => SegmentSet::of(false, true, true, false, false, true, true, false),
        5 => SegmentSet::of(true, false, true, true, false, true, true, false),
        6 => SegmentSet::of(true, false, true, true, true, true, true, false),
        7 => SegmentSet::of(true, true, true, false, false, true, false, false),
        8 => SegmentSet::of(true, true, true, true, true, true, true, false),
        9 => SegmentSet::of(true, true, true, true, false, true, true, false),
        10 => SegmentSet::of(false, false, false, false, false, false, false, true),
        _ => SegmentSet::of(false, false, false, false, false, false, true, false),
    };
    assert(s@ =~= glyph(value));
    s
}

} // verus!
