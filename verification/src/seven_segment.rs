//! Decimal digits on a seven-segment indicator, driven directly by seven
//! lines or through a shift register that takes one byte per digit.
//!
//! Segments are named as usual: A at the top, then clockwise B, C, D, E, F,
//! and G in the middle. In a shift-register byte, segment A is bit 0 and
//! segment G is bit 6.

use vstd::prelude::*;

verus! {

/// Segment A in a shift-register byte.
pub const A: u8 = 0b0000_0001;

/// Segment B in a shift-register byte.
pub const B: u8 = 0b0000_0010;

/// Segment C in a shift-register byte.
pub const C: u8 = 0b0000_0100;

/// Segment D in a shift-register byte.
pub const D: u8 = 0b0000_1000;

/// Segment E in a shift-register byte.
pub const E: u8 = 0b0001_0000;

/// Segment F in a shift-register byte.
pub const F: u8 = 0b0010_0000;

/// Segment G in a shift-register byte.
pub const G: u8 = 0b0100_0000;

/// All seven segments.
pub const ALL: u8 = 0b0111_1111;

/// The digit 1.
pub const D_1: u8 = B | C;

/// The digit 2.
pub const D_2: u8 = A | B | G | E | D;

/// The digit 3.
pub const D_3: u8 = A | B | C | D | G;

/// The digit 4.
pub const D_4: u8 = F | G | B | C;

/// The digit 5.
pub const D_5: u8 = A | F | G | C | D;

/// The digit 6.
pub const D_6: u8 = ALL ^ B;

/// The digit 7.
pub const D_7: u8 = A | B | C;

/// The digit 8.
pub const D_8: u8 = ALL;

/// The digit 9.
pub const D_9: u8 = ALL ^ E;

/// The digit 0.
pub const D_0: u8 = ALL ^ G;

/// The shift-register byte that shows `digit`.
pub open spec fn digit_code(digit: int) -> u8 {
    if digit == 0 {
        D_0
    } else if digit == 1 {
        D_1
    } else if digit == 2 {
        D_2
    } else if digit == 3 {
        D_3
    } else if digit == 4 {
        D_4
    } else if digit == 5 {
        D_5
    } else if digit == 6 {
        D_6
    } else if digit == 7 {
        D_7
    } else if digit == 8 {
        D_8
    } else {
        D_9
    }
}

/// The byte to shift out for a counter: the code of its last decimal digit.
pub fn counter_code(counter: u8) -> (code: u8)
    ensures
        code == digit_code((counter % 10) as int),
{
    match counter % 10 {
        0 => D_0,
        1 => D_1,
        2 => D_2,
        3 => D_3,
        4 => D_4,
        5 => D_5,
        6 => D_6,
        7 => D_7,
        8 => D_8,
        _ => D_9,
    }
}

/// The counter after one second: one more, wrapping from 255 to 0.
pub fn next_count(counter: u8) -> (next: u8)
    ensures
        next == (if counter == 255 {
            0
        } else {
            counter + 1
        }),
{
    counter.wrapping_add(1)
}

/// The value of each digit code.
proof fn lemma_digit_code_values()
    ensures
        D_0 == 0x3f && D_1 == 0x06 && D_2 == 0x5b && D_3 == 0x4f && D_4 == 0x66,
        D_5 == 0x6d && D_6 == 0x7d && D_7 == 0x07 && D_8 == 0x7f && D_9 == 0x6f,
{
    assert(D_0 == 0x3f && D_1 == 0x06 && D_2 == 0x5b && D_3 == 0x4f && D_4 == 0x66) by (
    bit_vector);
    assert(D_5 == 0x6d && D_6 == 0x7d && D_7 == 0x07 && D_8 == 0x7f && D_9 == 0x6f) by (
    bit_vector);
}

/// The ten digit codes use only the seven segments, and no two digits look
/// alike.
pub proof fn lemma_digit_codes_distinct(i: int, j: int)
    requires
        0 <= i < 10,
        0 <= j < 10,
    ensures
        digit_code(i) <= ALL,
        i != j ==> digit_code(i) != digit_code(j),
{
    lemma_digit_code_values();
}

/// A segment of the indicator.
#[derive(Clone, Copy, Debug, PartialEq, Eq, Structural)]
pub enum Segment {
    A,
    B,
    C,
    D,
    E,
    F,
    G,
}

/// Driving one segment's line high (lit) or low.
#[derive(Clone, Copy, Debug, PartialEq, Eq, Structural)]
pub struct SegmentWrite {
    pub segment: Segment,
    pub high: bool,
}

/// Which segments are lit.
pub struct SegmentLevels {
    pub a: bool,
    pub b: bool,
    pub c: bool,
    pub d: bool,
    pub e: bool,
    pub f: bool,
    pub g: bool,
}

/// The segments lit by a shift-register byte.
pub open spec fn segments_of(code: u8) -> SegmentLevels {
    SegmentLevels {
        a: code & A == A,
        b: code & B == B,
        c: code & C == C,
        d: code & D == D,
        e: code & E == E,
        f: code & F == F,
        g: code & G == G,
    }
}

/// No segment lit.
pub open spec fn dark() -> SegmentLevels {
    SegmentLevels { a: false, b: false, c: false, d: false, e: false, f: false, g: false }
}

/// The segments after one write.
pub open spec fn apply_write(l: SegmentLevels, w: SegmentWrite) -> SegmentLevels {
    match w.segment {
        Segment::A => SegmentLevels { a: w.high, ..l },
        Segment::B => SegmentLevels { b: w.high, ..l },
        Segment::C => SegmentLevels { c: w.high, ..l },
        Segment::D => SegmentLevels { d: w.high, ..l },
        Segment::E => SegmentLevels { e: w.high, ..l },
        Segment::F => SegmentLevels { f: w.high, ..l },
        Segment::G => SegmentLevels { g: w.high, ..l },
    }
}

/// The segments after a sequence of writes.
pub open spec fn run_writes(l: SegmentLevels, ws: Seq<SegmentWrite>) -> SegmentLevels
    decreases ws.len(),
{
    if ws.len() == 0 {
        l
    } else {
        apply_write(run_writes(l, ws.drop_last()), ws.last())
    }
}

/// A write that lights `s`.
pub open spec fn lit(s: Segment) -> SegmentWrite {
    SegmentWrite { segment: s, high: true }
}

/// A write that darkens `s`.
pub open spec fn unlit(s: Segment) -> SegmentWrite {
    SegmentWrite { segment: s, high: false }
}

/// The writes of `Indicator::clear`.
pub open spec fn clear_writes() -> Seq<SegmentWrite> {
    seq![
        unlit(Segment::A),
        unlit(Segment::B),
        unlit(Segment::C),
        unlit(Segment::D),
        unlit(Segment::E),
        unlit(Segment::F),
        unlit(Segment::G),
    ]
}

/// The writes of `Indicator::digit_0` .. `digit_9`: clear, then light the
/// digit's segments (8 is 0 plus G, 9 is 8 without E).
pub open spec fn digit_writes(digit: int) -> Seq<SegmentWrite> {
    if digit == 0 {
        zero_writes()
    } else if digit == 1 {
        clear_writes() + seq![lit(Segment::B), lit(Segment::C)]
    } else if digit == 2 {
        clear_writes() + seq![
            lit(Segment::A),
            lit(Segment::B),
            lit(Segment::G),
            lit(Segment::E),
            lit(Segment::D),
        ]
    } else if digit == 3 {
        clear_writes() + seq![
            lit(Segment::A),
            lit(Segment::B),
            lit(Segment::C),
            lit(Segment::D),
            lit(Segment::G),
        ]
    } else if digit == 4 {
        clear_writes() + seq![lit(Segment::F), lit(Segment::G), lit(Segment::B), lit(Segment::C)]
    } else if digit == 5 {
        clear_writes() + seq![
            lit(Segment::A),
            lit(Segment::F),
            lit(Segment::G),
            lit(Segment::C),
            lit(Segment::D),
        ]
    } else if digit == 6 {
        clear_writes() + seq![
            lit(Segment::A),
            lit(Segment::F),
            lit(Segment::E),
            lit(Segment::D),
            lit(Segment::C),
            lit(Segment::G),
        ]
    } else if digit == 7 {
        clear_writes() + seq![lit(Segment::A), lit(Segment::B), lit(Segment::C)]
    } else if digit == 8 {
        eight_writes()
    } else {
        eight_writes() + seq![unlit(Segment::E)]
    }
}

/// The writes of `Indicator::digit_0`.
pub open spec fn zero_writes() -> Seq<SegmentWrite> {
    clear_writes() + seq![
        lit(Segment::A),
        lit(Segment::B),
        lit(Segment::C),
        lit(Segment::D),
        lit(Segment::E),
        lit(Segment::F),
    ]
}

/// The writes of `Indicator::digit_8`.
pub open spec fn eight_writes() -> Seq<SegmentWrite> {
    zero_writes() + seq![lit(Segment::G)]
}

/// Running one more write extends the segment levels by that write.
proof fn lemma_run_writes_push(l: SegmentLevels, ws: Seq<SegmentWrite>, w: SegmentWrite)
    ensures
        run_writes(l, ws.push(w)) == apply_write(run_writes(l, ws), w),
{
    assert(ws.push(w).drop_last() =~= ws);
}

/// A seven-segment indicator on seven lines, as the queue of line writes
/// not yet played on the board. Its model is the segments lit when the
/// queue was last taken (`origin`) and the queued writes (`pending`); from
/// them follow the segments lit afterwards (`shown`).
pub struct Indicator {
    origin: Ghost<SegmentLevels>,
    writes: Vec<SegmentWrite>,
}

impl Indicator {
    /// The segments lit before the queued writes.
    pub closed spec fn origin(&self) -> SegmentLevels {
        self.origin@
    }

    /// The queued writes.
    pub closed spec fn pending(&self) -> Seq<SegmentWrite> {
        self.writes@
    }

    /// The segments lit after the queued writes.
    pub open spec fn shown(&self) -> SegmentLevels {
        run_writes(self.origin(), self.pending())
    }

    /// An indicator whose lines have just been made outputs, all low.
    pub fn new() -> (ind: Indicator)
        ensures
            ind.origin() == dark(),
            ind.pending() == Seq::<SegmentWrite>::empty(),
    {
        Indicator { origin: Ghost(dark()), writes: Vec::new() }
    }

    /// Hands the queued writes over to be played on the board, in order, and
    /// empties the queue.
    pub fn take_writes(&mut self) -> (writes: Vec<SegmentWrite>)
        ensures
            writes@ == old(self).pending(),
            final(self).pending() == Seq::<SegmentWrite>::empty(),
            final(self).origin() == old(self).shown(),
    {
        let ghost now = run_writes(self.origin@, self.writes@);
        let mut writes: Vec<SegmentWrite> = Vec::new();
        std::mem::swap(&mut writes, &mut self.writes);
        self.origin = Ghost(now);
        writes
    }

    /// Queues one write.
    fn set(&mut self, segment: Segment, high: bool)
        ensures
            final(self).origin() == old(self).origin(),
            final(self).pending() == old(self).pending().push(
                SegmentWrite { segment, high },
            ),
            final(self).shown() == apply_write(
                old(self).shown(),
                SegmentWrite { segment, high },
            ),
    {
        proof {
            lemma_run_writes_push(self.origin@, self.writes@, SegmentWrite { segment, high });
        }
        self.writes.push(SegmentWrite { segment, high });
    }

    /// Darkens every segment.
    pub fn clear(&mut self)
        ensures
            final(self).origin() == old(self).origin(),
            final(self).pending() == old(self).pending() + clear_writes(),
            final(self).shown() == dark(),
    {
        self.set(Segment::A, false);
        self.set(Segment::B, false);
        self.set(Segment::C, false);
        self.set(Segment::D, false);
        self.set(Segment::E, false);
        self.set(Segment::F, false);
        self.set(Segment::G, false);
        assert(final(self).pending() =~= old(self).pending() + clear_writes());
    }
}

/// The segments each digit code lights: 0 all but G, 1 B and C, 2 all but
/// C and F, 3 all but E and F, 4 B, C, F and G, 5 all but B and E, 6 all but
/// B, 7 A, B and C, 8 all, 9 all but E.
pub proof fn lemma_code_segments()
    ensures
        segments_of(D_0) == (SegmentLevels { a: true, b: true, c: true, d: true, e: true, f: true, g: false }),
        segments_of(D_1) == (SegmentLevels { a: false, b: true, c: true, d: false, e: false, f: false, g: false }),
        segments_of(D_2) == (SegmentLevels { a: true, b: true, c: false, d: true, e: true, f: false, g: true }),
        segments_of(D_3) == (SegmentLevels { a: true, b: true, c: true, d: true, e: false, f: false, g: true }),
        segments_of(D_4) == (SegmentLevels { a: false, b: true, c: true, d: false, e: false, f: true, g: true }),
        segments_of(D_5) == (SegmentLevels { a: true, b: false, c: true, d: true, e: false, f: true, g: true }),
        segments_of(D_6) == (SegmentLevels { a: true, b: false, c: true, d: true, e: true, f: true, g: true }),
        segments_of(D_7) == (SegmentLevels { a: true, b: true, c: true, d: false, e: false, f: false, g: false }),
        segments_of(D_8) == (SegmentLevels { a: true, b: true, c: true, d: true, e: true, f: true, g: true }),
        segments_of(D_9) == (SegmentLevels { a: true, b: true, c: true, d: true, e: false, f: true, g: true }),
{
    lemma_digit_code_values();
    assert((0x3fu8 & 0x01u8 == 0x01u8) && (0x3fu8 & 0x02u8 == 0x02u8) && (0x3fu8 & 0x04u8 == 0x04u8) && (0x3fu8 & 0x08u8 == 0x08u8) && (0x3fu8 & 0x10u8 == 0x10u8) && (0x3fu8 & 0x20u8 == 0x20u8) && (0x3fu8 & 0x40u8 != 0x40u8)) by (bit_vector);
    assert((0x06u8 & 0x01u8 != 0x01u8) && (0x06u8 & 0x02u8 == 0x02u8) && (0x06u8 & 0x04u8 == 0x04u8) && (0x06u8 & 0x08u8 != 0x08u8) && (0x06u8 & 0x10u8 != 0x10u8) && (0x06u8 & 0x20u8 != 0x20u8) && (0x06u8 & 0x40u8 != 0x40u8)) by (bit_vector);
    assert((0x5bu8 & 0x01u8 == 0x01u8) && (0x5bu8 & 0x02u8 == 0x02u8) && (0x5bu8 & 0x04u8 != 0x04u8) && (0x5bu8 & 0x08u8 == 0x08u8) && (0x5bu8 & 0x10u8 == 0x10u8) && (0x5bu8 & 0x20u8 != 0x20u8) && (0x5bu8 & 0x40u8 == 0x40u8)) by (bit_vector);
    assert((0x4fu8 & 0x01u8 == 0x01u8) && (0x4fu8 & 0x02u8 == 0x02u8) && (0x4fu8 & 0x04u8 == 0x04u8) && (0x4fu8 & 0x08u8 == 0x08u8) && (0x4fu8 & 0x10u8 != 0x10u8) && (0x4fu8 & 0x20u8 != 0x20u8) && (0x4fu8 & 0x40u8 == 0x40u8)) by (bit_vector);
    assert((0x66u8 & 0x01u8 != 0x01u8) && (0x66u8 & 0x02u8 == 0x02u8) && (0x66u8 & 0x04u8 == 0x04u8) && (0x66u8 & 0x08u8 != 0x08u8) && (0x66u8 & 0x10u8 != 0x10u8) && (0x66u8 & 0x20u8 == 0x20u8) && (0x66u8 & 0x40u8 == 0x40u8)) by (bit_vector);
    assert((0x6du8 & 0x01u8 == 0x01u8) && (0x6du8 & 0x02u8 != 0x02u8) && (0x6du8 & 0x04u8 == 0x04u8) && (0x6du8 & 0x08u8 == 0x08u8) && (0x6du8 & 0x10u8 != 0x10u8) && (0x6du8 & 0x20u8 == 0x20u8) && (0x6du8 & 0x40u8 == 0x40u8)) by (bit_vector);
    assert((0x7du8 & 0x01u8 == 0x01u8) && (0x7du8 & 0x02u8 != 0x02u8) && (0x7du8 & 0x04u8 == 0x04u8) && (0x7du8 & 0x08u8 == 0x08u8) && (0x7du8 & 0x10u8 == 0x10u8) && (0x7du8 & 0x20u8 == 0x20u8) && (0x7du8 & 0x40u8 == 0x40u8)) by (bit_vector);
    assert((0x07u8 & 0x01u8 == 0x01u8) && (0x07u8 & 0x02u8 == 0x02u8) && (0x07u8 & 0x04u8 == 0x04u8) && (0x07u8 & 0x08u8 != 0x08u8) && (0x07u8 & 0x10u8 != 0x10u8) && (0x07u8 & 0x20u8 != 0x20u8) && (0x07u8 & 0x40u8 != 0x40u8)) by (bit_vector);
    assert((0x7fu8 & 0x01u8 == 0x01u8) && (0x7fu8 & 0x02u8 == 0x02u8) && (0x7fu8 & 0x04u8 == 0x04u8) && (0x7fu8 & 0x08u8 == 0x08u8) && (0x7fu8 & 0x10u8 == 0x10u8) && (0x7fu8 & 0x20u8 == 0x20u8) && (0x7fu8 & 0x40u8 == 0x40u8)) by (bit_vector);
    assert((0x6fu8 & 0x01u8 == 0x01u8) && (0x6fu8 & 0x02u8 == 0x02u8) && (0x6fu8 & 0x04u8 == 0x04u8) && (0x6fu8 & 0x08u8 == 0x08u8) && (0x6fu8 & 0x10u8 != 0x10u8) && (0x6fu8 & 0x20u8 == 0x20u8) && (0x6fu8 & 0x40u8 == 0x40u8)) by (bit_vector);
}

impl Indicator {
    /// Shows the digit 0.
    pub fn digit_0(&mut self)
        ensures
            final(self).origin() == old(self).origin(),
            final(self).pending() == old(self).pending() + digit_writes(0),
            final(self).shown() == segments_of(digit_code(0)),
    {
        self.clear();
        self.set(Segment::A, true);
        self.set(Segment::B, true);
        self.set(Segment::C, true);
        self.set(Segment::D, true);
        self.set(Segment::E, true);
        self.set(Segment::F, true);
        proof {
            lemma_code_segments();
        }
        assert(final(self).pending() =~= old(self).pending() + digit_writes(0));
    }

    /// Shows the digit 1.
    pub fn digit_1(&mut self)
        ensures
            final(self).origin() == old(self).origin(),
            final(self).pending() == old(self).pending() + digit_writes(1),
            final(self).shown() == segments_of(digit_code(1)),
    {
        self.clear();
        self.set(Segment::B, true);
        self.set(Segment::C, true);
        proof {
            lemma_code_segments();
        }
        assert(final(self).pending() =~= old(self).pending() + digit_writes(1));
    }

    /// Shows the digit 2.
    pub fn digit_2(&mut self)
        ensures
            final(self).origin() == old(self).origin(),
            final(self).pending() == old(self).pending() + digit_writes(2),
            final(self).shown() == segments_of(digit_code(2)),
    {
        self.clear();
        self.set(Segment::A, true);
        self.set(Segment::B, true);
        self.set(Segment::G, true);
        self.set(Segment::E, true);
        self.set(Segment::D, true);
        proof {
            lemma_code_segments();
        }
        assert(final(self).pending() =~= old(self).pending() + digit_writes(2));
    }

    /// Shows the digit 3.
    pub fn digit_3(&mut self)
        ensures
            final(self).origin() == old(self).origin(),
            final(self).pending() == old(self).pending() + digit_writes(3),
            final(self).shown() == segments_of(digit_code(3)),
    {
        self.clear();
        self.set(Segment::A, true);
        self.set(Segment::B, true);
        self.set(Segment::C, true);
        self.set(Segment::D, true);
        self.set(Segment::G, true);
        proof {
            lemma_code_segments();
        }
        assert(final(self).pending() =~= old(self).pending() + digit_writes(3));
    }

    /// Shows the digit 4.
    pub fn digit_4(&mut self)
        ensures
            final(self).origin() == old(self).origin(),
            final(self).pending() == old(self).pending() + digit_writes(4),
            final(self).shown() == segments_of(digit_code(4)),
    {
        self.clear();
        self.set(Segment::F, true);
        self.set(Segment::G, true);
        self.set(Segment::B, true);
        self.set(Segment::C, true);
        proof {
            lemma_code_segments();
        }
        assert(final(self).pending() =~= old(self).pending() + digit_writes(4));
    }

    /// Shows the digit 5.
    pub fn digit_5(&mut self)
        ensures
            final(self).origin() == old(self).origin(),
            final(self).pending() == old(self).pending() + digit_writes(5),
            final(self).shown() == segments_of(digit_code(5)),
    {
        self.clear();
        self.set(Segment::A, true);
        self.set(Segment::F, true);
        self.set(Segment::G, true);
        self.set(Segment::C, true);
        self.set(Segment::D, true);
        proof {
            lemma_code_segments();
        }
        assert(final(self).pending() =~= old(self).pending() + digit_writes(5));
    }

    /// Shows the digit 6.
    pub fn digit_6(&mut self)
        ensures
            final(self).origin() == old(self).origin(),
            final(self).pending() == old(self).pending() + digit_writes(6),
            final(self).shown() == segments_of(digit_code(6)),
    {
        self.clear();
        self.set(Segment::A, true);
        self.set(Segment::F, true);
        self.set(Segment::E, true);
        self.set(Segment::D, true);
        self.set(Segment::C, true);
        self.set(Segment::G, true);
        proof {
            lemma_code_segments();
        }
        assert(final(self).pending() =~= old(self).pending() + digit_writes(6));
    }

    /// Shows the digit 7.
    pub fn digit_7(&mut self)
        ensures
            final(self).origin() == old(self).origin(),
            final(self).pending() == old(self).pending() + digit_writes(7),
            final(self).shown() == segments_of(digit_code(7)),
    {
        self.clear();
        self.set(Segment::A, true);
        self.set(Segment::B, true);
        self.set(Segment::C, true);
        proof {
            lemma_code_segments();
        }
        assert(final(self).pending() =~= old(self).pending() + digit_writes(7));
    }

    /// Shows the digit 8.
    pub fn digit_8(&mut self)
        ensures
            final(self).origin() == old(self).origin(),
            final(self).pending() == old(self).pending() + digit_writes(8),
            final(self).shown() == segments_of(digit_code(8)),
    {
        self.digit_0();
        self.set(Segment::G, true);
        proof {
            lemma_code_segments();
        }
        assert(final(self).pending() =~= old(self).pending() + digit_writes(8));
    }

    /// Shows the digit 9.
    pub fn digit_9(&mut self)
        ensures
            final(self).origin() == old(self).origin(),
            final(self).pending() == old(self).pending() + digit_writes(9),
            final(self).shown() == segments_of(digit_code(9)),
    {
        self.digit_8();
        self.set(Segment::E, false);
        proof {
            lemma_code_segments();
        }
        assert(final(self).pending() =~= old(self).pending() + digit_writes(9));
    }

    /// Shows the last decimal digit of `counter`.
    pub fn show_count(&mut self, counter: u8)
        ensures
            final(self).origin() == old(self).origin(),
            final(self).pending() == old(self).pending() + digit_writes((counter % 10) as int),
            final(self).shown() == segments_of(digit_code((counter % 10) as int)),
    {
        match counter % 10 {
            0 => self.digit_0(),
            1 => self.digit_1(),
            2 => self.digit_2(),
            3 => self.digit_3(),
            4 => self.digit_4(),
            5 => self.digit_5(),
            6 => self.digit_6(),
            7 => self.digit_7(),
            8 => self.digit_8(),
            _ => self.digit_9(),
        }
    }
}

} // verus!
