//! Custom 5x8 characters for the CGRAM of an HD44780-style display.
//!
//! A symbol is eight rows; in each row the five low bits are the dots, the
//! leftmost dot being bit 4.

use vstd::prelude::*;

verus! {

/// The eight CGRAM slots a custom character can be stored in.
#[derive(Clone, Copy, Debug, PartialEq, Eq, Structural)]
pub enum CGRAMSymbolNumber {
    S0,
    S1,
    S2,
    S3,
    S4,
    S5,
    S6,
    S7,
}

impl CGRAMSymbolNumber {
    /// The slot's index, 0 to 7.
    #[verifier::allow_in_spec]
    pub fn index(&self) -> u8
        returns
            (match self {
                CGRAMSymbolNumber::S0 => 0u8,
                CGRAMSymbolNumber::S1 => 1u8,
                CGRAMSymbolNumber::S2 => 2u8,
                CGRAMSymbolNumber::S3 => 3u8,
                CGRAMSymbolNumber::S4 => 4u8,
                CGRAMSymbolNumber::S5 => 5u8,
                CGRAMSymbolNumber::S6 => 6u8,
                CGRAMSymbolNumber::S7 => 7u8,
            }),
    {
        match self {
            CGRAMSymbolNumber::S0 => 0,
            CGRAMSymbolNumber::S1 => 1,
            CGRAMSymbolNumber::S2 => 2,
            CGRAMSymbolNumber::S3 => 3,
            CGRAMSymbolNumber::S4 => 4,
            CGRAMSymbolNumber::S5 => 5,
            CGRAMSymbolNumber::S6 => 6,
            CGRAMSymbolNumber::S7 => 7,
        }
    }
}

/// A custom character: the slot it goes to and its eight rows of dots.
pub struct CustomSymbol {
    pub number: CGRAMSymbolNumber,
    pub rows: [u8; 8],
}

/// `x` with its eight bits in reverse order: bit `i` of the result is bit
/// `7 - i` of `x`.
pub open spec fn bit_reversed(x: u8) -> u8 {
    ((x & 0x01) << 7u8) | ((x & 0x02) << 5u8) | ((x & 0x04) << 3u8) | ((x & 0x08) << 1u8) | ((x
        & 0x10) >> 1u8) | ((x & 0x20) >> 3u8) | ((x & 0x40) >> 5u8) | ((x & 0x80) >> 7u8)
}

/// The rows in the opposite order: the symbol upside down.
pub open spec fn flipped_vertical(rows: Seq<u8>) -> Seq<u8> {
    Seq::new(rows.len(), |i: int| rows[rows.len() - 1 - i])
}

/// One row mirrored within the five dots of a 5x8 character.
pub open spec fn mirrored_row(row: u8) -> u8 {
    bit_reversed(row) >> 3u8
}

/// Every row mirrored: the symbol left to right.
pub open spec fn flipped_horizontal(rows: Seq<u8>) -> Seq<u8> {
    Seq::new(rows.len(), |i: int| mirrored_row(rows[i]))
}

/// Every row uses only the five dots of a 5x8 character.
pub open spec fn rows_fit_glyph(rows: Seq<u8>) -> bool {
    forall|i: int| 0 <= i < rows.len() ==> #[trigger] rows[i] < 32
}

/// `u8::reverse_bits` from std: the bits of `x` in reverse order (the least
/// significant bit becomes the most significant one, and so on), as its
/// documentation states.
#[verifier::external_body]
fn reverse_bits(x: u8) -> (r: u8)
    ensures
        r == bit_reversed(x),
{
    x.reverse_bits()
}

impl CustomSymbol {
    /// A symbol for slot `number` with the given rows.
    pub fn new(number: CGRAMSymbolNumber, char: [u8; 8]) -> (s: CustomSymbol)
        ensures
            s.number == number,
            s.rows@ == char@,
    {
        return CustomSymbol { number, rows: char };
    }

    /// A symbol for slot `number` showing `symbol` upside down.
    pub fn new_flip_vertical(number: CGRAMSymbolNumber, symbol: &CustomSymbol) -> (s: CustomSymbol)
        ensures
            s.number == number,
            s.rows@ == flipped_vertical(symbol.rows@),
    {
        let mut r: [u8; 8] = [0u8; 8];
        let mut i: usize = 0;
        while i < 8
            invariant
                i <= 8,
                r@.len() == 8,
                symbol.rows@.len() == 8,
                forall|j: int| 0 <= j < i ==> r@[j] == symbol.rows@[7 - j],
            decreases 8 - i,
        {
            r[i] = symbol.rows[7 - i];
            i = i + 1;
        }
        let s = CustomSymbol::new(number, r);
        assert(s.rows@ =~= flipped_vertical(symbol.rows@));
        return s;
    }

    /// A symbol for slot `number` showing `symbol` mirrored left to right.
    pub fn new_flip_horizontal(number: CGRAMSymbolNumber, symbol: &CustomSymbol) -> (s: CustomSymbol)
        ensures
            s.number == number,
            s.rows@ == flipped_horizontal(symbol.rows@),
    {
        let mut r: [u8; 8] = [0u8; 8];
        let mut row_idx: usize = 0;
        while row_idx < 8
            invariant
                row_idx <= 8,
                r@.len() == 8,
                symbol.rows@.len() == 8,
                forall|j: int| 0 <= j < row_idx ==> r@[j] == mirrored_row(symbol.rows@[j]),
            decreases 8 - row_idx,
        {
            let row = symbol.rows[row_idx];
            r[row_idx] = reverse_bits(row) >> 3;
            row_idx = row_idx + 1;
        }
        let s = CustomSymbol::new(number, r);
        assert(s.rows@ =~= flipped_horizontal(symbol.rows@));
        return s;
    }

    /// The CGRAM address of the symbol's first row: eight rows per slot.
    pub fn cgram_address(&self) -> (a: u8)
        ensures
            a == self.number.index() * 8,
    {
        return self.number.index() * 8;
    }

    /// The character code that shows the symbol when written to DDRAM.
    pub fn ddram_address(&self) -> (a: u8)
        ensures
            a == self.number.index(),
    {
        return self.number.index();
    }
}

/// Flipping a symbol upside down twice gives back its rows.
pub proof fn lemma_flip_vertical_twice(rows: Seq<u8>)
    ensures
        flipped_vertical(flipped_vertical(rows)) == rows,
{
    assert(flipped_vertical(flipped_vertical(rows)) =~= rows);
}

/// A mirrored symbol only uses the five dots of a character.
pub proof fn lemma_flip_horizontal_fits(rows: Seq<u8>)
    ensures
        rows_fit_glyph(flipped_horizontal(rows)),
{
    assert forall|i: int| 0 <= i < rows.len() implies #[trigger] flipped_horizontal(rows)[i] < 32 by {
        let x = rows[i];
        assert(bit_reversed(x) >> 3u8 < 32) by (bit_vector);
    }
}

/// Mirroring twice gives back every symbol whose rows use only the five dots.
pub proof fn lemma_flip_horizontal_twice(rows: Seq<u8>)
    requires
        rows_fit_glyph(rows),
    ensures
        flipped_horizontal(flipped_horizontal(rows)) == rows,
{
    assert forall|i: int| 0 <= i < rows.len() implies #[trigger] flipped_horizontal(
        flipped_horizontal(rows),
    )[i] == rows[i] by {
        let x = rows[i];
        assert(x < 32 ==> bit_reversed(bit_reversed(x) >> 3u8) >> 3u8 == x) by (bit_vector);
    }
    assert(flipped_horizontal(flipped_horizontal(rows)) =~= rows);
}

/// Turning a symbol upside down and mirroring it can be done in either order.
pub proof fn lemma_flips_commute(rows: Seq<u8>)
    ensures
        flipped_horizontal(flipped_vertical(rows)) == flipped_vertical(flipped_horizontal(rows)),
{
    assert(flipped_horizontal(flipped_vertical(rows)) =~= flipped_vertical(
        flipped_horizontal(rows),
    ));
}

/// The eight rows of different slots lie at different CGRAM addresses, all
/// below 64: row `r` of slot `n` is at `8 n + r`.
pub proof fn lemma_cgram_rows_disjoint(a: CGRAMSymbolNumber, b: CGRAMSymbolNumber, ra: int, rb: int)
    requires
        a != b,
        0 <= ra < 8,
        0 <= rb < 8,
    ensures
        a.index() * 8 + ra != b.index() * 8 + rb,
        a.index() * 8 + ra < 64,
{
}

} // verus!
