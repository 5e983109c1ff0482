//! Driver for an HD44780-style character display on a 4-bit bus.
//!
//! The driver does not touch pins itself: each operation appends to the
//! display's queue the exact sequence of line levels and pauses to perform,
//! and the caller plays the queue on the board (see `Display::take_steps`).
//! What the controller reads from such a sequence is given by the model in
//! `crate::bus`.

use vstd::prelude::*;
use crate::bus::{
    after_high_half, after_write, all_low, apply_step, byte_latches, command_steps,
    data_steps, drive, high_nibble_steps, latch_at, lemma_high_nibble, lemma_low_nibble,
    lemma_run_push, low_nibble_steps, nibble_from, nibble_of, nibble_steps, pin_step, run_latches,
    run_levels, step_latches, strobe_end_steps, strobe_steps, write_steps, BusStep, DisplayPin,
    Latch, PinLevels,
};
use crate::glyph::CustomSymbol;

verus! {

/// Direction of cursor movement or display shift.
#[derive(Clone, Copy, Debug, PartialEq, Eq, Structural)]
pub enum Direction {
    Left,
    Right,
}

impl Direction {
    /// The bit the controller expects.
    #[verifier::allow_in_spec]
    pub fn bits(&self) -> u8
        returns
            (match self {
                Direction::Left => 0u8,
                Direction::Right => 1u8,
            }),
    {
        match self {
            Direction::Left => 0,
            Direction::Right => 1,
        }
    }
}

/// A switch.
#[derive(Clone, Copy, Debug, PartialEq, Eq, Structural)]
pub enum OnOff {
    Off,
    On,
}

impl OnOff {
    /// The bit the controller expects.
    #[verifier::allow_in_spec]
    pub fn bits(&self) -> u8
        returns
            (match self {
                OnOff::Off => 0u8,
                OnOff::On => 1u8,
            }),
    {
        match self {
            OnOff::Off => 0,
            OnOff::On => 1,
        }
    }
}

/// Whether the display shifts when a character is written.
#[derive(Clone, Copy, Debug, PartialEq, Eq, Structural)]
pub enum MoveDisplay {
    DontMove,
    Move,
}

impl MoveDisplay {
    /// The bit the controller expects.
    #[verifier::allow_in_spec]
    pub fn bits(&self) -> u8
        returns
            (match self {
                MoveDisplay::DontMove => 0u8,
                MoveDisplay::Move => 1u8,
            }),
    {
        match self {
            MoveDisplay::DontMove => 0,
            MoveDisplay::Move => 1,
        }
    }
}

/// How the cursor is shown.
#[derive(Clone, Copy, Debug, PartialEq, Eq, Structural)]
pub enum CursorMode {
    Off,
    NoCursorBlinkChar,
    CursorNothingBlink,
    CursorBlinking,
}

impl CursorMode {
    /// The two bits the controller expects.
    #[verifier::allow_in_spec]
    pub fn bits(&self) -> u8
        returns
            (match self {
                CursorMode::Off => 0b00u8,
                CursorMode::NoCursorBlinkChar => 0b01u8,
                CursorMode::CursorNothingBlink => 0b10u8,
                CursorMode::CursorBlinking => 0b11u8,
            }),
    {
        match self {
            CursorMode::Off => 0b00,
            CursorMode::NoCursorBlinkChar => 0b01,
            CursorMode::CursorNothingBlink => 0b10,
            CursorMode::CursorBlinking => 0b11,
        }
    }
}

/// What a shift command moves.
#[derive(Clone, Copy, Debug, PartialEq, Eq, Structural)]
pub enum CursorOrDisplay {
    Cursor,
    Screen,
}

impl CursorOrDisplay {
    /// The bit the controller expects.
    #[verifier::allow_in_spec]
    pub fn bits(&self) -> u8
        returns
            (match self {
                CursorOrDisplay::Cursor => 0u8,
                CursorOrDisplay::Screen => 1u8,
            }),
    {
        match self {
            CursorOrDisplay::Cursor => 0,
            CursorOrDisplay::Screen => 1,
        }
    }
}

/// Number of display rows.
#[derive(Clone, Copy, Debug, PartialEq, Eq, Structural)]
pub enum DisplayRows {
    OneRow,
    TwoRow,
}

impl DisplayRows {
    /// The bit the controller expects.
    #[verifier::allow_in_spec]
    pub fn bits(&self) -> u8
        returns
            (match self {
                DisplayRows::OneRow => 0u8,
                DisplayRows::TwoRow => 1u8,
            }),
    {
        match self {
            DisplayRows::OneRow => 0,
            DisplayRows::TwoRow => 1,
        }
    }
}

/// Character font.
#[derive(Clone, Copy, Debug, PartialEq, Eq, Structural)]
pub enum FontSize {
    Size5x8,
    Size5x11,
}

impl FontSize {
    /// The bit the controller expects.
    #[verifier::allow_in_spec]
    pub fn bits(&self) -> u8
        returns
            (match self {
                FontSize::Size5x8 => 0u8,
                FontSize::Size5x11 => 1u8,
            }),
    {
        match self {
            FontSize::Size5x8 => 0,
            FontSize::Size5x11 => 1,
        }
    }
}

/// The CGRAM page selected by the function-set command.
#[derive(Clone, Copy, Debug, PartialEq, Eq, Structural)]
pub enum CGRAMPageNumber {
    FirstPage,
    SecondPage,
}

impl CGRAMPageNumber {
    /// The bit the controller expects.
    #[verifier::allow_in_spec]
    pub fn bits(&self) -> u8
        returns
            (match self {
                CGRAMPageNumber::FirstPage => 0u8,
                CGRAMPageNumber::SecondPage => 1u8,
            }),
    {
        match self {
            CGRAMPageNumber::FirstPage => 0,
            CGRAMPageNumber::SecondPage => 1,
        }
    }
}

/// The clear-display command.
pub const CLEAR_COMMAND: u8 = 0b0000_0001;

/// The return-home command.
pub const RETURN_HOME_COMMAND: u8 = 0b0000_0010;

/// The entry-mode-set command.
pub open spec fn entry_mode_command(direction: Direction, move_display: MoveDisplay) -> u8 {
    0b0000_0100u8 | direction.bits() << 1u8 | move_display.bits()
}

/// The display-on/off command.
pub open spec fn display_on_off_command(on_off: OnOff, cursor_mode: CursorMode) -> u8 {
    0b0000_1000u8 | on_off.bits() << 2u8 | cursor_mode.bits()
}

/// The shift command, with `what_shift` at bit 4 and `direction` at bit 3.
pub open spec fn shift_command(what_shift: CursorOrDisplay, direction: Direction) -> u8 {
    0b0001_0000u8 | what_shift.bits() << 4u8 | direction.bits() << 3u8
}

/// The function-set command for a 4-bit bus.
pub open spec fn function_set_command(
    rows: DisplayRows,
    font_size: FontSize,
    page: CGRAMPageNumber,
    inversion: OnOff,
) -> u8 {
    0b0010_0000u8 | rows.bits() << 3u8 | font_size.bits() << 2u8 | page.bits() << 1u8
        | inversion.bits()
}

/// The set-CGRAM-address command: the two high bits of `address` are cleared.
pub open spec fn cgram_command(address: u8) -> u8 {
    0b0100_0000u8 | (address & 0b0011_1111u8)
}

/// The set-DDRAM-address command: the high bit of `address` is cleared.
pub open spec fn ddram_command(address: u8) -> u8 {
    0b1000_0000u8 | (address & 0b0111_1111u8)
}

/// The DDRAM address of a column in a row: each row starts 0x40 after the
/// previous one.
pub open spec fn cursor_address(column: u8, row: u8) -> int {
    0x40 * row + column
}

/// Each instruction lies in the range that its highest set bit selects, so
/// the controller tells them apart: entry mode in 4..8, on/off in 8..16,
/// shift in 16..32, function set in 32..64 and with bit 4 clear (the 4-bit
/// bus), CGRAM address in 64..128, DDRAM address in 128..256.
pub proof fn lemma_instruction_ranges(
    direction: Direction,
    move_display: MoveDisplay,
    on_off: OnOff,
    cursor_mode: CursorMode,
    what_shift: CursorOrDisplay,
    rows: DisplayRows,
    font_size: FontSize,
    page: CGRAMPageNumber,
    address: u8,
)
    ensures
        CLEAR_COMMAND == 1,
        RETURN_HOME_COMMAND == 2,
        4 <= entry_mode_command(direction, move_display) < 8,
        8 <= display_on_off_command(on_off, cursor_mode) < 16,
        16 <= shift_command(what_shift, direction) < 32,
        32 <= function_set_command(rows, font_size, page, on_off) < 64,
        function_set_command(rows, font_size, page, on_off) & 0x10 == 0,
        64 <= cgram_command(address) < 128,
        128 <= ddram_command(address),
{
    let d = direction.bits();
    let m = move_display.bits();
    let o = on_off.bits();
    let c = cursor_mode.bits();
    let w = what_shift.bits();
    let r = rows.bits();
    let f = font_size.bits();
    let p = page.bits();
    assert(d <= 1 && m <= 1 ==> 4 <= (0b0000_0100u8 | d << 1u8 | m) < 8) by (bit_vector);
    assert(o <= 1 && c <= 3 ==> 8 <= (0b0000_1000u8 | o << 2u8 | c) < 16) by (bit_vector);
    assert(w <= 1 && d <= 1 ==> 16 <= (0b0001_0000u8 | w << 4u8 | d << 3u8) < 32) by (bit_vector);
    assert(r <= 1 && f <= 1 && p <= 1 && o <= 1 ==> {
        let x = 0b0010_0000u8 | r << 3u8 | f << 2u8 | p << 1u8 | o;
        32 <= x < 64 && x & 0x10 == 0
    }) by (bit_vector);
    assert(64 <= (0b0100_0000u8 | (address & 0b0011_1111u8)) < 128) by (bit_vector);
    assert(128 <= (0b1000_0000u8 | (address & 0b0111_1111u8))) by (bit_vector);
}

/// An address below the limit passes through the mask unchanged.
pub proof fn lemma_address_unmasked(address: u8)
    ensures
        address < 64 ==> cgram_command(address) == 64 + address,
        address < 128 ==> ddram_command(address) == 128 + address,
{
    assert(address < 64 ==> (0b0100_0000u8 | (address & 0b0011_1111u8)) == 64 + address)
        by (bit_vector);
    assert(address < 128 ==> (0b1000_0000u8 | (address & 0b0111_1111u8)) == 128 + address)
        by (bit_vector);
}

/// The entry-mode command is 0x04 plus 2 when the cursor moves right plus 1
/// when the display shifts on a write.
pub proof fn lemma_entry_mode_command(direction: Direction, move_display: MoveDisplay)
    ensures
        entry_mode_command(direction, move_display) == 4 + (if direction == Direction::Right {
            2int
        } else {
            0
        }) + (if move_display == MoveDisplay::Move {
            1int
        } else {
            0
        }),
{
    let d = direction.bits();
    let m = move_display.bits();
    assert(d <= 1 && m <= 1 ==> (0b0000_0100u8 | d << 1u8 | m) == 4 + 2 * d + m) by (bit_vector);
}

/// The display-on/off command is 0x08 plus 4 when the display is on, plus 2
/// when the cursor is shown, plus 1 when the character blinks.
pub proof fn lemma_display_on_off_command(on_off: OnOff, cursor_mode: CursorMode)
    ensures
        display_on_off_command(on_off, cursor_mode) == 8 + (if on_off == OnOff::On {
            4int
        } else {
            0
        }) + (if cursor_mode == CursorMode::CursorNothingBlink || cursor_mode
            == CursorMode::CursorBlinking {
            2int
        } else {
            0
        }) + (if cursor_mode == CursorMode::NoCursorBlinkChar || cursor_mode
            == CursorMode::CursorBlinking {
            1int
        } else {
            0
        }),
{
    let o = on_off.bits();
    let c = cursor_mode.bits();
    assert(o <= 1 && c <= 3 ==> (0b0000_1000u8 | o << 2u8 | c) == 8 + 4 * o + c) by (bit_vector);
}

/// The shift command is 0x10 plus 8 for the right direction. The bit that
/// `what_shift` is shifted to (bit 4) is already set in 0x10, so the byte is
/// the same for the cursor and for the screen.
pub proof fn lemma_shift_command(what_shift: CursorOrDisplay, direction: Direction)
    ensures
        shift_command(what_shift, direction) == 16 + (if direction == Direction::Right {
            8int
        } else {
            0
        }),
{
    let w = what_shift.bits();
    let d = direction.bits();
    assert(w <= 1 && d <= 1 ==> (0b0001_0000u8 | w << 4u8 | d << 3u8) == 16 + 8 * d)
        by (bit_vector);
}

/// The function-set command is 0x20 plus 8 for two rows, 4 for the 5x11
/// font, 2 for the second CGRAM page and 1 for inversion, each bit set by
/// its own option alone.
pub proof fn lemma_function_set_command(
    rows: DisplayRows,
    font_size: FontSize,
    page: CGRAMPageNumber,
    inversion: OnOff,
)
    ensures
        function_set_command(rows, font_size, page, inversion) == 0x20 + (if rows
            == DisplayRows::TwoRow {
            8int
        } else {
            0
        }) + (if font_size == FontSize::Size5x11 {
            4int
        } else {
            0
        }) + (if page == CGRAMPageNumber::SecondPage {
            2int
        } else {
            0
        }) + (if inversion == OnOff::On {
            1int
        } else {
            0
        }),
{
    let r = rows.bits();
    let f = font_size.bits();
    let p = page.bits();
    let o = inversion.bits();
    assert(r <= 1 && f <= 1 && p <= 1 && o <= 1 ==> (0b0010_0000u8 | r << 3u8 | f << 2u8 | p << 1u8
        | o) == 0x20 + 8 * r + 4 * f + 2 * p + o) by (bit_vector);
}

/// Every address selects CGRAM address `address % 64` and DDRAM address
/// `address % 128`.
pub proof fn lemma_address_commands(address: u8)
    ensures
        cgram_command(address) == 0x40 + address % 64,
        ddram_command(address) == 0x80 + address % 128,
{
    assert((0b0100_0000u8 | (address & 0b0011_1111u8)) == 0x40 + address % 64) by (bit_vector);
    assert((0b1000_0000u8 | (address & 0b0111_1111u8)) == 0x80 + address % 128) by (bit_vector);
}

/// `set_cursor(column, row)` selects DDRAM address `0x40 * row + column`:
/// on a two-row display, for every column of the 64 a row holds, the command
/// is 0x80 + 0x40 * row + column.
pub proof fn lemma_cursor_command(column: u8, row: u8)
    requires
        row <= 1,
        column < 64,
    ensures
        cursor_address(column, row) <= u8::MAX,
        ddram_command(cursor_address(column, row) as u8) == 0x80 + 0x40 * row + column,
{
    let a = (0x40 * row + column) as u8;
    assert(cursor_address(column, row) == 0x40 * row + column);
    lemma_address_commands(a);
}

/// The bus steps of `Display::sync`: one pulse of E.
pub open spec fn sync_steps() -> Seq<BusStep> {
    strobe_steps(Seq::empty())
}

/// `steps` repeated `n` times.
pub open spec fn repeated(steps: Seq<BusStep>, n: nat) -> Seq<BusStep>
    decreases n,
{
    if n == 0 {
        Seq::empty()
    } else {
        repeated(steps, (n - 1) as nat) + steps
    }
}

/// The latch `l` repeated `n` times.
pub open spec fn repeated_latch(l: Latch, n: nat) -> Seq<Latch>
    decreases n,
{
    if n == 0 {
        Seq::empty()
    } else {
        repeated_latch(l, (n - 1) as nat).push(l)
    }
}

/// The bus steps of `Display::start_initialization`: with DB5 and DB4 high,
/// three pulses of E, then one with DB4 low.
pub open spec fn initialization_steps() -> Seq<BusStep> {
    seq![
        BusStep::DelayMs(21),
        BusStep::High(DisplayPin::Db4),
        BusStep::High(DisplayPin::Db5),
    ] + repeated(sync_steps() + seq![BusStep::DelayUs(50)], 3) + seq![
        BusStep::Low(DisplayPin::Db4),
    ] + sync_steps() + seq![BusStep::DelayUs(50)]
}

/// The bus steps that store the eight rows of a symbol, the first `k` of
/// them: for each row its CGRAM address as a command, then the row as data.
pub open spec fn upload_steps(address: int, rows: Seq<u8>, k: nat) -> Seq<BusStep>
    decreases k,
{
    if k == 0 {
        Seq::empty()
    } else {
        upload_steps(address, rows, (k - 1) as nat) + command_steps(
            cgram_command((address + k - 1) as u8),
        ) + data_steps(rows[k - 1])
    }
}

/// What the controller latches while the first `k` rows of a symbol are
/// stored.
pub open spec fn upload_latches(address: int, rows: Seq<u8>, k: nat) -> Seq<Latch>
    decreases k,
{
    if k == 0 {
        Seq::empty()
    } else {
        upload_latches(address, rows, (k - 1) as nat) + byte_latches(
            false,
            cgram_command((address + k - 1) as u8),
        ) + byte_latches(true, rows[k - 1])
    }
}

/// A display on the 4-bit bus, as the queue of bus steps not yet played on
/// the board. Its model is the levels the lines had when the queue was last
/// taken (`origin`) and the queued steps (`pending`); from them follow the
/// levels the lines will have (`levels`) and what the controller will latch
/// (`latches`).
pub struct Display {
    origin: Ghost<PinLevels>,
    steps: Vec<BusStep>,
}

impl Display {
    /// The line levels before the queued steps.
    pub closed spec fn origin(&self) -> PinLevels {
        self.origin@
    }

    /// The queued steps.
    pub closed spec fn pending(&self) -> Seq<BusStep> {
        self.steps@
    }

    /// The line levels after the queued steps.
    pub open spec fn levels(&self) -> PinLevels {
        run_levels(self.origin(), self.pending())
    }

    /// What the controller latches during the queued steps.
    pub open spec fn latches(&self) -> Seq<Latch> {
        run_latches(self.origin(), self.pending())
    }

    /// A display whose lines have just been made outputs, all low.
    pub fn new() -> (d: Display)
        ensures
            d.origin() == all_low(),
            d.pending() == Seq::<BusStep>::empty(),
    {
        Display { origin: Ghost(all_low()), steps: Vec::new() }
    }

    /// Hands the queued steps over to be played on the board, in order, and
    /// empties the queue.
    pub fn take_steps(&mut self) -> (steps: Vec<BusStep>)
        ensures
            steps@ == old(self).pending(),
            final(self).pending() == Seq::<BusStep>::empty(),
            final(self).origin() == old(self).levels(),
    {
        let ghost now = run_levels(self.origin@, self.steps@);
        let mut steps: Vec<BusStep> = Vec::new();
        std::mem::swap(&mut steps, &mut self.steps);
        self.origin = Ghost(now);
        steps
    }

    /// Queues one step.
    fn push(&mut self, s: BusStep)
        ensures
            final(self).origin() == old(self).origin(),
            final(self).pending() == old(self).pending().push(s),
            final(self).levels() == apply_step(old(self).levels(), s),
            final(self).latches() == old(self).latches() + step_latches(old(self).levels(), s),
    {
        proof {
            lemma_run_push(self.origin@, self.steps@, s);
        }
        self.steps.push(s);
    }

    /// Puts bit `mask` of `data` on `pin`.
    fn set_pin(&mut self, pin: DisplayPin, data: u8, mask: u8)
        ensures
            final(self).origin() == old(self).origin(),
            final(self).pending() == old(self).pending().push(pin_step(pin, data, mask)),
            final(self).levels() == apply_step(old(self).levels(), pin_step(pin, data, mask)),
            final(self).latches() == old(self).latches() + step_latches(
                old(self).levels(),
                pin_step(pin, data, mask),
            ),
    {
        if data & mask == mask {
            self.push(BusStep::High(pin))
        } else {
            self.push(BusStep::Low(pin))
        }
    }

    /// Raises E: the start of a pulse.
    fn strobe_begin(&mut self)
        ensures
            final(self).origin() == old(self).origin(),
            final(self).pending() == old(self).pending().push(BusStep::High(DisplayPin::E)),
            final(self).levels() == drive(old(self).levels(), DisplayPin::E, true),
            final(self).latches() == old(self).latches(),
    {
        self.push(BusStep::High(DisplayPin::E));
        assert(final(self).latches() =~= old(self).latches());
    }

    /// Holds E high, lowers it (the controller latches the data lines) and
    /// waits.
    fn strobe_end(&mut self)
        requires
            old(self).levels().e,
        ensures
            final(self).origin() == old(self).origin(),
            final(self).pending() == old(self).pending() + strobe_end_steps(),
            final(self).levels() == drive(old(self).levels(), DisplayPin::E, false),
            final(self).latches() == old(self).latches().push(latch_at(old(self).levels())),
    {
        self.push(BusStep::DelayUs(5));
        self.push(BusStep::Low(DisplayPin::E));
        self.push(BusStep::DelayUs(10));
        assert(final(self).pending() =~= old(self).pending() + strobe_end_steps());
        assert(final(self).latches() =~= old(self).latches().push(latch_at(old(self).levels())));
    }

    /// One pulse of E with the high (`upper`) or low nibble of `data` on the
    /// data lines.
    fn strobe_nibble(&mut self, data: u8, upper: bool)
        ensures
            final(self).origin() == old(self).origin(),
            final(self).pending() == old(self).pending() + strobe_steps(nibble_steps(data, upper)),
            final(self).latches() == old(self).latches().push(
                Latch { to_data: old(self).levels().a0, nibble: nibble_of(data, upper) },
            ),
            upper ==> final(self).levels() == after_high_half(old(self).levels(), data),
            !upper ==> final(self).levels() == after_write(old(self).levels(), data),
    {
        let (m7, m6, m5, m4): (u8, u8, u8, u8) = if upper {
            (0b1000_0000, 0b0100_0000, 0b0010_0000, 0b0001_0000)
        } else {
            (0b0000_1000, 0b0000_0100, 0b0000_0010, 0b0000_0001)
        };
        self.strobe_begin();
        self.set_pin(DisplayPin::Db7, data, m7);
        self.set_pin(DisplayPin::Db6, data, m6);
        self.set_pin(DisplayPin::Db5, data, m5);
        self.set_pin(DisplayPin::Db4, data, m4);
        proof {
            lemma_high_nibble(data);
            lemma_low_nibble(data);
        }
        assert(latch_at(self.levels()) == (Latch {
            to_data: old(self).levels().a0,
            nibble: nibble_of(data, upper),
        }));
        self.strobe_end();
        assert(final(self).pending() =~= old(self).pending() + strobe_steps(
            nibble_steps(data, upper),
        ));
        assert(final(self).latches() =~= old(self).latches().push(
            Latch { to_data: old(self).levels().a0, nibble: nibble_of(data, upper) },
        ));
    }

    /// Pulses E once.
    pub fn sync(&mut self)
        ensures
            final(self).origin() == old(self).origin(),
            final(self).pending() == old(self).pending() + sync_steps(),
            final(self).levels() == drive(old(self).levels(), DisplayPin::E, false),
            final(self).latches() == old(self).latches().push(latch_at(old(self).levels())),
    {
        self.strobe_begin();
        self.strobe_end();
        assert(final(self).pending() =~= old(self).pending() + sync_steps());
    }

    /// Sends `data` as two nibbles, the high one first, leaving A0 as it is.
    pub fn write(&mut self, data: &u8)
        ensures
            final(self).origin() == old(self).origin(),
            final(self).pending() == old(self).pending() + write_steps(*data),
            final(self).latches() == old(self).latches() + byte_latches(
                old(self).levels().a0,
                *data,
            ),
            final(self).levels() == after_write(old(self).levels(), *data),
    {
        self.strobe_nibble(*data, true);
        self.strobe_nibble(*data, false);
        assert(final(self).pending() =~= old(self).pending() + write_steps(*data));
        assert(final(self).latches() =~= old(self).latches() + byte_latches(
            old(self).levels().a0,
            *data,
        ));
    }

    /// Sends `data` as a command: A0 low, then the byte.
    fn send_raw_command(&mut self, data: &u8)
        ensures
            final(self).origin() == old(self).origin(),
            final(self).pending() == old(self).pending() + command_steps(*data),
            final(self).latches() == old(self).latches() + byte_latches(false, *data),
            final(self).levels() == after_write(drive(old(self).levels(), DisplayPin::A0, false), *data),
    {
        self.push(BusStep::Low(DisplayPin::A0));
        self.write(data);
        self.push(BusStep::DelayUs(50));
        assert(final(self).pending() =~= old(self).pending() + command_steps(*data));
        assert(final(self).latches() =~= old(self).latches() + byte_latches(false, *data));
    }

    /// Writes `data` to the display RAM: A0 high, then the byte.
    pub fn write_to_ram(&mut self, data: &u8)
        ensures
            final(self).origin() == old(self).origin(),
            final(self).pending() == old(self).pending() + data_steps(*data),
            final(self).latches() == old(self).latches() + byte_latches(true, *data),
            final(self).levels() == after_write(drive(old(self).levels(), DisplayPin::A0, true), *data),
    {
        self.push(BusStep::High(DisplayPin::A0));
        self.write(data);
        self.push(BusStep::DelayUs(50));
        assert(final(self).pending() =~= old(self).pending() + data_steps(*data));
        assert(final(self).latches() =~= old(self).latches() + byte_latches(true, *data));
    }
}


impl Display {
    /// Clears the display, then waits 2 ms for the controller.
    pub fn clear(&mut self)
        ensures
            final(self).origin() == old(self).origin(),
            final(self).pending() == old(self).pending() + command_steps(CLEAR_COMMAND)
                + seq![BusStep::DelayMs(2)],
            final(self).latches() == old(self).latches() + byte_latches(false, CLEAR_COMMAND),
            final(self).levels() == after_write(
                drive(old(self).levels(), DisplayPin::A0, false),
                CLEAR_COMMAND,
            ),
    {
        self.send_raw_command(&0b0000_00001);
        self.push(BusStep::DelayMs(2));
        assert(final(self).pending() =~= old(self).pending() + command_steps(CLEAR_COMMAND)
            + seq![BusStep::DelayMs(2)]);
        assert(final(self).latches() =~= old(self).latches() + byte_latches(false, CLEAR_COMMAND));
    }

    /// Moves the cursor home.
    pub fn return_home(&mut self)
        ensures
            final(self).origin() == old(self).origin(),
            final(self).pending() == old(self).pending() + command_steps(RETURN_HOME_COMMAND),
            final(self).latches() == old(self).latches() + byte_latches(false, RETURN_HOME_COMMAND),
            final(self).levels() == after_write(
                drive(old(self).levels(), DisplayPin::A0, false),
                RETURN_HOME_COMMAND,
            ),
    {
        self.send_raw_command(&0b0000_00010);
    }

    /// Sets the direction the cursor moves in and whether the display shifts.
    pub fn entry_mode_set(&mut self, direction: &Direction, move_display: &MoveDisplay)
        ensures
            final(self).origin() == old(self).origin(),
            final(self).pending() == old(self).pending() + command_steps(
                entry_mode_command(*direction, *move_display),
            ),
            final(self).latches() == old(self).latches() + byte_latches(
                false,
                entry_mode_command(*direction, *move_display),
            ),
            final(self).levels() == after_write(
                drive(old(self).levels(), DisplayPin::A0, false),
                entry_mode_command(*direction, *move_display),
            ),
    {
        let cmd: u8 = 0b0000_0100 | direction.bits() << 1 | move_display.bits();
        self.send_raw_command(&cmd)
    }

    /// Switches the display on or off and sets the cursor mode.
    pub fn display_on_off(&mut self, on_off: &OnOff, cursor_mode: &CursorMode)
        ensures
            final(self).origin() == old(self).origin(),
            final(self).pending() == old(self).pending() + command_steps(
                display_on_off_command(*on_off, *cursor_mode),
            ),
            final(self).latches() == old(self).latches() + byte_latches(
                false,
                display_on_off_command(*on_off, *cursor_mode),
            ),
            final(self).levels() == after_write(
                drive(old(self).levels(), DisplayPin::A0, false),
                display_on_off_command(*on_off, *cursor_mode),
            ),
    {
        let cmd: u8 = 0b0000_1000 | on_off.bits() << 2 | cursor_mode.bits();
        self.send_raw_command(&cmd);
    }

    /// Shifts the cursor or the display.
    pub fn shift(&mut self, what_shift: &CursorOrDisplay, direction: &Direction)
        ensures
            final(self).origin() == old(self).origin(),
            final(self).pending() == old(self).pending() + command_steps(
                shift_command(*what_shift, *direction),
            ),
            final(self).latches() == old(self).latches() + byte_latches(
                false,
                shift_command(*what_shift, *direction),
            ),
            final(self).levels() == after_write(
                drive(old(self).levels(), DisplayPin::A0, false),
                shift_command(*what_shift, *direction),
            ),
    {
        let cmd: u8 = 0b0001_0000 | what_shift.bits() << 4 | direction.bits() << 3;
        self.send_raw_command(&cmd);
    }

    /// Sets rows, font, CGRAM page and inversion. Only the 4-bit interface is
    /// supported.
    pub fn function_set(
        &mut self,
        rows: &DisplayRows,
        font_size: &FontSize,
        page: &CGRAMPageNumber,
        inversion: &OnOff,
    )
        ensures
            final(self).origin() == old(self).origin(),
            final(self).pending() == old(self).pending() + command_steps(
                function_set_command(*rows, *font_size, *page, *inversion),
            ),
            final(self).latches() == old(self).latches() + byte_latches(
                false,
                function_set_command(*rows, *font_size, *page, *inversion),
            ),
            final(self).levels() == after_write(
                drive(old(self).levels(), DisplayPin::A0, false),
                function_set_command(*rows, *font_size, *page, *inversion),
            ),
    {
        let cmd: u8 = 0b0010_0000 | rows.bits() << 3 | font_size.bits() << 2 | page.bits() << 1
            | inversion.bits();
        self.send_raw_command(&cmd)
    }

    /// Sets the CGRAM address; the address has 6 bits, the two high bits of
    /// `address` are cleared.
    pub fn set_cgram_address(&mut self, address: &u8)
        ensures
            final(self).origin() == old(self).origin(),
            final(self).pending() == old(self).pending() + command_steps(cgram_command(*address)),
            final(self).latches() == old(self).latches() + byte_latches(
                false,
                cgram_command(*address),
            ),
            final(self).levels() == after_write(
                drive(old(self).levels(), DisplayPin::A0, false),
                cgram_command(*address),
            ),
    {
        let safety_address: u8 = *address & (0b0011_1111);
        let cmd: u8 = 0b0100_0000 | safety_address;
        self.send_raw_command(&cmd);
    }

    /// Sets the DDRAM address; the address has 7 bits, the high bit of
    /// `address` is cleared.
    pub fn set_ddram_address(&mut self, address: &u8)
        ensures
            final(self).origin() == old(self).origin(),
            final(self).pending() == old(self).pending() + command_steps(ddram_command(*address)),
            final(self).latches() == old(self).latches() + byte_latches(
                false,
                ddram_command(*address),
            ),
            final(self).levels() == after_write(
                drive(old(self).levels(), DisplayPin::A0, false),
                ddram_command(*address),
            ),
    {
        let safety_address: u8 = *address & (0b0111_1111);
        let cmd: u8 = 0b1000_0000 | safety_address;
        self.send_raw_command(&cmd);
    }

    /// Moves the cursor to `column` in `row`.
    pub fn set_cursor(&mut self, column: u8, row: u8)
        requires
            cursor_address(column, row) <= u8::MAX,
        ensures
            final(self).origin() == old(self).origin(),
            final(self).pending() == old(self).pending() + command_steps(
                ddram_command(cursor_address(column, row) as u8),
            ),
            final(self).latches() == old(self).latches() + byte_latches(
                false,
                ddram_command(cursor_address(column, row) as u8),
            ),
            final(self).levels() == after_write(
                drive(old(self).levels(), DisplayPin::A0, false),
                ddram_command(cursor_address(column, row) as u8),
            ),
    {
        let ddram: u8 = 0x40 * row + column;
        self.set_ddram_address(&ddram);
    }

    /// Stores the eight rows of `symbol` in its CGRAM slot: for each row its
    /// address as a command, then the row as data.
    #[verifier::rlimit(40)]
    pub fn set_custom_symbol(&mut self, symbol: &CustomSymbol)
        ensures
            final(self).origin() == old(self).origin(),
            final(self).pending() == old(self).pending() + upload_steps(
                symbol.number.index() * 8,
                symbol.rows@,
                8,
            ),
            final(self).latches() == old(self).latches() + upload_latches(
                symbol.number.index() * 8,
                symbol.rows@,
                8,
            ),
            final(self).levels() == after_write(
                drive(old(self).levels(), DisplayPin::A0, true),
                symbol.rows@[7],
            ),
    {
        let symbol_address = symbol.cgram_address();
        let glyph_rows = symbol.rows;
        let mut row_idx: u8 = 0;
        while row_idx < 8
            invariant
                row_idx <= 8,
                symbol_address == symbol.number.index() * 8,
                symbol_address <= 56,
                glyph_rows@ == symbol.rows@,
                glyph_rows@.len() == 8,
                self.origin() == old(self).origin(),
                self.pending() == old(self).pending() + upload_steps(
                    symbol_address as int,
                    glyph_rows@,
                    row_idx as nat,
                ),
                self.latches() == old(self).latches() + upload_latches(
                    symbol_address as int,
                    glyph_rows@,
                    row_idx as nat,
                ),
                row_idx > 0 ==> self.levels() == after_write(
                    drive(old(self).levels(), DisplayPin::A0, true),
                    glyph_rows@[row_idx - 1],
                ),
            decreases 8 - row_idx,
        {
            let ghost a = symbol_address as int;
            let ghost k = row_idx as nat;
            let row_address = symbol_address + row_idx;
            let row: u8 = glyph_rows[row_idx as usize];
            proof {
                assert((a + (k + 1) - 1) as u8 == row_address);
                assert(glyph_rows@[(k + 1) - 1] == row);
                assert(upload_steps(a, glyph_rows@, k + 1) == upload_steps(a, glyph_rows@, k)
                    + command_steps(cgram_command(row_address)) + data_steps(row));
                assert(upload_latches(a, glyph_rows@, k + 1) == upload_latches(a, glyph_rows@, k)
                    + byte_latches(false, cgram_command(row_address)) + byte_latches(true, row));
            }
            self.set_cgram_address(&row_address);
            self.write_to_ram(&row);
            assert(self.pending() =~= old(self).pending() + upload_steps(a, glyph_rows@, k + 1));
            assert(self.latches() =~= old(self).latches() + upload_latches(a, glyph_rows@, k + 1));
            row_idx = row_idx + 1;
        }
    }

    /// The start of the 4-bit initialization: after 21 ms, with DB5 and DB4
    /// high, three pulses of E 50 us apart, then one with DB4 low.
    pub fn start_initialization(&mut self)
        ensures
            final(self).origin() == old(self).origin(),
            final(self).pending() == old(self).pending() + initialization_steps(),
            final(self).latches() == old(self).latches() + initialization_latches(
                old(self).levels(),
            ),
            final(self).levels() == after_initialization(old(self).levels()),
    {
        let ghost l0 = self.levels();
        self.push(BusStep::DelayMs(21));
        self.push(BusStep::High(DisplayPin::Db4));
        self.push(BusStep::High(DisplayPin::Db5));
        let ghost l1 = self.levels();
        let ghost start = self.pending();
        assert(start =~= old(self).pending() + seq![
            BusStep::DelayMs(21),
            BusStep::High(DisplayPin::Db4),
            BusStep::High(DisplayPin::Db5),
        ]);
        let mut i: u8 = 0;
        while i < 3
            invariant
                i <= 3,
                self.origin() == old(self).origin(),
                self.pending() == start + repeated(sync_steps() + seq![BusStep::DelayUs(50)], i as nat),
                self.latches() == old(self).latches() + repeated_latch(latch_at(drive(l1, DisplayPin::E, true)), i as nat),
                self.levels() == (if i == 0 { l1 } else { drive(l1, DisplayPin::E, false) }),
                l1 == drive(drive(l0, DisplayPin::Db4, true), DisplayPin::Db5, true),
            decreases 3 - i,
        {
            self.sync();
            self.push(BusStep::DelayUs(50));
            assert(self.pending() =~= start + repeated(sync_steps() + seq![BusStep::DelayUs(50)], (i + 1) as nat));
            i = i + 1;
        }
        self.push(BusStep::Low(DisplayPin::Db4));
        self.sync();
        self.push(BusStep::DelayUs(50));
        assert(final(self).pending() =~= old(self).pending() + initialization_steps());
        proof {
            reveal_with_fuel(repeated_latch, 4);
        }
        assert(latch_at(drive(drive(l1, DisplayPin::E, false), DisplayPin::Db4, false)) == latch_at(
            drive(drive(l1, DisplayPin::Db4, false), DisplayPin::E, true),
        ));
        assert(final(self).latches() =~= old(self).latches() + initialization_latches(l0));
    }
}

/// The levels after `Display::start_initialization`: E and DB4 low, DB5
/// high.
pub open spec fn after_initialization(l: PinLevels) -> PinLevels {
    drive(drive(drive(l, DisplayPin::Db5, true), DisplayPin::Db4, false), DisplayPin::E, false)
}

/// What the controller latches during `Display::start_initialization` from
/// levels `l`: three times the data lines with DB5 and DB4 high, then once
/// with DB4 low, in the register A0 selects.
pub open spec fn initialization_latches(l: PinLevels) -> Seq<Latch> {
    let l1 = drive(drive(l, DisplayPin::Db4, true), DisplayPin::Db5, true);
    let first = latch_at(drive(l1, DisplayPin::E, true));
    let last = latch_at(drive(drive(l1, DisplayPin::Db4, false), DisplayPin::E, true));
    seq![first, first, first, last]
}

/// From a display whose lines are all low, such as a new one, the
/// initialization latches the command nibbles 3, 3, 3 and 2: the sequence
/// that puts the controller in 4-bit mode.
pub proof fn lemma_initialization_from_reset()
    ensures
        initialization_latches(all_low()) == seq![
            Latch { to_data: false, nibble: 3 },
            Latch { to_data: false, nibble: 3 },
            Latch { to_data: false, nibble: 3 },
            Latch { to_data: false, nibble: 2 },
        ],
{
    assert(nibble_from(false, false, true, true) == 3u8) by (bit_vector);
    assert(nibble_from(false, false, true, false) == 2u8) by (bit_vector);
    assert(initialization_latches(all_low()) =~= seq![
        Latch { to_data: false, nibble: 3 },
        Latch { to_data: false, nibble: 3 },
        Latch { to_data: false, nibble: 3 },
        Latch { to_data: false, nibble: 2 },
    ]);
}

/// Storing a symbol sends, for each row `r` in turn, the command that
/// selects CGRAM address `address + r` and then row `r` as data: 4 nibbles
/// per row.
pub proof fn lemma_upload_rows(address: int, rows: Seq<u8>, k: nat, r: int)
    requires
        0 <= r < k,
    ensures
        upload_latches(address, rows, k).len() == 4 * k,
        upload_latches(address, rows, k).subrange(4 * r, 4 * r + 4) == byte_latches(
            false,
            cgram_command((address + r) as u8),
        ) + byte_latches(true, rows[r]),
    decreases k,
{
    let prev = upload_latches(address, rows, (k - 1) as nat);
    if k > 1 {
        lemma_upload_len(address, rows, (k - 1) as nat);
    }
    if r < k - 1 {
        lemma_upload_rows(address, rows, (k - 1) as nat, r);
        assert(upload_latches(address, rows, k).subrange(4 * r, 4 * r + 4) =~= prev.subrange(
            4 * r,
            4 * r + 4,
        ));
    } else {
        assert(upload_latches(address, rows, k).subrange(4 * r, 4 * r + 4) =~= byte_latches(
            false,
            cgram_command((address + r) as u8),
        ) + byte_latches(true, rows[r]));
    }
}

/// Storing `k` rows latches 4 nibbles per row.
pub proof fn lemma_upload_len(address: int, rows: Seq<u8>, k: nat)
    ensures
        upload_latches(address, rows, k).len() == 4 * k,
    decreases k,
{
    if k > 0 {
        lemma_upload_len(address, rows, (k - 1) as nat);
    }
}

/// No step raises RW: the display is only ever written to.
pub open spec fn never_reads(steps: Seq<BusStep>) -> bool {
    forall|i: int| 0 <= i < steps.len() ==> #[trigger] steps[i] != BusStep::High(DisplayPin::Rw)
}

proof fn lemma_never_reads_append(a: Seq<BusStep>, b: Seq<BusStep>)
    requires
        never_reads(a),
        never_reads(b),
    ensures
        never_reads(a + b),
{
    assert forall|i: int| 0 <= i < (a + b).len() implies #[trigger] (a + b)[i] != BusStep::High(
        DisplayPin::Rw,
    ) by {
        if i < a.len() {
            assert((a + b)[i] == a[i]);
        } else {
            assert((a + b)[i] == b[i - a.len()]);
        }
    }
}

proof fn lemma_write_never_reads(data: u8)
    ensures
        never_reads(write_steps(data)),
        never_reads(command_steps(data)),
        never_reads(data_steps(data)),
{
    assert(never_reads(seq![BusStep::High(DisplayPin::E)]));
    assert(never_reads(strobe_end_steps()));
    assert(never_reads(high_nibble_steps(data)));
    assert(never_reads(low_nibble_steps(data)));
    lemma_never_reads_append(seq![BusStep::High(DisplayPin::E)], high_nibble_steps(data));
    lemma_never_reads_append(
        seq![BusStep::High(DisplayPin::E)] + high_nibble_steps(data),
        strobe_end_steps(),
    );
    lemma_never_reads_append(seq![BusStep::High(DisplayPin::E)], low_nibble_steps(data));
    lemma_never_reads_append(
        seq![BusStep::High(DisplayPin::E)] + low_nibble_steps(data),
        strobe_end_steps(),
    );
    assert(strobe_steps(high_nibble_steps(data)) == seq![BusStep::High(DisplayPin::E)]
        + high_nibble_steps(data) + strobe_end_steps());
    assert(strobe_steps(low_nibble_steps(data)) == seq![BusStep::High(DisplayPin::E)]
        + low_nibble_steps(data) + strobe_end_steps());
    lemma_never_reads_append(
        strobe_steps(high_nibble_steps(data)),
        strobe_steps(low_nibble_steps(data)),
    );
    assert(never_reads(seq![BusStep::Low(DisplayPin::A0)]));
    assert(never_reads(seq![BusStep::High(DisplayPin::A0)]));
    assert(never_reads(seq![BusStep::DelayUs(50)]));
    lemma_never_reads_append(seq![BusStep::Low(DisplayPin::A0)], write_steps(data));
    lemma_never_reads_append(
        seq![BusStep::Low(DisplayPin::A0)] + write_steps(data),
        seq![BusStep::DelayUs(50)],
    );
    lemma_never_reads_append(seq![BusStep::High(DisplayPin::A0)], write_steps(data));
    lemma_never_reads_append(
        seq![BusStep::High(DisplayPin::A0)] + write_steps(data),
        seq![BusStep::DelayUs(50)],
    );
}

/// The driver never raises RW: every operation's steps only write to the
/// display, so RW keeps the low level it has from the start.
pub proof fn lemma_display_never_reads(data: u8, address: int, rows: Seq<u8>, k: nat)
    ensures
        never_reads(write_steps(data)),
        never_reads(command_steps(data)),
        never_reads(data_steps(data)),
        never_reads(sync_steps()),
        never_reads(initialization_steps()),
        never_reads(upload_steps(address, rows, k)),
    decreases k,
{
    lemma_write_never_reads(data);
    let sync_delay = sync_steps() + seq![BusStep::DelayUs(50)];
    assert(never_reads(sync_steps()));
    assert(never_reads(sync_delay));
    assert(repeated(sync_delay, 3) == repeated(sync_delay, 2) + sync_delay);
    assert(repeated(sync_delay, 2) == repeated(sync_delay, 1) + sync_delay);
    assert(repeated(sync_delay, 1) == repeated(sync_delay, 0) + sync_delay);
    assert(never_reads(repeated(sync_delay, 0)));
    lemma_never_reads_append(repeated(sync_delay, 0), sync_delay);
    lemma_never_reads_append(repeated(sync_delay, 1), sync_delay);
    lemma_never_reads_append(repeated(sync_delay, 2), sync_delay);
    let head = seq![
        BusStep::DelayMs(21),
        BusStep::High(DisplayPin::Db4),
        BusStep::High(DisplayPin::Db5),
    ];
    assert(never_reads(head));
    assert(never_reads(seq![BusStep::Low(DisplayPin::Db4)]));
    assert(never_reads(seq![BusStep::DelayUs(50)]));
    lemma_never_reads_append(head, repeated(sync_delay, 3));
    lemma_never_reads_append(head + repeated(sync_delay, 3), seq![BusStep::Low(DisplayPin::Db4)]);
    lemma_never_reads_append(
        head + repeated(sync_delay, 3) + seq![BusStep::Low(DisplayPin::Db4)],
        sync_steps(),
    );
    lemma_never_reads_append(
        head + repeated(sync_delay, 3) + seq![BusStep::Low(DisplayPin::Db4)] + sync_steps(),
        seq![BusStep::DelayUs(50)],
    );
    if k > 0 {
        lemma_display_never_reads(data, address, rows, (k - 1) as nat);
        lemma_write_never_reads(cgram_command((address + k - 1) as u8));
        lemma_write_never_reads(rows[k - 1]);
        lemma_never_reads_append(
            upload_steps(address, rows, (k - 1) as nat),
            command_steps(cgram_command((address + k - 1) as u8)),
        );
        lemma_never_reads_append(
            upload_steps(address, rows, (k - 1) as nat) + command_steps(
                cgram_command((address + k - 1) as u8),
            ),
            data_steps(rows[k - 1]),
        );
    }
}

} // verus!
