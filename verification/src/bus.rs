//! The 4-bit bus of an HD44780-style character display, as a model.
//!
//! A bus operation is a sequence of steps: drive a line high or low, or
//! wait. On every falling edge of the enable line E the display controller
//! latches the four data lines DB7..DB4 as one nibble, into the data
//! register when A0 is high and as a command when A0 is low. A byte goes
//! over the bus as two nibbles, the high one first.

use vstd::prelude::*;

verus! {

/// The lines between the board and the display.
#[derive(Clone, Copy, Debug, PartialEq, Eq, Structural)]
pub enum DisplayPin {
    A0,
    Rw,
    E,
    Db4,
    Db5,
    Db6,
    Db7,
}

/// One action on the display bus.
#[derive(Clone, Copy, Debug, PartialEq, Eq, Structural)]
pub enum BusStep {
    /// Drive the line high.
    High(DisplayPin),
    /// Drive the line low.
    Low(DisplayPin),
    /// Wait this many microseconds.
    DelayUs(u32),
    /// Wait this many milliseconds.
    DelayMs(u32),
}

/// The levels of the display lines (true is high).
pub struct PinLevels {
    pub a0: bool,
    pub rw: bool,
    pub e: bool,
    pub db4: bool,
    pub db5: bool,
    pub db6: bool,
    pub db7: bool,
}

/// What the controller latches on a falling edge of E: the nibble on
/// DB7..DB4, and whether A0 selected the data register.
pub struct Latch {
    pub to_data: bool,
    pub nibble: u8,
}

/// All lines low, as they are right after being configured as outputs.
pub open spec fn all_low() -> PinLevels {
    PinLevels { a0: false, rw: false, e: false, db4: false, db5: false, db6: false, db7: false }
}

/// The levels after driving `pin` to `high`.
pub open spec fn drive(l: PinLevels, pin: DisplayPin, high: bool) -> PinLevels {
    match pin {
        DisplayPin::A0 => PinLevels { a0: high, ..l },
        DisplayPin::Rw => PinLevels { rw: high, ..l },
        DisplayPin::E => PinLevels { e: high, ..l },
        DisplayPin::Db4 => PinLevels { db4: high, ..l },
        DisplayPin::Db5 => PinLevels { db5: high, ..l },
        DisplayPin::Db6 => PinLevels { db6: high, ..l },
        DisplayPin::Db7 => PinLevels { db7: high, ..l },
    }
}

/// The levels after one step.
pub open spec fn apply_step(l: PinLevels, s: BusStep) -> PinLevels {
    match s {
        BusStep::High(p) => drive(l, p, true),
        BusStep::Low(p) => drive(l, p, false),
        _ => l,
    }
}

/// The nibble with bits 3..0 set from `b3`..`b0`.
pub open spec fn nibble_from(b3: bool, b2: bool, b1: bool, b0: bool) -> u8 {
    (if b3 { 8u8 } else { 0u8 }) | (if b2 { 4u8 } else { 0u8 }) | (if b1 { 2u8 } else { 0u8 }) | (
    if b0 { 1u8 } else { 0u8 })
}

/// The nibble on DB7..DB4.
pub open spec fn data_nibble(l: PinLevels) -> u8 {
    nibble_from(l.db7, l.db6, l.db5, l.db4)
}

/// What one step makes the controller latch: one nibble on a falling edge of
/// E, nothing otherwise.
pub open spec fn step_latches(l: PinLevels, s: BusStep) -> Seq<Latch> {
    if s == BusStep::Low(DisplayPin::E) && l.e {
        seq![Latch { to_data: l.a0, nibble: data_nibble(l) }]
    } else {
        Seq::empty()
    }
}

/// The levels after a sequence of steps.
pub open spec fn run_levels(l: PinLevels, steps: Seq<BusStep>) -> PinLevels
    decreases steps.len(),
{
    if steps.len() == 0 {
        l
    } else {
        apply_step(run_levels(l, steps.drop_last()), steps.last())
    }
}

/// Everything the controller latches during a sequence of steps, in order.
pub open spec fn run_latches(l: PinLevels, steps: Seq<BusStep>) -> Seq<Latch>
    decreases steps.len(),
{
    if steps.len() == 0 {
        Seq::empty()
    } else {
        run_latches(l, steps.drop_last()) + step_latches(
            run_levels(l, steps.drop_last()),
            steps.last(),
        )
    }
}

/// A byte as the controller receives it on a 4-bit bus: high nibble first.
pub open spec fn byte_latches(to_data: bool, b: u8) -> Seq<Latch> {
    seq![Latch { to_data, nibble: b >> 4u8 }, Latch { to_data, nibble: b & 0x0f }]
}

/// The step that puts bit `mask` of `data` on `pin`.
pub open spec fn pin_step(pin: DisplayPin, data: u8, mask: u8) -> BusStep {
    if data & mask == mask {
        BusStep::High(pin)
    } else {
        BusStep::Low(pin)
    }
}

/// One pulse of E around `body`.
pub open spec fn strobe_steps(body: Seq<BusStep>) -> Seq<BusStep> {
    seq![BusStep::High(DisplayPin::E)] + body + seq![
        BusStep::DelayUs(5),
        BusStep::Low(DisplayPin::E),
        BusStep::DelayUs(10),
    ]
}

/// The data lines set to the high nibble of `data`.
pub open spec fn high_nibble_steps(data: u8) -> Seq<BusStep> {
    seq![
        pin_step(DisplayPin::Db7, data, 0x80),
        pin_step(DisplayPin::Db6, data, 0x40),
        pin_step(DisplayPin::Db5, data, 0x20),
        pin_step(DisplayPin::Db4, data, 0x10),
    ]
}

/// The data lines set to the low nibble of `data`.
pub open spec fn low_nibble_steps(data: u8) -> Seq<BusStep> {
    seq![
        pin_step(DisplayPin::Db7, data, 0x08),
        pin_step(DisplayPin::Db6, data, 0x04),
        pin_step(DisplayPin::Db5, data, 0x02),
        pin_step(DisplayPin::Db4, data, 0x01),
    ]
}

/// The bus steps of `Display::write`.
pub open spec fn write_steps(data: u8) -> Seq<BusStep> {
    strobe_steps(high_nibble_steps(data)) + strobe_steps(low_nibble_steps(data))
}

/// The bus steps that send `cmd` as a command.
pub open spec fn command_steps(cmd: u8) -> Seq<BusStep> {
    seq![BusStep::Low(DisplayPin::A0)] + write_steps(cmd) + seq![BusStep::DelayUs(50)]
}

/// The bus steps of `Display::write_to_ram`.
pub open spec fn data_steps(data: u8) -> Seq<BusStep> {
    seq![BusStep::High(DisplayPin::A0)] + write_steps(data) + seq![BusStep::DelayUs(50)]
}

/// The levels after `Display::write`: E low and the low nibble on the data
/// lines.
pub open spec fn after_write(l: PinLevels, data: u8) -> PinLevels {
    PinLevels {
        e: false,
        db7: data & 0x08 == 0x08,
        db6: data & 0x04 == 0x04,
        db5: data & 0x02 == 0x02,
        db4: data & 0x01 == 0x01,
        ..l
    }
}

/// The nibble latched by the first pulse of a write is the high nibble.
pub proof fn lemma_high_nibble(d: u8)
    ensures
        nibble_from(d & 0x80 == 0x80, d & 0x40 == 0x40, d & 0x20 == 0x20, d & 0x10 == 0x10) == d
            >> 4u8,
{
    assert(nibble_from(d & 0x80 == 0x80, d & 0x40 == 0x40, d & 0x20 == 0x20, d & 0x10 == 0x10)
        == d >> 4u8) by (bit_vector);
}

/// The nibble latched by the second pulse of a write is the low nibble.
pub proof fn lemma_low_nibble(d: u8)
    ensures
        nibble_from(d & 0x08 == 0x08, d & 0x04 == 0x04, d & 0x02 == 0x02, d & 0x01 == 0x01) == d
            & 0x0f,
{
    assert(nibble_from(d & 0x08 == 0x08, d & 0x04 == 0x04, d & 0x02 == 0x02, d & 0x01 == 0x01)
        == d & 0x0f) by (bit_vector);
}

/// Running one more step extends levels and latches by that step.
pub proof fn lemma_run_push(l: PinLevels, steps: Seq<BusStep>, s: BusStep)
    ensures
        run_levels(l, steps.push(s)) == apply_step(run_levels(l, steps), s),
        run_latches(l, steps.push(s)) == run_latches(l, steps) + step_latches(
            run_levels(l, steps),
            s,
        ),
{
    assert(steps.push(s).drop_last() =~= steps);
}

/// Running two sequences one after the other is running their concatenation:
/// playing a display's queue in several batches (see `Display::take_steps`)
/// gives the controller what playing it at once would.
pub proof fn lemma_run_append(l: PinLevels, s1: Seq<BusStep>, s2: Seq<BusStep>)
    ensures
        run_levels(l, s1 + s2) == run_levels(run_levels(l, s1), s2),
        run_latches(l, s1 + s2) == run_latches(l, s1) + run_latches(run_levels(l, s1), s2),
    decreases s2.len(),
{
    if s2.len() == 0 {
        assert(s1 + s2 =~= s1);
        assert(run_latches(l, s1) + Seq::<Latch>::empty() =~= run_latches(l, s1));
    } else {
        let s2p = s2.drop_last();
        let x = s2.last();
        assert(s2p.push(x) =~= s2);
        assert((s1 + s2p).push(x) =~= s1 + s2);
        lemma_run_append(l, s1, s2p);
        lemma_run_push(l, s1 + s2p, x);
        lemma_run_push(run_levels(l, s1), s2p, x);
        assert(run_latches(l, s1) + run_latches(run_levels(l, s1), s2p) + step_latches(
            run_levels(l, s1 + s2p),
            x,
        ) =~= run_latches(l, s1) + (run_latches(run_levels(l, s1), s2p) + step_latches(
            run_levels(run_levels(l, s1), s2p),
            x,
        )));
    }
}

/// Bytes sent on the bus can be read back: two transmissions that the
/// controller latches alike carry the same byte to the same register.
pub proof fn lemma_byte_latches_decode(r1: bool, b1: u8, r2: bool, b2: u8)
    requires
        byte_latches(r1, b1) == byte_latches(r2, b2),
    ensures
        r1 == r2,
        b1 == b2,
{
    assert(byte_latches(r1, b1)[0] == byte_latches(r2, b2)[0]);
    assert(byte_latches(r1, b1)[1] == byte_latches(r2, b2)[1]);
    assert(((b1 >> 4u8) == (b2 >> 4u8) && (b1 & 0x0f) == (b2 & 0x0f)) ==> b1 == b2) by (bit_vector);
}

/// The two nibbles of a byte put back together give the byte.
pub proof fn lemma_nibbles_reassemble(b: u8)
    ensures
        (b >> 4u8) * 16 + (b & 0x0f) == b,
        b >> 4u8 < 16,
        b & 0x0f < 16,
{
    assert((b >> 4u8) * 16 + (b & 0x0f) == b) by (bit_vector);
    assert(b >> 4u8 < 16 && b & 0x0f < 16) by (bit_vector);
}

/// What the controller latches on a falling edge of E at levels `l`.
pub open spec fn latch_at(l: PinLevels) -> Latch {
    Latch { to_data: l.a0, nibble: data_nibble(l) }
}

/// The high (`upper`) or low nibble of `data`.
pub open spec fn nibble_of(data: u8, upper: bool) -> u8 {
    if upper {
        data >> 4u8
    } else {
        data & 0x0f
    }
}

/// The data-line steps for the high (`upper`) or low nibble of `data`.
pub open spec fn nibble_steps(data: u8, upper: bool) -> Seq<BusStep> {
    if upper {
        high_nibble_steps(data)
    } else {
        low_nibble_steps(data)
    }
}

/// The levels after the first pulse of a write: E low and the high nibble on
/// the data lines.
pub open spec fn after_high_half(l: PinLevels, data: u8) -> PinLevels {
    PinLevels {
        e: false,
        db7: data & 0x80 == 0x80,
        db6: data & 0x40 == 0x40,
        db5: data & 0x20 == 0x20,
        db4: data & 0x10 == 0x10,
        ..l
    }
}

/// The steps that end a pulse of E.
pub open spec fn strobe_end_steps() -> Seq<BusStep> {
    seq![BusStep::DelayUs(5), BusStep::Low(DisplayPin::E), BusStep::DelayUs(10)]
}

} // verus!
