//! A millisecond clock from Timer0 in CTC mode, and the running light that
//! reads it.
//!
//! Timer0 counts at 16 MHz / `PRESCALER` and raises its compare interrupt
//! every `TIMER_COUNTS` counts; each interrupt adds `MILLIS_INCREMENT`
//! milliseconds to the counter.

use vstd::prelude::*;

verus! {

/// Timer0 prescaler.
pub const PRESCALER: u32 = 1024;

/// Timer counts between two compare interrupts.
pub const TIMER_COUNTS: u32 = 125;

/// Milliseconds between two compare interrupts.
pub const MILLIS_INCREMENT: u32 = PRESCALER * TIMER_COUNTS / 16_000;

/// Clock selections of Timer0 (CS0 bits).
#[derive(Clone, Copy, Debug, PartialEq, Eq, Structural)]
pub enum ClockSelect {
    Prescale8,
    Prescale64,
    Prescale256,
    Prescale1024,
}

impl ClockSelect {
    /// The divisor of the selection.
    #[verifier::allow_in_spec]
    pub fn divisor(&self) -> u32
        returns
            (match self {
                ClockSelect::Prescale8 => 8u32,
                ClockSelect::Prescale64 => 64u32,
                ClockSelect::Prescale256 => 256u32,
                ClockSelect::Prescale1024 => 1024u32,
            }),
    {
        match self {
            ClockSelect::Prescale8 => 8,
            ClockSelect::Prescale64 => 64,
            ClockSelect::Prescale256 => 256,
            ClockSelect::Prescale1024 => 1024,
        }
    }
}

/// What to write to Timer0: CTC mode, OCR0A = `compare`, clock `clock`, and
/// the compare-A interrupt enabled.
#[derive(Clone, Copy, Debug, PartialEq, Eq, Structural)]
pub struct MillisTimerConfig {
    pub compare: u8,
    pub clock: ClockSelect,
}

/// The prescalers Timer0 offers.
pub open spec fn valid_prescaler(prescaler: u32) -> bool {
    prescaler == 8 || prescaler == 64 || prescaler == 256 || prescaler == 1024
}

/// The Timer0 settings for the clock: the clock selection of `prescaler`
/// and `timer_counts` cut to the 8 bits of OCR0A.
pub fn init_millis_timer(prescaler: u32, timer_counts: u32) -> (config: MillisTimerConfig)
    requires
        valid_prescaler(prescaler),
    ensures
        config.clock.divisor() == prescaler,
        config.compare as int == timer_counts % 256,
{
    let compare = #[verifier::truncate] (timer_counts as u8);
    assert(compare == timer_counts % 256) by (bit_vector)
        requires
            compare == timer_counts as u8,
    ;
    let clock = match prescaler {
        8 => ClockSelect::Prescale8,
        64 => ClockSelect::Prescale64,
        256 => ClockSelect::Prescale256,
        _ => ClockSelect::Prescale1024,
    };
    MillisTimerConfig { compare, clock }
}

/// The counter after one compare interrupt.
pub open spec fn ticked(counter: int) -> int {
    counter + MILLIS_INCREMENT
}

/// The counter after one compare interrupt.
pub fn millis_tick(counter: u32) -> (next: u32)
    requires
        ticked(counter as int) <= u32::MAX,
    ensures
        next == ticked(counter as int),
{
    counter + MILLIS_INCREMENT
}

/// The counter after `n` interrupts from `start`.
pub open spec fn millis_after(start: int, n: nat) -> int
    decreases n,
{
    if n == 0 {
        start
    } else {
        ticked(millis_after(start, (n - 1) as nat))
    }
}

/// The interrupt period is exactly 8 ms: the increment loses nothing to
/// rounding, so the clock gains 8 ms per interrupt and `8 n` after `n`.
pub proof fn lemma_millis_exact(n: nat)
    ensures
        MILLIS_INCREMENT == 8,
        PRESCALER * TIMER_COUNTS == MILLIS_INCREMENT * 16_000,
        millis_after(0, n) == 8 * n,
        forall|c: int| #[trigger] ticked(c) == c + 8,
    decreases n,
{
    if n > 0 {
        lemma_millis_exact((n - 1) as nat);
    }
}

/// The LED lit at `ms` milliseconds: the next one every 120 ms, round the
/// ten LEDs.
pub open spec fn bar_index(ms: int) -> int {
    (ms / 120) % 10
}

/// The LED lit at `ms` milliseconds.
pub fn running_bar_index(ms: u32) -> (index: usize)
    ensures
        index == bar_index(ms as int),
        index < 10,
{
    ((ms / 120) % 10) as usize
}

/// The board pin of LED `index`: the LEDs are on D2 to D11.
pub fn running_bar_pin(index: usize) -> (pin: usize)
    requires
        index < 10,
    ensures
        pin == index + 2,
        2 <= pin <= 11,
{
    index + 2
}

/// The running light starts on the first LED, stays on one LED for 120 ms,
/// then moves to the next one, round the ten LEDs; so it repeats every 1.2 s.
pub proof fn lemma_running_bar_period(ms: int)
    requires
        ms >= 0,
    ensures
        0 <= bar_index(ms) < 10,
        ms < 120 ==> bar_index(ms) == 0,
        bar_index(ms + 120) == (bar_index(ms) + 1) % 10,
        bar_index(ms - ms % 120) == bar_index(ms),
        bar_index(ms + 1200) == bar_index(ms),
{
    let q = ms / 120;
    assert((ms + 120) / 120 == q + 1);
    assert((ms + 1200) / 120 == q + 10);
    assert((ms - ms % 120) / 120 == q);
    assert((q + 1) % 10 == (q % 10 + 1) % 10);
    assert((q + 10) % 10 == q % 10);
}

/// The pin numbers of the running light, D2 to D11, in order.
pub proof fn lemma_running_bar_pins(ms: int)
    requires
        ms >= 0,
    ensures
        2 <= bar_index(ms) + 2 <= 11,
{
}

} // verus!
