//! Notes on a piezo buzzer: Timer1 in CTC mode toggles pin D9 on every
//! compare match, so the pin's frequency is set by the compare value.
//!
//! Frequencies are given in hundredths of a hertz. The timer counts at
//! 16 MHz / 8 = 2 MHz; a full period of the note is two compare matches.

use vstd::prelude::*;

verus! {

/// Do (261.63 Hz), in hundredths of a hertz.
pub const DO: u16 = 26163;

/// Re (293.66 Hz).
pub const RE: u16 = 29366;

/// Mi (329.63 Hz).
pub const MI: u16 = 32963;

/// Fa (349.23 Hz).
pub const FA: u16 = 34923;

/// Sol (392.00 Hz).
pub const SO: u16 = 39200;

/// La (440.00 Hz).
pub const LA: u16 = 44000;

/// Si (493.88 Hz).
pub const SI: u16 = 49388;

/// Timer ticks per second, times 100: the clock of 16 MHz divided by the
/// prescaler 8.
pub const TIMER_TICK: u64 = (16_000_000 / 8) * 100;

/// The compare value for a note of `hertz` hundredths of a hertz, before it
/// is cut to 16 bits.
pub open spec fn timer_top(hertz: u16) -> int {
    (TIMER_TICK / (hertz as u64)) / 2 - 1
}

/// The compare value that makes Timer1 toggle at the frequency of the note:
/// `timer_top(hertz)` cut to its low 16 bits.
pub fn note_timer_top(hertz: u16) -> (top: u16)
    requires
        hertz > 0,
    ensures
        top as int == timer_top(hertz) % 65536,
{
    let timer_tick: u64 = (16_000_000 / 8) * 100;
    assert(timer_tick / (hertz as u64) >= 2) by (nonlinear_arith)
        requires
            timer_tick == 200_000_000,
            0 < hertz <= 65535,
    ;
    let timer_top: u64 = ((timer_tick) / hertz as u64) / 2 - 1;
    let top = #[verifier::truncate] (timer_top as u16);
    assert(top == timer_top % 65536) by (bit_vector)
        requires
            top == timer_top as u16,
    ;
    top
}

/// From 15.26 Hz up the compare value fits in 16 bits, and the half period
/// it gives, `top + 1` ticks of 2 MHz, is the longest one not longer than
/// half a period of the note: `(top + 1) * hertz <= 10^8 < (top + 2) * hertz`.
pub proof fn lemma_timer_top_accuracy(hertz: u16)
    requires
        hertz >= 1526,
    ensures
        0 <= timer_top(hertz) < 65536,
        (timer_top(hertz) + 1) * hertz <= 100_000_000,
        100_000_000 < (timer_top(hertz) + 2) * hertz,
{
    let h = hertz as int;
    let q = 200_000_000int / h;
    let t = q / 2 - 1;
    assert(timer_top(hertz) == t);
    assert(q * h <= 200_000_000 < (q + 1) * h) by (nonlinear_arith)
        requires
            h > 0,
            q == 200_000_000int / h,
    ;
    assert(q <= 131061) by (nonlinear_arith)
        requires
            h >= 1526,
            q * h <= 200_000_000,
            q >= 0,
    ;
    assert((t + 1) * h <= 100_000_000 && 100_000_000 < (t + 2) * h) by (nonlinear_arith)
        requires
            h > 0,
            q * h <= 200_000_000 < (q + 1) * h,
            t == q / 2 - 1,
            q >= 0,
    ;
}

/// A higher note never gets a larger compare value.
pub proof fn lemma_timer_top_antitone(low: u16, high: u16)
    requires
        0 < low <= high,
    ensures
        timer_top(high) <= timer_top(low),
{
    let a = 200_000_000int;
    assert(a / (high as int) <= a / (low as int)) by (nonlinear_arith)
        requires
            0 < low <= high,
            a >= 0,
    ;
}

} // verus!
