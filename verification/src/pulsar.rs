//! A "pulsar" light: the PWM duty ramps up in steps of one, and at the top
//! the compare-output mode of the timer is flipped, so the light ramps up
//! and then down again.
//!
//! With Timer1 in 8-bit fast PWM, the inverting mode lights the LED while
//! the counter is below the compare value, the non-inverting mode while it
//! is above. Switching mode at the top turns a rising ramp into a falling
//! one.

use vstd::prelude::*;

verus! {

/// Compare-output mode of channel A of Timer1.
#[derive(Clone, Copy, Debug, PartialEq, Eq, Structural)]
pub enum OutputMode {
    /// Set on compare match, clear at BOTTOM (COM1A = 0b10).
    Inverting,
    /// Clear on compare match, set at BOTTOM (COM1A = 0b11).
    NonInverting,
}

impl OutputMode {
    /// The COM1A bits of the mode.
    #[verifier::allow_in_spec]
    pub fn com1a_bits(&self) -> u8
        returns
            (match self {
                OutputMode::Inverting => 0b10u8,
                OutputMode::NonInverting => 0b11u8,
            }),
    {
        match self {
            OutputMode::Inverting => 0b10,
            OutputMode::NonInverting => 0b11,
        }
    }
}

/// The state kept between two steps of the ramp.
#[derive(Clone, Copy, Debug, PartialEq, Eq, Structural)]
pub struct PulsarState {
    pub brightness: u8,
    pub light_is_up: bool,
}

/// What one step does on the board: write `duty` to OCR1A, switch the
/// compare-output mode if asked, then wait `delay_ms` milliseconds.
#[derive(Clone, Copy, Debug, PartialEq, Eq, Structural)]
pub struct PulsarAction {
    pub duty: u16,
    pub mode_change: Option<OutputMode>,
    pub delay_ms: u16,
}

/// The state before the first step: duty 0, ramping up.
pub open spec fn pulsar_start() -> PulsarState {
    PulsarState { brightness: 0, light_is_up: true }
}

/// The next brightness: one more, skipping 0 after 255.
pub open spec fn bumped(b: u8) -> u8 {
    if b == 255 {
        1
    } else if b == 254 {
        255
    } else {
        (b + 1) as u8
    }
}

/// The state after one step.
pub open spec fn pulsar_next(s: PulsarState) -> PulsarState {
    let b = bumped(s.brightness);
    PulsarState {
        brightness: b,
        light_is_up: if b == 255 {
            !s.light_is_up
        } else {
            s.light_is_up
        },
    }
}

/// What one step from `s` does on the board.
pub open spec fn pulsar_action(s: PulsarState) -> PulsarAction {
    let b = bumped(s.brightness);
    PulsarAction {
        duty: (b % 255) as u16,
        mode_change: if b == 255 {
            Some(
                if s.light_is_up {
                    OutputMode::NonInverting
                } else {
                    OutputMode::Inverting
                },
            )
        } else {
            None
        },
        delay_ms: if b == 255 {
            100
        } else {
            10
        },
    }
}

/// The state after `n` steps.
pub open spec fn pulsar_after(s: PulsarState, n: nat) -> PulsarState
    decreases n,
{
    if n == 0 {
        s
    } else {
        pulsar_after(pulsar_next(s), (n - 1) as nat)
    }
}

impl PulsarState {
    /// The state before the first step: duty 0, ramping up.
    pub fn new() -> (s: PulsarState)
        ensures
            s == pulsar_start(),
    {
        PulsarState { brightness: 0, light_is_up: true }
    }
}

/// One step of the ramp: the next state and what to do on the board.
pub fn pulsar_step(state: PulsarState) -> (r: (PulsarState, PulsarAction))
    ensures
        r.0 == pulsar_next(state),
        r.1 == pulsar_action(state),
{
    let mut brightness: u8 = state.brightness.wrapping_add(1);
    if brightness == 0 {
        // 0 is an extreme value of the compare register: avoid it
        brightness = 1;
    }
    let duty: u16 = (brightness % 255) as u16;
    let mut light_is_up = state.light_is_up;
    let mut mode_change: Option<OutputMode> = None;
    let delay_ms: u16;
    if brightness == 255 {
        if light_is_up {
            mode_change = Some(OutputMode::NonInverting);
            light_is_up = false;
        } else {
            mode_change = Some(OutputMode::Inverting);
            light_is_up = true;
        }
        delay_ms = 100;
    } else {
        delay_ms = 10;
    }
    (PulsarState { brightness, light_is_up }, PulsarAction { duty, mode_change, delay_ms })
}

/// After the first step the brightness is never 0, and the duty written is
/// the brightness, except at the top where it is 0.
pub proof fn lemma_pulsar_bounds(s: PulsarState)
    ensures
        pulsar_next(s).brightness >= 1,
        pulsar_action(s).duty == (if pulsar_next(s).brightness == 255 {
            0
        } else {
            pulsar_next(s).brightness as int
        }),
        pulsar_action(s).duty < 255,
{
}

/// `m` steps then `n` steps are `m + n` steps.
pub proof fn lemma_pulsar_after_add(s: PulsarState, m: nat, n: nat)
    ensures
        pulsar_after(pulsar_after(s, m), n) == pulsar_after(s, m + n),
    decreases m,
{
    if m > 0 {
        lemma_pulsar_after_add(pulsar_next(s), (m - 1) as nat, n);
        assert(pulsar_after(s, m + n) == pulsar_after(pulsar_next(s), (m + n - 1) as nat));
    }
}

/// Below the top the ramp climbs by one per step and keeps its direction.
proof fn lemma_pulsar_climb(s: PulsarState, k: nat)
    requires
        s.brightness + k <= 254,
    ensures
        pulsar_after(s, k) == (PulsarState {
            brightness: (s.brightness + k) as u8,
            light_is_up: s.light_is_up,
        }),
    decreases k,
{
    if k > 0 {
        lemma_pulsar_climb(pulsar_next(s), (k - 1) as nat);
    }
}

/// Every 255 steps the brightness comes back and the direction of the light
/// is reversed.
pub proof fn lemma_pulsar_half_period(s: PulsarState)
    requires
        1 <= s.brightness,
    ensures
        pulsar_after(s, 255) == (PulsarState {
            brightness: s.brightness,
            light_is_up: !s.light_is_up,
        }),
{
    let b = s.brightness;
    if b == 255 {
        let s1 = pulsar_next(s);
        lemma_pulsar_climb(s1, 253);
        let s254 = pulsar_after(s1, 253);
        lemma_pulsar_after_add(s1, 253, 1);
        assert(pulsar_after(s254, 1) == pulsar_after(pulsar_next(s254), 0));
        assert(pulsar_after(s, 255) == pulsar_after(s1, 254));
    } else {
        lemma_pulsar_climb(s, (254 - b) as nat);
        let top = pulsar_after(s, (254 - b) as nat);
        let after_top = pulsar_next(pulsar_next(top));
        lemma_pulsar_climb(after_top, (b - 1) as nat);
        lemma_pulsar_after_add(s, (254 - b) as nat, 2);
        assert(pulsar_after(top, 2) == after_top) by {
            assert(pulsar_after(top, 2) == pulsar_after(pulsar_next(top), 1));
            assert(pulsar_after(pulsar_next(top), 1) == pulsar_after(after_top, 0));
        }
        lemma_pulsar_after_add(s, (256 - b) as nat, (b - 1) as nat);
    }
}

/// Every 510 steps the whole state comes back.
pub proof fn lemma_pulsar_period(s: PulsarState)
    requires
        1 <= s.brightness,
    ensures
        pulsar_after(s, 510) == s,
{
    lemma_pulsar_half_period(s);
    lemma_pulsar_half_period(pulsar_after(s, 255));
    lemma_pulsar_after_add(s, 255, 255);
}

/// From the start, the ramp goes up for 254 steps, the mode flips at the
/// 255th, and from then on the state repeats every 510 steps.
pub proof fn lemma_pulsar_from_start()
    ensures
        pulsar_after(pulsar_start(), 254) == (PulsarState { brightness: 254, light_is_up: true }),
        pulsar_after(pulsar_start(), 255) == (PulsarState { brightness: 255, light_is_up: false }),
        pulsar_after(pulsar_start(), 765) == pulsar_after(pulsar_start(), 255),
{
    let s0 = pulsar_start();
    lemma_pulsar_climb(s0, 254);
    let s254 = pulsar_after(s0, 254);
    lemma_pulsar_after_add(s0, 254, 1);
    assert(pulsar_after(s254, 1) == pulsar_after(pulsar_next(s254), 0));
    let s255 = pulsar_after(s0, 255);
    lemma_pulsar_period(s255);
    lemma_pulsar_after_add(s0, 255, 510);
}

/// How bright the LED is, 0 to 255, in state `s`: in the inverting mode,
/// used while the light goes up, the LED is lit for the duty; in the
/// non-inverting mode for the rest of the period.
pub open spec fn light_level(s: PulsarState) -> int {
    if s.light_is_up {
        (s.brightness % 255) as int
    } else {
        255 - (s.brightness % 255) as int
    }
}

/// The LED's brightness changes by exactly one level per step: it rises to
/// 255 and falls back to 0 without a jump, and the duty and mode a step
/// writes give that level.
pub proof fn lemma_pulsar_smooth(s: PulsarState)
    ensures
        light_level(pulsar_next(s)) - light_level(s) == 1 || light_level(pulsar_next(s))
            - light_level(s) == -1,
        0 <= light_level(s) <= 255,
        pulsar_action(s).duty == pulsar_next(s).brightness % 255,
        pulsar_action(s).mode_change is Some ==> pulsar_action(s).mode_change->0 == (
        if pulsar_next(s).light_is_up {
            OutputMode::Inverting
        } else {
            OutputMode::NonInverting
        }),
{
}

} // verus!
