//! LED brightness raised and lowered by two buttons in fixed steps.
//!
//! Each press changes the 8-bit PWM duty by `CHANGE_BY`; the value
//! saturates at 0 and 255. Since 255 = 5 * 51, the duty moves through the
//! six levels 0, 51, ..., 255.

use vstd::prelude::*;

verus! {

/// Raise or lower the brightness.
#[allow(non_camel_case_types)]
#[derive(Clone, Copy, Debug, PartialEq, Eq, Structural)]
pub enum Operation {
    INC,
    DEC,
}

/// The step of one button press (255 = 5 * 3 * 17).
pub const CHANGE_BY: u8 = 51;

/// The brightness the light starts at: three steps up.
pub const INITIAL_BRIGHTNESS: u8 = 153;

/// `x + by`, capped at 255.
pub open spec fn raised(x: u8, by: u8) -> u8 {
    if x + by > 255 {
        255
    } else {
        (x + by) as u8
    }
}

/// `x - by`, floored at 0.
pub open spec fn lowered(x: u8, by: u8) -> u8 {
    if x - by < 0 {
        0
    } else {
        (x - by) as u8
    }
}

/// The brightness after one press.
pub open spec fn changed(current: u8, change_by: u8, op: Operation) -> u8 {
    match op {
        Operation::INC => raised(current, change_by),
        Operation::DEC => lowered(current, change_by),
    }
}

/// The brightness after one press of the button for `op`, from `current`.
pub fn change_brightness(current: u8, change_by: u8, op: Operation) -> (next: u8)
    ensures
        next == changed(current, change_by, op),
{
    let next = match op {
        Operation::DEC => current.saturating_sub(change_by),
        Operation::INC => current.saturating_add(change_by),
    };
    next
}

/// One press moves the brightness by `change_by`, stopping at 255 going up
/// and at 0 going down.
pub proof fn lemma_change_exact(current: u8, change_by: u8)
    ensures
        changed(current, change_by, Operation::INC) == (if current + change_by > 255 {
            255
        } else {
            current + change_by
        }),
        changed(current, change_by, Operation::DEC) == (if current < change_by {
            0
        } else {
            current - change_by
        }),
{
}

/// Raising never lowers and lowering never raises; the brightness stays in
/// 0..=255 by saturating.
pub proof fn lemma_change_direction(current: u8, change_by: u8)
    ensures
        changed(current, change_by, Operation::INC) >= current,
        changed(current, change_by, Operation::DEC) <= current,
        current == 255 ==> changed(current, change_by, Operation::INC) == 255,
        current == 0 ==> changed(current, change_by, Operation::DEC) == 0,
{
}

/// A press of one button undoes a press of the other, unless the first one
/// saturated.
pub proof fn lemma_inc_dec_inverse(current: u8, change_by: u8)
    ensures
        current + change_by <= 255 ==> changed(
            changed(current, change_by, Operation::INC),
            change_by,
            Operation::DEC,
        ) == current,
        current >= change_by ==> changed(
            changed(current, change_by, Operation::DEC),
            change_by,
            Operation::INC,
        ) == current,
{
}

/// From a multiple of `CHANGE_BY`, every press gives a multiple of
/// `CHANGE_BY` again: the brightness stays on the six levels 0, 51, ..., 255.
pub proof fn lemma_levels_closed(current: u8, op: Operation)
    requires
        current % CHANGE_BY == 0,
    ensures
        changed(current, CHANGE_BY, op) % CHANGE_BY == 0,
{
}

/// Five presses of the raising button reach full brightness from any level.
pub proof fn lemma_five_raises_reach_full(current: u8)
    ensures
        changed(
            changed(
                changed(
                    changed(changed(current, CHANGE_BY, Operation::INC), CHANGE_BY, Operation::INC),
                    CHANGE_BY,
                    Operation::INC,
                ),
                CHANGE_BY,
                Operation::INC,
            ),
            CHANGE_BY,
            Operation::INC,
        ) == 255,
{
}

} // verus!
