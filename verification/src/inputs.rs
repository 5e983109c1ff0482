//! Decisions of the small lessons that read buttons and analog inputs and
//! drive an LED or a motor.

use vstd::prelude::*;

verus! {

/// Full motor speed (PWM duty).
pub const FULL_SPEED: u16 = 255;

/// Half motor speed (PWM duty).
pub const HALF_SPEED: u16 = 127;

/// The motor duty after reading the three buttons (pressed is true): the
/// right one gives full speed, the middle one half speed, the left one
/// stops the motor, with that priority; with none pressed the speed stays.
pub open spec fn chosen_speed(right: bool, middle: bool, left: bool, previous: u16) -> u16 {
    if right {
        FULL_SPEED
    } else if middle {
        HALF_SPEED
    } else if left {
        0
    } else {
        previous
    }
}

/// The motor duty after reading the three buttons (pressed is true).
pub fn motor_speed(right_pressed: bool, middle_pressed: bool, left_pressed: bool, previous: u16) -> (speed: u16)
    ensures
        speed == chosen_speed(right_pressed, middle_pressed, left_pressed, previous),
{
    if right_pressed {
        FULL_SPEED
    } else if middle_pressed {
        HALF_SPEED
    } else if left_pressed {
        0
    } else {
        previous
    }
}

/// The right button alone decides: full speed (255) whatever the other
/// buttons and the previous speed. Without it the middle button gives half
/// speed (127), without both the left one stops the motor (0), and with no
/// button pressed the speed is the previous one.
pub proof fn lemma_motor_speed_priority(r: bool, m: bool, l: bool, previous: u16)
    ensures
        r ==> chosen_speed(r, m, l, previous) == 255,
        !r && m ==> chosen_speed(r, m, l, previous) == 127,
        !r && !m && l ==> chosen_speed(r, m, l, previous) == 0,
        !r && !m && !l ==> chosen_speed(r, m, l, previous) == previous,
{
}

/// Once any button has been pressed the duty is one of 0, 127 and 255, and
/// reading the same buttons again changes nothing.
pub proof fn lemma_motor_speed_levels(r: bool, m: bool, l: bool, previous: u16)
    ensures
        (r || m || l) ==> (chosen_speed(r, m, l, previous) == 0 || chosen_speed(r, m, l, previous)
            == HALF_SPEED || chosen_speed(r, m, l, previous) == FULL_SPEED),
        chosen_speed(r, m, l, chosen_speed(r, m, l, previous)) == chosen_speed(r, m, l, previous),
{
}

/// The PWM duty for a potentiometer reading: a quarter of it, so the
/// 10-bit ADC range 0..=1023 maps onto the 8-bit duty 0..=255.
pub open spec fn pot_duty(rotation: u16) -> u16 {
    rotation / 4
}

/// The PWM duty for a potentiometer reading.
pub fn pot_brightness(rotation: u16) -> (brightness: u16)
    ensures
        brightness == pot_duty(rotation),
{
    rotation / 4
}

/// Over the ADC range the duty stays in 0..=255 and never falls when the
/// knob is turned up.
pub proof fn lemma_pot_brightness(r1: u16, r2: u16)
    ensures
        4 * pot_duty(r1) <= r1 < 4 * pot_duty(r1) + 4,
        r1 <= 1023 ==> pot_duty(r1) <= 255,
        r1 <= r2 ==> pot_duty(r1) <= pot_duty(r2),
        r1 == 1023 ==> pot_duty(r1) == 255,
{
}

/// The night light is on when the light sensor reads below the threshold
/// set on the potentiometer.
pub open spec fn is_too_dark(lightness: u16, threshold: u16) -> bool {
    lightness < threshold
}

/// Whether the night light goes on.
pub fn too_dark(lightness: u16, threshold: u16) -> (dark: bool)
    ensures
        dark == is_too_dark(lightness, threshold),
{
    lightness < threshold
}

/// Darker never turns the light off, and a higher threshold never turns it
/// off either.
pub proof fn lemma_too_dark_monotone(l1: u16, l2: u16, t1: u16, t2: u16)
    requires
        l2 <= l1,
        t1 <= t2,
    ensures
        is_too_dark(l1, t1) ==> is_too_dark(l2, t2),
        !is_too_dark(t1, t1),
        t1 > 0 ==> is_too_dark((t1 - 1) as u16, t1),
        l1 >= t1 ==> !is_too_dark(l1, t1),
{
}

/// Whether a reading toggles the LED: the button was pressed and is not.
pub open spec fn is_release(was: bool, now: bool) -> bool {
    was && !now
}

/// Only a release toggles: the button pressed at the last reading and not
/// at this one. A press, holding the button and leaving it never toggle.
pub proof fn lemma_release_only()
    ensures
        is_release(true, false),
        !is_release(false, true),
        !is_release(true, true),
        !is_release(false, false),
{
}

/// The button of the toggle lesson: the state kept between two readings is
/// whether the button was pressed at the last one.
#[derive(Clone, Copy, Debug, PartialEq, Eq, Structural)]
pub struct ButtonEdge {
    pub btn_was_pressed: bool,
}

impl ButtonEdge {
    /// Before the first reading the button counts as released.
    pub fn new() -> (b: ButtonEdge)
        ensures
            !b.btn_was_pressed,
    {
        ButtonEdge { btn_was_pressed: false }
    }

    /// Takes one reading; returns whether to toggle the LED, which is when
    /// the button has just been released.
    pub fn update(&mut self, btn_is_pressed: bool) -> (toggle: bool)
        ensures
            toggle == is_release(old(self).btn_was_pressed, btn_is_pressed),
            final(self).btn_was_pressed == btn_is_pressed,
    {
        let toggle = self.btn_was_pressed && !btn_is_pressed;
        self.btn_was_pressed = btn_is_pressed;
        toggle
    }
}

/// The LED after a sequence of readings from the button state `was`:
/// toggled once per release.
pub open spec fn led_after(led: bool, was: bool, readings: Seq<bool>) -> bool
    decreases readings.len(),
{
    if readings.len() == 0 {
        led
    } else {
        let now = readings[0];
        led_after(
            if is_release(was, now) {
                !led
            } else {
                led
            },
            now,
            readings.drop_first(),
        )
    }
}

/// The number of releases in a sequence of readings from the button state
/// `was`.
pub open spec fn releases(was: bool, readings: Seq<bool>) -> nat
    decreases readings.len(),
{
    if readings.len() == 0 {
        0
    } else {
        let now = readings[0];
        (if is_release(was, now) {
            1nat
        } else {
            0nat
        }) + releases(now, readings.drop_first())
    }
}

/// The LED changes exactly when the number of releases is odd: holding the
/// button, or leaving it, never toggles the LED.
pub proof fn lemma_toggles_count_releases(led: bool, was: bool, readings: Seq<bool>)
    ensures
        led_after(led, was, readings) == (if releases(was, readings) % 2 == 1 {
            !led
        } else {
            led
        }),
    decreases readings.len(),
{
    if readings.len() > 0 {
        let now = readings[0];
        let led1 = if is_release(was, now) {
            !led
        } else {
            led
        };
        lemma_toggles_count_releases(led1, now, readings.drop_first());
    }
}

} // verus!
