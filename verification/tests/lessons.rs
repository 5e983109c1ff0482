use arduino_lessons::brightness::{change_brightness, Operation, CHANGE_BY, INITIAL_BRIGHTNESS};
use arduino_lessons::buzzer::{note_timer_top, DO, FA, LA, MI, RE, SI, SO};
use arduino_lessons::inputs::{motor_speed, pot_brightness, too_dark, ButtonEdge};
use arduino_lessons::millis::{
    init_millis_timer, millis_tick, running_bar_index, running_bar_pin, ClockSelect,
    MILLIS_INCREMENT, PRESCALER, TIMER_COUNTS,
};
use arduino_lessons::pulsar::{pulsar_step, OutputMode, PulsarState};

#[test]
fn brightness_steps() {
    assert_eq!(INITIAL_BRIGHTNESS, 3 * CHANGE_BY);
    assert_eq!(change_brightness(153, CHANGE_BY, Operation::INC), 204);
    assert_eq!(change_brightness(153, CHANGE_BY, Operation::DEC), 102);
    assert_eq!(change_brightness(255, CHANGE_BY, Operation::INC), 255);
    assert_eq!(change_brightness(0, CHANGE_BY, Operation::DEC), 0);
    assert_eq!(change_brightness(30, CHANGE_BY, Operation::DEC), 0);
    assert_eq!(change_brightness(230, CHANGE_BY, Operation::INC), 255);
}

#[test]
fn brightness_levels_and_full() {
    let mut b = 0u8;
    for _ in 0..5 {
        b = change_brightness(b, CHANGE_BY, Operation::INC);
        assert_eq!(b % CHANGE_BY, 0);
    }
    assert_eq!(b, 255);
    let up = change_brightness(102, CHANGE_BY, Operation::INC);
    assert_eq!(change_brightness(up, CHANGE_BY, Operation::DEC), 102);
}

#[test]
fn note_tops() {
    let tops: Vec<u16> = [DO, RE, MI, FA, SO, LA, SI].iter().map(|h| note_timer_top(*h)).collect();
    assert_eq!(tops, vec![3821, 3404, 3032, 2862, 2550, 2271, 2023]);
    for w in tops.windows(2) {
        assert!(w[1] < w[0]);
    }
}

#[test]
fn note_top_edges() {
    assert_eq!(note_timer_top(1526), 65529);
    assert_eq!(note_timer_top(65535), 1524);
    // below 15.26 Hz the value no longer fits and is cut to 16 bits
    assert_eq!(note_timer_top(1525), 36);
    assert_eq!(note_timer_top(1), 57599);
}

#[test]
fn note_half_period_accuracy() {
    for h in [1526u16, 26163, 44000, 65535] {
        let t = note_timer_top(h) as u64;
        assert!((t + 1) * h as u64 <= 100_000_000);
        assert!(100_000_000 < (t + 2) * h as u64);
    }
}

#[test]
fn millis_config() {
    assert_eq!(MILLIS_INCREMENT, 8);
    assert_eq!(PRESCALER * TIMER_COUNTS, MILLIS_INCREMENT * 16_000);
    let c = init_millis_timer(PRESCALER, TIMER_COUNTS);
    assert_eq!(c.compare, 125);
    assert_eq!(c.clock, ClockSelect::Prescale1024);
    assert_eq!(c.clock.divisor(), 1024);
    let c = init_millis_timer(64, 300);
    assert_eq!(c.compare, 44);
    assert_eq!(c.clock, ClockSelect::Prescale64);
    assert_eq!(init_millis_timer(8, 1).clock, ClockSelect::Prescale8);
    assert_eq!(init_millis_timer(256, 1).clock, ClockSelect::Prescale256);
}

#[test]
fn millis_ticks() {
    let mut ms = 0u32;
    for _ in 0..1000 {
        ms = millis_tick(ms);
    }
    assert_eq!(ms, 8000);
}

#[test]
fn running_bar() {
    assert_eq!(running_bar_index(0), 0);
    assert_eq!(running_bar_index(119), 0);
    assert_eq!(running_bar_index(120), 1);
    assert_eq!(running_bar_index(1199), 9);
    assert_eq!(running_bar_index(1200), 0);
    assert_eq!(running_bar_index(u32::MAX), ((u32::MAX / 120) % 10) as usize);
    assert_eq!(running_bar_pin(0), 2);
    assert_eq!(running_bar_pin(9), 11);
}

#[test]
fn pulsar_ramp() {
    let mut s = PulsarState::new();
    assert_eq!(s, PulsarState { brightness: 0, light_is_up: true });
    let (n, a) = pulsar_step(s);
    assert_eq!(n, PulsarState { brightness: 1, light_is_up: true });
    assert_eq!(a.duty, 1);
    assert_eq!(a.mode_change, None);
    assert_eq!(a.delay_ms, 10);
    for _ in 0..254 {
        s = pulsar_step(s).0;
    }
    assert_eq!(s, PulsarState { brightness: 254, light_is_up: true });
    let (n, a) = pulsar_step(s);
    assert_eq!(n, PulsarState { brightness: 255, light_is_up: false });
    assert_eq!(a.duty, 0);
    assert_eq!(a.mode_change, Some(OutputMode::NonInverting));
    assert_eq!(a.mode_change.unwrap().com1a_bits(), 0b11);
    assert_eq!(a.delay_ms, 100);
    let (n2, a2) = pulsar_step(n);
    assert_eq!(n2, PulsarState { brightness: 1, light_is_up: false });
    assert_eq!(a2.duty, 1);
    assert_eq!(a2.delay_ms, 10);
}

#[test]
fn pulsar_period() {
    let start = PulsarState { brightness: 77, light_is_up: true };
    let mut s = start;
    for _ in 0..255 {
        s = pulsar_step(s).0;
    }
    assert_eq!(s, PulsarState { brightness: 77, light_is_up: false });
    for _ in 0..255 {
        s = pulsar_step(s).0;
    }
    assert_eq!(s, start);
    let (_, a) = pulsar_step(PulsarState { brightness: 254, light_is_up: false });
    assert_eq!(a.mode_change, Some(OutputMode::Inverting));
}

#[test]
fn mixer_buttons() {
    assert_eq!(motor_speed(true, true, true, 5), 255);
    assert_eq!(motor_speed(false, true, true, 5), 127);
    assert_eq!(motor_speed(false, false, true, 5), 0);
    assert_eq!(motor_speed(false, false, false, 5), 5);
    assert_eq!(motor_speed(false, false, false, 127), 127);
}

#[test]
fn pot_and_night_light() {
    assert_eq!(pot_brightness(0), 0);
    assert_eq!(pot_brightness(1023), 255);
    assert_eq!(pot_brightness(514), 128);
    assert!(too_dark(100, 500));
    assert!(!too_dark(500, 500));
    assert!(!too_dark(900, 500));
}

#[test]
fn toggle_on_release_only() {
    let mut b = ButtonEdge::new();
    let readings = [false, true, true, true, false, false, true, false, true];
    let toggles: Vec<bool> = readings.iter().map(|r| b.update(*r)).collect();
    assert_eq!(toggles, vec![false, false, false, false, true, false, false, true, false]);
    assert!(b.btn_was_pressed);
}

#[test]
fn pulsar_light_moves_one_level_per_step() {
    let mut s = PulsarState::new();
    let mut level: i32 = 0;
    let mut seen_top = false;
    let mut seen_bottom_again = false;
    for i in 0..2000 {
        let (next, action) = pulsar_step(s);
        let new_level = if next.light_is_up { action.duty as i32 } else { 255 - action.duty as i32 };
        assert_eq!((new_level - level).abs(), 1);
        if new_level == 255 {
            seen_top = true;
        }
        if new_level == 0 && i > 0 {
            seen_bottom_again = true;
        }
        level = new_level;
        s = next;
    }
    assert!(seen_top && seen_bottom_again);
}
