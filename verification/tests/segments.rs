use arduino_lessons::seven_segment::{
    counter_code, next_count, Indicator, Segment, SegmentWrite, ALL, D_0, D_1, D_2, D_3, D_4, D_5,
    D_6, D_7, D_8, D_9,
};

fn mask_after(writes: &[SegmentWrite]) -> u8 {
    let mut mask = 0u8;
    for w in writes {
        let bit = match w.segment {
            Segment::A => 1,
            Segment::B => 2,
            Segment::C => 4,
            Segment::D => 8,
            Segment::E => 16,
            Segment::F => 32,
            Segment::G => 64,
        };
        if w.high {
            mask |= bit;
        } else {
            mask &= !bit;
        }
    }
    mask
}

#[test]
fn digit_code_values() {
    assert_eq!(
        [D_0, D_1, D_2, D_3, D_4, D_5, D_6, D_7, D_8, D_9],
        [0x3F, 0x06, 0x5B, 0x4F, 0x66, 0x6D, 0x7D, 0x07, 0x7F, 0x6F]
    );
    assert_eq!(ALL, 0x7F);
}

#[test]
fn counter_code_uses_last_digit() {
    assert_eq!(counter_code(0), D_0);
    assert_eq!(counter_code(7), D_7);
    assert_eq!(counter_code(19), D_9);
    assert_eq!(counter_code(255), D_5);
}

#[test]
fn counter_wraps() {
    assert_eq!(next_count(0), 1);
    assert_eq!(next_count(254), 255);
    assert_eq!(next_count(255), 0);
}

#[test]
fn indicator_matches_shift_register_codes() {
    let codes = [D_0, D_1, D_2, D_3, D_4, D_5, D_6, D_7, D_8, D_9];
    for n in 0u8..=255 {
        let mut ind = Indicator::new();
        ind.show_count(n);
        let writes = ind.take_writes();
        assert_eq!(mask_after(&writes), codes[(n % 10) as usize]);
    }
}

#[test]
fn digit_3_writes() {
    let mut ind = Indicator::new();
    ind.digit_3();
    let writes = ind.take_writes();
    let expect: Vec<(Segment, bool)> = vec![
        (Segment::A, false),
        (Segment::B, false),
        (Segment::C, false),
        (Segment::D, false),
        (Segment::E, false),
        (Segment::F, false),
        (Segment::G, false),
        (Segment::A, true),
        (Segment::B, true),
        (Segment::C, true),
        (Segment::D, true),
        (Segment::G, true),
    ];
    let got: Vec<(Segment, bool)> = writes.iter().map(|w| (w.segment, w.high)).collect();
    assert_eq!(got, expect);
}

#[test]
fn digit_9_is_8_without_e() {
    let mut ind = Indicator::new();
    ind.digit_9();
    let writes = ind.take_writes();
    assert_eq!(writes.len(), 7 + 6 + 1 + 1);
    assert_eq!(*writes.last().unwrap(), SegmentWrite { segment: Segment::E, high: false });
    assert_eq!(mask_after(&writes), D_9);
}

#[test]
fn clear_darkens_all() {
    let mut ind = Indicator::new();
    ind.digit_8();
    ind.clear();
    let writes = ind.take_writes();
    assert_eq!(mask_after(&writes), 0);
}
