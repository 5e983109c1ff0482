use arduino_lessons::glyph::{CGRAMSymbolNumber, CustomSymbol};

const TOP_LEFT: [u8; 8] = [0b00000, 0b00000, 0b00001, 0b00011, 0b00110, 0b01100, 0b01100, 0b11000];

#[test]
fn new_keeps_rows() {
    let s = CustomSymbol::new(CGRAMSymbolNumber::S0, TOP_LEFT);
    assert_eq!(s.rows, TOP_LEFT);
    assert_eq!(s.number, CGRAMSymbolNumber::S0);
}

#[test]
fn flip_horizontal_mirrors_five_dots() {
    let s = CustomSymbol::new(CGRAMSymbolNumber::S0, TOP_LEFT);
    let m = CustomSymbol::new_flip_horizontal(CGRAMSymbolNumber::S2, &s);
    assert_eq!(m.rows, [0b00000, 0b00000, 0b10000, 0b11000, 0b01100, 0b00110, 0b00110, 0b00011]);
    assert_eq!(m.number, CGRAMSymbolNumber::S2);
}

#[test]
fn flip_horizontal_twice_restores() {
    let s = CustomSymbol::new(CGRAMSymbolNumber::S6, [0, 3, 7, 13, 31, 28, 18, 9]);
    let m = CustomSymbol::new_flip_horizontal(CGRAMSymbolNumber::S7, &s);
    let back = CustomSymbol::new_flip_horizontal(CGRAMSymbolNumber::S6, &m);
    assert_eq!(back.rows, s.rows);
}

#[test]
fn flip_horizontal_drops_high_bits() {
    let s = CustomSymbol::new(CGRAMSymbolNumber::S1, [0xFF, 0x80, 0x01, 0x20, 0x10, 0x00, 0xE0, 0x1F]);
    let m = CustomSymbol::new_flip_horizontal(CGRAMSymbolNumber::S1, &s);
    assert_eq!(m.rows, [0x1F, 0x00, 0x10, 0x00, 0x01, 0x00, 0x00, 0x1F]);
    for r in m.rows {
        assert!(r < 32);
    }
}

#[test]
fn flip_vertical_reverses_rows() {
    let s = CustomSymbol::new(CGRAMSymbolNumber::S0, TOP_LEFT);
    let v = CustomSymbol::new_flip_vertical(CGRAMSymbolNumber::S3, &s);
    assert_eq!(v.rows, [0b11000, 0b01100, 0b01100, 0b00110, 0b00011, 0b00001, 0b00000, 0b00000]);
    let back = CustomSymbol::new_flip_vertical(CGRAMSymbolNumber::S0, &v);
    assert_eq!(back.rows, TOP_LEFT);
}

#[test]
fn flips_commute() {
    let s = CustomSymbol::new(CGRAMSymbolNumber::S0, [1, 2, 4, 8, 16, 3, 5, 9]);
    let hv = CustomSymbol::new_flip_vertical(
        CGRAMSymbolNumber::S0,
        &CustomSymbol::new_flip_horizontal(CGRAMSymbolNumber::S0, &s),
    );
    let vh = CustomSymbol::new_flip_horizontal(
        CGRAMSymbolNumber::S0,
        &CustomSymbol::new_flip_vertical(CGRAMSymbolNumber::S0, &s),
    );
    assert_eq!(hv.rows, vh.rows);
}

#[test]
fn addresses() {
    let all = [
        CGRAMSymbolNumber::S0,
        CGRAMSymbolNumber::S1,
        CGRAMSymbolNumber::S2,
        CGRAMSymbolNumber::S3,
        CGRAMSymbolNumber::S4,
        CGRAMSymbolNumber::S5,
        CGRAMSymbolNumber::S6,
        CGRAMSymbolNumber::S7,
    ];
    for (i, n) in all.iter().enumerate() {
        let s = CustomSymbol::new(*n, [0; 8]);
        assert_eq!(s.ddram_address() as usize, i);
        assert_eq!(s.cgram_address() as usize, 8 * i);
    }
    let s5 = CustomSymbol::new(CGRAMSymbolNumber::S5, [0; 8]);
    assert_eq!(s5.cgram_address(), 40);
}
