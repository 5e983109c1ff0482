use arduino_lessons::glyph::{CGRAMSymbolNumber, CustomSymbol};
use arduino_lessons::bus::{BusStep, DisplayPin};
use arduino_lessons::lcd::{
    CGRAMPageNumber, CursorMode, CursorOrDisplay, Direction, Display, DisplayRows, FontSize,
    MoveDisplay, OnOff,
};

/// Plays steps against simulated lines (all low at first) and records what
/// the controller latches on each falling edge of E: (A0, nibble).
fn replay(steps: &[BusStep]) -> Vec<(bool, u8)> {
    let mut lines = [false; 7];
    let idx = |p: DisplayPin| match p {
        DisplayPin::A0 => 0,
        DisplayPin::Rw => 1,
        DisplayPin::E => 2,
        DisplayPin::Db4 => 3,
        DisplayPin::Db5 => 4,
        DisplayPin::Db6 => 5,
        DisplayPin::Db7 => 6,
    };
    let mut out = Vec::new();
    for s in steps {
        match *s {
            BusStep::High(p) => lines[idx(p)] = true,
            BusStep::Low(p) => {
                if p == DisplayPin::E && lines[2] {
                    let nibble = (lines[6] as u8) << 3
                        | (lines[5] as u8) << 2
                        | (lines[4] as u8) << 1
                        | (lines[3] as u8);
                    out.push((lines[0], nibble));
                }
                lines[idx(p)] = false;
            }
            _ => {}
        }
    }
    out
}

fn bytes_of(latches: &[(bool, u8)]) -> Vec<(bool, u8)> {
    latches.chunks(2).map(|c| (c[0].0, c[0].1 << 4 | c[1].1)).collect()
}

#[test]
fn write_to_ram_exact_steps() {
    let mut d = Display::new();
    d.write_to_ram(&0x48);
    let steps = d.take_steps();
    assert_eq!(
        steps,
        vec![
            BusStep::High(DisplayPin::A0),
            BusStep::High(DisplayPin::E),
            BusStep::Low(DisplayPin::Db7),
            BusStep::High(DisplayPin::Db6),
            BusStep::Low(DisplayPin::Db5),
            BusStep::Low(DisplayPin::Db4),
            BusStep::DelayUs(5),
            BusStep::Low(DisplayPin::E),
            BusStep::DelayUs(10),
            BusStep::High(DisplayPin::E),
            BusStep::High(DisplayPin::Db7),
            BusStep::Low(DisplayPin::Db6),
            BusStep::Low(DisplayPin::Db5),
            BusStep::Low(DisplayPin::Db4),
            BusStep::DelayUs(5),
            BusStep::Low(DisplayPin::E),
            BusStep::DelayUs(10),
            BusStep::DelayUs(50),
        ]
    );
    assert_eq!(replay(&steps), vec![(true, 4), (true, 8)]);
}

#[test]
fn take_steps_empties_queue() {
    let mut d = Display::new();
    d.return_home();
    assert_eq!(d.take_steps().len(), 18);
    assert!(d.take_steps().is_empty());
}

#[test]
fn initialization_latches_three_three_three_two() {
    let mut d = Display::new();
    d.start_initialization();
    let steps = d.take_steps();
    assert_eq!(steps[0], BusStep::DelayMs(21));
    assert_eq!(replay(&steps), vec![(false, 3), (false, 3), (false, 3), (false, 2)]);
}

#[test]
fn commands_latch_their_codes() {
    let mut d = Display::new();
    d.function_set(&DisplayRows::TwoRow, &FontSize::Size5x8, &CGRAMPageNumber::FirstPage, &OnOff::Off);
    d.display_on_off(&OnOff::On, &CursorMode::Off);
    d.clear();
    d.entry_mode_set(&Direction::Right, &MoveDisplay::DontMove);
    d.shift(&CursorOrDisplay::Screen, &Direction::Right);
    d.shift(&CursorOrDisplay::Cursor, &Direction::Left);
    d.return_home();
    d.function_set(&DisplayRows::OneRow, &FontSize::Size5x11, &CGRAMPageNumber::SecondPage, &OnOff::On);
    d.display_on_off(&OnOff::Off, &CursorMode::CursorBlinking);
    let steps = d.take_steps();
    assert_eq!(
        bytes_of(&replay(&steps)),
        vec![
            (false, 0x28),
            (false, 0x0C),
            (false, 0x01),
            (false, 0x06),
            (false, 0x18),
            (false, 0x10),
            (false, 0x02),
            (false, 0x27),
            (false, 0x0B),
        ]
    );
}

#[test]
fn clear_waits_two_ms() {
    let mut d = Display::new();
    d.clear();
    let steps = d.take_steps();
    assert_eq!(*steps.last().unwrap(), BusStep::DelayMs(2));
}

#[test]
fn addresses_are_masked() {
    let mut d = Display::new();
    d.set_cgram_address(&0xFF);
    d.set_ddram_address(&0xFF);
    d.set_cgram_address(&0x05);
    d.set_ddram_address(&0x40);
    let steps = d.take_steps();
    assert_eq!(
        bytes_of(&replay(&steps)),
        vec![(false, 0x7F), (false, 0xFF), (false, 0x45), (false, 0xC0)]
    );
}

#[test]
fn set_cursor_rows() {
    let mut d = Display::new();
    d.set_cursor(0, 0);
    d.set_cursor(7, 1);
    d.set_cursor(13, 0);
    let steps = d.take_steps();
    assert_eq!(bytes_of(&replay(&steps)), vec![(false, 0x80), (false, 0xC7), (false, 0x8D)]);
}

#[test]
fn custom_symbol_upload() {
    let mut d = Display::new();
    let rows = [0u8, 0, 1, 3, 6, 12, 12, 24];
    let s = CustomSymbol::new(CGRAMSymbolNumber::S2, rows);
    d.set_custom_symbol(&s);
    let steps = d.take_steps();
    let bytes = bytes_of(&replay(&steps));
    assert_eq!(bytes.len(), 16);
    for r in 0..8 {
        assert_eq!(bytes[2 * r], (false, 0x40 | (16 + r as u8)));
        assert_eq!(bytes[2 * r + 1], (true, rows[r]));
    }
}

#[test]
fn write_keeps_register_select() {
    let mut d = Display::new();
    d.write_to_ram(&b'R');
    d.write(&0xA5);
    let steps = d.take_steps();
    assert_eq!(bytes_of(&replay(&steps)), vec![(true, b'R'), (true, 0xA5)]);
}

#[test]
fn sync_pulses_e_once() {
    let mut d = Display::new();
    d.sync();
    let steps = d.take_steps();
    assert_eq!(
        steps,
        vec![
            BusStep::High(DisplayPin::E),
            BusStep::DelayUs(5),
            BusStep::Low(DisplayPin::E),
            BusStep::DelayUs(10)
        ]
    );
    assert_eq!(replay(&steps), vec![(false, 0)]);
}

#[test]
fn hello_text_as_data() {
    let mut d = Display::new();
    for ch in "Hello,".as_bytes() {
        d.write_to_ram(ch);
    }
    let steps = d.take_steps();
    let bytes: Vec<u8> = bytes_of(&replay(&steps)).iter().map(|b| { assert!(b.0); b.1 }).collect();
    assert_eq!(bytes, b"Hello,".to_vec());
}
