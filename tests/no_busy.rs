use lcd::{
    Delay, Device, Direction, Display, DisplayBlink, DisplayCursor, DisplayMode, EntryModeDirection,
    EntryModeShift, FunctionDots, FunctionLine, FunctionMode, Hardware,
};

/// Records every signal the driver drives, as text.
struct BufferHardware {
    commands: Vec<String>,
    input: Option<Vec<u8>>,
    mode: FunctionMode,
    applies: usize,
    address_waits: usize,
}

impl BufferHardware {
    fn command(&mut self, cmd: String) {
        self.commands.push(cmd);
    }
}

impl Device for BufferHardware {}

impl Hardware for BufferHardware {
    fn rs(&mut self, bit: bool) {
        self.command(format!("R/S {}", bit));
    }

    fn enable(&mut self, bit: bool) {
        self.command(format!("EN {}", bit));
    }

    fn data(&mut self, data: u8) {
        let str = match self.mode {
            FunctionMode::Bit4 => format!("DATA 0b{:04b}", data),
            FunctionMode::Bit8 => format!("DATA 0b{:08b}", data),
        };
        self.command(str);
    }

    fn mode(&self) -> FunctionMode {
        self.mode
    }

    fn can_read(&self) -> bool {
        self.input.is_some()
    }

    fn rw(&mut self, bit: bool) {
        self.command(format!("RW {}", bit));
    }

    fn read_data(&mut self) -> u8 {
        self.command("IS BUSY?".to_string());
        self.input.as_mut().unwrap().remove(0)
    }

    fn wait_address(&mut self) {
        self.address_waits += 1;
    }

    fn apply(&mut self) {
        self.applies += 1;
    }
}

impl Delay for BufferHardware {
    fn delay_us(&mut self, delay: u32) {
        self.command(format!("DELAY {}", delay));
    }
}

/// Runs `ops` on a display over a recording device and returns what it recorded.
fn run(
    mode: FunctionMode,
    input: Option<Vec<u8>>,
    ops: impl Fn(&mut Display<BufferHardware>),
) -> Vec<String> {
    let hw = BufferHardware {
        commands: vec![],
        input,
        mode,
        applies: 0,
        address_waits: 0,
    };
    let mut display = Display::new(hw);
    ops(&mut display);
    display.unwrap().commands
}


#[test]
fn no_busy_init_4bit() {
    let vec = run(FunctionMode::Bit4, None, |lcd| {
        lcd.init(FunctionLine::Line2, FunctionDots::Dots5x8);
    });
    assert_eq!(
        vec,
        vec![
            // Send init command three times
            "R/S false",
            "DATA 0b0011",
            "EN true",
            "DELAY 1",
            "EN false",
            "DELAY 4500",
            "EN true",
            "DELAY 1",
            "EN false",
            "DELAY 150",
            "EN true",
            "DELAY 1",
            "EN false",
            "DELAY 50",
            // Switch to 4-bit mode
            "DATA 0b0010",
            "EN true",
            "DELAY 1",
            "EN false",
            "DELAY 50",
            // Set lines, font size
            "R/S false",
            "DATA 0b0010",
            "EN true",
            "DELAY 1",
            "EN false",
            "DATA 0b1000",
            "EN true",
            "DELAY 1",
            "EN false",
            "DELAY 50",
            // Display
            "R/S false",
            "DATA 0b0000",
            "EN true",
            "DELAY 1",
            "EN false",
            "DATA 0b1000",
            "EN true",
            "DELAY 1",
            "EN false",
            "DELAY 50",
            // Clear
            "R/S false",
            "DATA 0b0000",
            "EN true",
            "DELAY 1",
            "EN false",
            "DATA 0b0001",
            "EN true",
            "DELAY 1",
            "EN false",
            "DELAY 50",
            "DELAY 2000",
            // Entry mode
            "R/S false",
            "DATA 0b0000",
            "EN true",
            "DELAY 1",
            "EN false",
            "DATA 0b0110",
            "EN true",
            "DELAY 1",
            "EN false",
            "DELAY 50"
        ]
    );
}

#[test]
fn init_8bit() {
    let vec = run(FunctionMode::Bit8, None, |lcd| {
        lcd.init(FunctionLine::Line2, FunctionDots::Dots5x8);
    });
    assert_eq!(
        vec,
        vec![
            // Send init command three times
            "R/S false",
            "DATA 0b00111100",
            "EN true",
            "DELAY 1",
            "EN false",
            "DELAY 4500",
            "EN true",
            "DELAY 1",
            "EN false",
            "DELAY 150",
            "EN true",
            "DELAY 1",
            "EN false",
            "DELAY 50",
            // Set lines, font size
            "R/S false",
            "DATA 0b00111000",
            "EN true",
            "DELAY 1",
            "EN false",
            "DELAY 50",
            // Display
            "R/S false",
            "DATA 0b00001000",
            "EN true",
            "DELAY 1",
            "EN false",
            "DELAY 50",
            // Clear
            "R/S false",
            "DATA 0b00000001",
            "EN true",
            "DELAY 1",
            "EN false",
            "DELAY 50",
            "DELAY 2000",
            // Entry mode
            "R/S false",
            "DATA 0b00000110",
            "EN true",
            "DELAY 1",
            "EN false",
            "DELAY 50"
        ]
    );
}

#[test]
fn clear_4bit() {
    let vec = run(FunctionMode::Bit4, None, |lcd| {
        lcd.clear();
    });
    assert_eq!(
        vec,
        vec![
            "R/S false",
            "DATA 0b0000",
            "EN true",
            "DELAY 1",
            "EN false",
            "DATA 0b0001",
            "EN true",
            "DELAY 1",
            "EN false",
            "DELAY 50",
            "DELAY 2000"
        ]
    );
}

#[test]
fn clear_8bit() {
    let vec = run(FunctionMode::Bit8, None, |lcd| {
        lcd.clear();
    });
    assert_eq!(
        vec,
        vec![
            "R/S false",
            "DATA 0b00000001",
            "EN true",
            "DELAY 1",
            "EN false",
            "DELAY 50",
            "DELAY 2000"
        ]
    );
}

#[test]
fn home_4bit() {
    let vec = run(FunctionMode::Bit4, None, |lcd| {
        lcd.home();
    });
    assert_eq!(
        vec,
        vec![
            "R/S false",
            "DATA 0b0000",
            "EN true",
            "DELAY 1",
            "EN false",
            "DATA 0b0010",
            "EN true",
            "DELAY 1",
            "EN false",
            "DELAY 50",
            "DELAY 2000"
        ]
    );
}

#[test]
fn home_8bit() {
    let vec = run(FunctionMode::Bit8, None, |lcd| {
        lcd.home();
    });
    assert_eq!(
        vec,
        vec![
            "R/S false",
            "DATA 0b00000010",
            "EN true",
            "DELAY 1",
            "EN false",
            "DELAY 50",
            "DELAY 2000"
        ]
    );
}

#[test]
fn entry_mode_4bit() {
    let vec = run(FunctionMode::Bit4, None, |lcd| {
        lcd.entry_mode(EntryModeDirection::EntryLeft, EntryModeShift::NoShift);
    });
    assert_eq!(
        vec,
        vec![
            "R/S false",
            "DATA 0b0000",
            "EN true",
            "DELAY 1",
            "EN false",
            "DATA 0b0100",
            "EN true",
            "DELAY 1",
            "EN false",
            "DELAY 50"
        ]
    );

    let vec = run(FunctionMode::Bit4, None, |lcd| {
        lcd.entry_mode(EntryModeDirection::EntryRight, EntryModeShift::Shift);
    });
    assert_eq!(
        vec,
        vec![
            "R/S false",
            "DATA 0b0000",
            "EN true",
            "DELAY 1",
            "EN false",
            "DATA 0b0111",
            "EN true",
            "DELAY 1",
            "EN false",
            "DELAY 50"
        ]
    );
}

#[test]
fn scroll_4bit() {
    let vec = run(FunctionMode::Bit4, None, |lcd| {
        lcd.scroll(Direction::Left);
    });
    assert_eq!(
        vec,
        vec![
            "R/S false",
            "DATA 0b0001",
            "EN true",
            "DELAY 1",
            "EN false",
            "DATA 0b1000",
            "EN true",
            "DELAY 1",
            "EN false",
            "DELAY 50"
        ]
    );

    let vec = run(FunctionMode::Bit4, None, |lcd| {
        lcd.scroll(Direction::Right);
    });
    assert_eq!(
        vec,
        vec![
            "R/S false",
            "DATA 0b0001",
            "EN true",
            "DELAY 1",
            "EN false",
            "DATA 0b1100",
            "EN true",
            "DELAY 1",
            "EN false",
            "DELAY 50"
        ]
    );
}

#[test]
fn cursor_4bit() {
    let vec = run(FunctionMode::Bit4, None, |lcd| {
        lcd.cursor(Direction::Left);
    });
    assert_eq!(
        vec,
        vec![
            "R/S false",
            "DATA 0b0001",
            "EN true",
            "DELAY 1",
            "EN false",
            "DATA 0b0000",
            "EN true",
            "DELAY 1",
            "EN false",
            "DELAY 50"
        ]
    );

    let vec = run(FunctionMode::Bit4, None, |lcd| {
        lcd.cursor(Direction::Right);
    });
    assert_eq!(
        vec,
        vec![
            "R/S false",
            "DATA 0b0001",
            "EN true",
            "DELAY 1",
            "EN false",
            "DATA 0b0100",
            "EN true",
            "DELAY 1",
            "EN false",
            "DELAY 50"
        ]
    );
}

#[test]
fn position_4bit() {
    let vec = run(FunctionMode::Bit4, None, |lcd| {
        lcd.position(3, 0);
    });
    assert_eq!(
        vec,
        vec![
            "R/S false",
            "DATA 0b1000",
            "EN true",
            "DELAY 1",
            "EN false",
            "DATA 0b0011",
            "EN true",
            "DELAY 1",
            "EN false",
            "DELAY 50"
        ]
    );

    let vec = run(FunctionMode::Bit4, None, |lcd| {
        lcd.position(3, 1);
    });
    assert_eq!(
        vec,
        vec![
            "R/S false",
            "DATA 0b1100",
            "EN true",
            "DELAY 1",
            "EN false",
            "DATA 0b0011",
            "EN true",
            "DELAY 1",
            "EN false",
            "DELAY 50"
        ]
    );

    let vec = run(FunctionMode::Bit4, None, |lcd| {
        lcd.position(7, 2);
    });
    assert_eq!(
        vec,
        vec![
            "R/S false",
            "DATA 0b1001",
            "EN true",
            "DELAY 1",
            "EN false",
            "DATA 0b1011",
            "EN true",
            "DELAY 1",
            "EN false",
            "DELAY 50"
        ]
    );

    let vec = run(FunctionMode::Bit4, None, |lcd| {
        lcd.position(8, 3);
    });
    assert_eq!(
        vec,
        vec![
            "R/S false",
            "DATA 0b1101",
            "EN true",
            "DELAY 1",
            "EN false",
            "DATA 0b1100",
            "EN true",
            "DELAY 1",
            "EN false",
            "DELAY 50"
        ]
    );
}

#[test]
fn print() {
    let vec = run(FunctionMode::Bit4, None, |lcd| {
        lcd.print("hello");
    });
    assert_eq!(
        vec,
        vec![
            "R/S true",
            "DATA 0b0110",
            "EN true",
            "DELAY 1",
            "EN false",
            "DATA 0b1000",
            "EN true",
            "DELAY 1",
            "EN false",
            "DELAY 50",
            "DELAY 5",
            "R/S true",
            "DATA 0b0110",
            "EN true",
            "DELAY 1",
            "EN false",
            "DATA 0b0101",
            "EN true",
            "DELAY 1",
            "EN false",
            "DELAY 50",
            "DELAY 5",
            "R/S true",
            "DATA 0b0110",
            "EN true",
            "DELAY 1",
            "EN false",
            "DATA 0b1100",
            "EN true",
            "DELAY 1",
            "EN false",
            "DELAY 50",
            "DELAY 5",
            "R/S true",
            "DATA 0b0110",
            "EN true",
            "DELAY 1",
            "EN false",
            "DATA 0b1100",
            "EN true",
            "DELAY 1",
            "EN false",
            "DELAY 50",
            "DELAY 5",
            "R/S true",
            "DATA 0b0110",
            "EN true",
            "DELAY 1",
            "EN false",
            "DATA 0b1111",
            "EN true",
            "DELAY 1",
            "EN false",
            "DELAY 50",
            "DELAY 5"
        ]
    );
}

const ARROW: [u8; 8] = [
    0b00000, 0b01000, 0b01100, 0b01110, 0b11111, 0b01110, 0b01100, 0b01000,
];

#[test]
fn upload() {
    let vec = run(FunctionMode::Bit4, None, |lcd| {
        lcd.upload_character(3, ARROW);
    });
    assert_eq!(
        vec,
        vec![
            "R/S false",
            "DATA 0b0101",
            "EN true",
            "DELAY 1",
            "EN false",
            "DATA 0b1000",
            "EN true",
            "DELAY 1",
            "EN false",
            "DELAY 50",
            "R/S true",
            "DATA 0b0000",
            "EN true",
            "DELAY 1",
            "EN false",
            "DATA 0b0000",
            "EN true",
            "DELAY 1",
            "EN false",
            "DELAY 50",
            "DELAY 5",
            "R/S true",
            "DATA 0b0000",
            "EN true",
            "DELAY 1",
            "EN false",
            "DATA 0b1000",
            "EN true",
            "DELAY 1",
            "EN false",
            "DELAY 50",
            "DELAY 5",
            "R/S true",
            "DATA 0b0000",
            "EN true",
            "DELAY 1",
            "EN false",
            "DATA 0b1100",
            "EN true",
            "DELAY 1",
            "EN false",
            "DELAY 50",
            "DELAY 5",
            "R/S true",
            "DATA 0b0000",
            "EN true",
            "DELAY 1",
            "EN false",
            "DATA 0b1110",
            "EN true",
            "DELAY 1",
            "EN false",
            "DELAY 50",
            "DELAY 5",
            "R/S true",
            "DATA 0b0001",
            "EN true",
            "DELAY 1",
            "EN false",
            "DATA 0b1111",
            "EN true",
            "DELAY 1",
            "EN false",
            "DELAY 50",
            "DELAY 5",
            "R/S true",
            "DATA 0b0000",
            "EN true",
            "DELAY 1",
            "EN false",
            "DATA 0b1110",
            "EN true",
            "DELAY 1",
            "EN false",
            "DELAY 50",
            "DELAY 5",
            "R/S true",
            "DATA 0b0000",
            "EN true",
            "DELAY 1",
            "EN false",
            "DATA 0b1100",
            "EN true",
            "DELAY 1",
            "EN false",
            "DELAY 50",
            "DELAY 5",
            "R/S true",
            "DATA 0b0000",
            "EN true",
            "DELAY 1",
            "EN false",
            "DATA 0b1000",
            "EN true",
            "DELAY 1",
            "EN false",
            "DELAY 50",
            "DELAY 5",
        ]
    );
}

#[test]
fn clear_twice_repeats_the_same_signals() {
    for mode in [FunctionMode::Bit4, FunctionMode::Bit8] {
        let once = run(mode, None, |lcd| {
            lcd.clear();
        });
        let twice = run(mode, None, |lcd| {
            lcd.clear();
            lcd.clear();
        });
        assert_eq!(twice.len(), 2 * once.len());
        assert_eq!(&twice[..once.len()], &once[..]);
        assert_eq!(&twice[once.len()..], &once[..]);
    }
}

#[test]
fn position_row_two_8bit() {
    let vec = run(FunctionMode::Bit8, None, |lcd| {
        lcd.position(7, 2);
    });
    assert_eq!(
        vec,
        vec!["R/S false", "DATA 0b10011011", "EN true", "DELAY 1", "EN false", "DELAY 50"]
    );
}

#[test]
fn position_rows_past_the_fourth_start_at_zero() {
    let vec = run(FunctionMode::Bit8, None, |lcd| {
        lcd.position(5, 4);
    });
    assert_eq!(
        vec,
        vec!["R/S false", "DATA 0b10000101", "EN true", "DELAY 1", "EN false", "DELAY 50"]
    );
    let vec = run(FunctionMode::Bit8, None, |lcd| {
        lcd.position(5, 200);
    });
    assert_eq!(
        vec,
        vec!["R/S false", "DATA 0b10000101", "EN true", "DELAY 1", "EN false", "DELAY 50"]
    );
}

#[test]
fn print_empty_text_drives_nothing() {
    let vec = run(FunctionMode::Bit4, None, |lcd| {
        lcd.print("");
    });
    assert!(vec.is_empty());
}

#[test]
fn write_8bit_sends_one_transfer() {
    let vec = run(FunctionMode::Bit8, None, |lcd| {
        lcd.write(0xA5);
    });
    assert_eq!(
        vec,
        vec!["R/S true", "DATA 0b10100101", "EN true", "DELAY 1", "EN false", "DELAY 50", "DELAY 5"]
    );
}

#[test]
fn write_4bit_sends_high_then_low_nibble() {
    let vec = run(FunctionMode::Bit4, None, |lcd| {
        lcd.write(0xA5);
    });
    assert_eq!(
        vec,
        vec![
            "R/S true",
            "DATA 0b1010",
            "EN true",
            "DELAY 1",
            "EN false",
            "DATA 0b0101",
            "EN true",
            "DELAY 1",
            "EN false",
            "DELAY 50",
            "DELAY 5"
        ]
    );
}

#[test]
fn display_control_flags_8bit() {
    let cases = [
        (DisplayMode::DisplayOff, DisplayCursor::CursorOff, DisplayBlink::BlinkOff, "DATA 0b00001000"),
        (DisplayMode::DisplayOn, DisplayCursor::CursorOff, DisplayBlink::BlinkOff, "DATA 0b00001100"),
        (DisplayMode::DisplayOff, DisplayCursor::CursorOn, DisplayBlink::BlinkOff, "DATA 0b00001010"),
        (DisplayMode::DisplayOff, DisplayCursor::CursorOff, DisplayBlink::BlinkOn, "DATA 0b00001001"),
        (DisplayMode::DisplayOn, DisplayCursor::CursorOn, DisplayBlink::BlinkOn, "DATA 0b00001111"),
    ];
    for (display, cursor, blink, data) in cases {
        let vec = run(FunctionMode::Bit8, None, |lcd| {
            lcd.display(display, cursor, blink);
        });
        assert_eq!(vec, vec!["R/S false", data, "EN true", "DELAY 1", "EN false", "DELAY 50"]);
    }
}

#[test]
fn entry_mode_and_shift_flags_8bit() {
    let vec = run(FunctionMode::Bit8, None, |lcd| {
        lcd.entry_mode(EntryModeDirection::EntryLeft, EntryModeShift::Shift);
        lcd.scroll(Direction::Right);
        lcd.cursor(Direction::Left);
    });
    assert_eq!(
        vec,
        vec![
            "R/S false",
            "DATA 0b00000101",
            "EN true",
            "DELAY 1",
            "EN false",
            "DELAY 50",
            "R/S false",
            "DATA 0b00011100",
            "EN true",
            "DELAY 1",
            "EN false",
            "DELAY 50",
            "R/S false",
            "DATA 0b00010000",
            "EN true",
            "DELAY 1",
            "EN false",
            "DELAY 50"
        ]
    );
}

#[test]
fn init_8bit_one_line_large_font() {
    let vec = run(FunctionMode::Bit8, None, |lcd| {
        lcd.init(FunctionLine::Line1, FunctionDots::Dots5x10);
    });
    // the function set for the requested lines and font follows the start sequence
    assert_eq!(
        &vec[14..20],
        &["R/S false", "DATA 0b00110100", "EN true", "DELAY 1", "EN false", "DELAY 50"]
    );
    assert_eq!(vec.len(), 14 + 6 * 4 + 1);
}

#[test]
fn upload_last_slot() {
    let vec = run(FunctionMode::Bit8, None, |lcd| {
        lcd.upload_character(7, [1, 2, 3, 4, 5, 6, 7, 8]);
    });
    assert_eq!(
        &vec[..6],
        &["R/S false", "DATA 0b01111000", "EN true", "DELAY 1", "EN false", "DELAY 50"]
    );
    for (i, row) in [1u8, 2, 3, 4, 5, 6, 7, 8].iter().enumerate() {
        let at = 6 + 7 * i;
        assert_eq!(vec[at], "R/S true");
        assert_eq!(vec[at + 1], format!("DATA 0b{:08b}", row));
        assert_eq!(vec[at + 5], "DELAY 50");
        assert_eq!(vec[at + 6], "DELAY 5");
    }
    assert_eq!(vec.len(), 6 + 7 * 8);
}

#[test]
fn home_then_release_returns_the_device() {
    let hw = BufferHardware {
        commands: vec![],
        input: None,
        mode: FunctionMode::Bit8,
        applies: 0,
        address_waits: 0,
    };
    let mut lcd = Display::new(hw);
    lcd.home();
    let hw = lcd.unwrap();
    assert_eq!(hw.commands.len(), 7);
    assert_eq!(hw.commands[1], "DATA 0b00000010");
}

#[test]
fn commits_follow_every_line_change() {
    let hw = BufferHardware {
        commands: vec![],
        input: None,
        mode: FunctionMode::Bit4,
        applies: 0,
        address_waits: 0,
    };
    let mut lcd = Display::new(hw);
    lcd.clear();
    let hw = lcd.unwrap();
    // register select, then per nibble: data, enable high, enable low
    assert_eq!(hw.applies, 1 + 2 * 3);
    assert_eq!(hw.address_waits, 1);

    let mut lcd = Display::new(hw);
    lcd.print("ab");
    let hw = lcd.unwrap();
    assert_eq!(hw.applies, 7 + 2 * 7);
    assert_eq!(hw.address_waits, 1 + 2);
}

#[test]
fn fmt_write_prints_the_text() {
    let via_write = run(FunctionMode::Bit4, None, |lcd| {
        assert!(core::fmt::Write::write_str(lcd, "hi").is_ok());
    });
    let via_print = run(FunctionMode::Bit4, None, |lcd| {
        lcd.print("hi");
    });
    assert_eq!(via_write, via_print);
    assert_eq!(via_write.len(), 2 * 11);
    assert_eq!(via_write[1], "DATA 0b0110");
    assert_eq!(via_write[5], "DATA 0b1000");
}
