//! Command encoding: the instruction opcodes of the controller and the option
//! flags of each instruction group. A command byte is one opcode OR-ed with
//! flags of that opcode's group only.

use vstd::prelude::*;

verus! {

/// Width of the data bus between the driver and the controller.
#[derive(Copy, Clone, Debug, PartialEq, Eq, Structural)]
pub enum FunctionMode {
    /// Send data 4 bits at the time
    Bit4,
    /// Send data 8 bits at the time
    Bit8,
}

/// Character font size.
#[derive(Copy, Clone, Debug, PartialEq, Eq, Structural)]
pub enum FunctionDots {
    Dots5x8,
    Dots5x10,
}

/// Number of display lines.
#[derive(Copy, Clone, Debug, PartialEq, Eq, Structural)]
pub enum FunctionLine {
    Line1,
    Line2,
}

/// Cursor blinking.
#[derive(Copy, Clone, Debug, PartialEq, Eq, Structural)]
pub enum DisplayBlink {
    BlinkOff,
    BlinkOn,
}

/// Cursor visibility.
#[derive(Copy, Clone, Debug, PartialEq, Eq, Structural)]
pub enum DisplayCursor {
    CursorOff,
    CursorOn,
}

/// Whole display on or off.
#[derive(Copy, Clone, Debug, PartialEq, Eq, Structural)]
pub enum DisplayMode {
    DisplayOff,
    DisplayOn,
}

/// Direction of a cursor or display shift.
#[derive(Copy, Clone, Debug, PartialEq, Eq, Structural)]
pub enum Direction {
    Left,
    Right,
}

/// What a shift instruction moves.
#[derive(Copy, Clone, Debug, PartialEq, Eq, Structural)]
pub enum Scroll {
    CursorMove,
    DisplayMove,
}

/// Direction in which the address counter moves after a data write.
#[derive(Copy, Clone, Debug, PartialEq, Eq, Structural)]
pub enum EntryModeDirection {
    EntryLeft,
    EntryRight,
}

/// Whether the display shifts along with each data write.
#[derive(Copy, Clone, Debug, PartialEq, Eq, Structural)]
pub enum EntryModeShift {
    NoShift,
    Shift,
}

/// The eight base instruction opcodes.
#[derive(Copy, Clone, Debug, PartialEq, Eq, Structural)]
pub enum Command {
    ClearDisplay,
    ReturnHome,
    EntryModeSet,
    DisplayControl,
    CursorShift,
    FunctionSet,
    SetCGRamAddr,
    SetDDRamAddr,
}

impl FunctionMode {
    pub open spec fn spec_bits(self) -> u8 {
        match self {
            FunctionMode::Bit4 => 0x00,
            FunctionMode::Bit8 => 0x10,
        }
    }

    /// The flag of this option within the function-set instruction.
    #[verifier::when_used_as_spec(spec_bits)]
    pub fn bits(self) -> (r: u8)
        ensures
            r == self.spec_bits(),
    {
        match self {
            FunctionMode::Bit4 => 0x00,
            FunctionMode::Bit8 => 0x10,
        }
    }
}

impl FunctionDots {
    pub open spec fn spec_bits(self) -> u8 {
        match self {
            FunctionDots::Dots5x8 => 0x00,
            FunctionDots::Dots5x10 => 0x04,
        }
    }

    /// The flag of this option within the function-set instruction.
    #[verifier::when_used_as_spec(spec_bits)]
    pub fn bits(self) -> (r: u8)
        ensures
            r == self.spec_bits(),
    {
        match self {
            FunctionDots::Dots5x8 => 0x00,
            FunctionDots::Dots5x10 => 0x04,
        }
    }
}

impl FunctionLine {
    pub open spec fn spec_bits(self) -> u8 {
        match self {
            FunctionLine::Line1 => 0x00,
            FunctionLine::Line2 => 0x08,
        }
    }

    /// The flag of this option within the function-set instruction.
    #[verifier::when_used_as_spec(spec_bits)]
    pub fn bits(self) -> (r: u8)
        ensures
            r == self.spec_bits(),
    {
        match self {
            FunctionLine::Line1 => 0x00,
            FunctionLine::Line2 => 0x08,
        }
    }
}

impl DisplayBlink {
    pub open spec fn spec_bits(self) -> u8 {
        match self {
            DisplayBlink::BlinkOff => 0x00,
            DisplayBlink::BlinkOn => 0x01,
        }
    }

    /// The flag of this option within the display-control instruction.
    #[verifier::when_used_as_spec(spec_bits)]
    pub fn bits(self) -> (r: u8)
        ensures
            r == self.spec_bits(),
    {
        match self {
            DisplayBlink::BlinkOff => 0x00,
            DisplayBlink::BlinkOn => 0x01,
        }
    }
}

impl DisplayCursor {
    pub open spec fn spec_bits(self) -> u8 {
        match self {
            DisplayCursor::CursorOff => 0x00,
            DisplayCursor::CursorOn => 0x02,
        }
    }

    /// The flag of this option within the display-control instruction.
    #[verifier::when_used_as_spec(spec_bits)]
    pub fn bits(self) -> (r: u8)
        ensures
            r == self.spec_bits(),
    {
        match self {
            DisplayCursor::CursorOff => 0x00,
            DisplayCursor::CursorOn => 0x02,
        }
    }
}

impl DisplayMode {
    pub open spec fn spec_bits(self) -> u8 {
        match self {
            DisplayMode::DisplayOff => 0x00,
            DisplayMode::DisplayOn => 0x04,
        }
    }

    /// The flag of this option within the display-control instruction.
    #[verifier::when_used_as_spec(spec_bits)]
    pub fn bits(self) -> (r: u8)
        ensures
            r == self.spec_bits(),
    {
        match self {
            DisplayMode::DisplayOff => 0x00,
            DisplayMode::DisplayOn => 0x04,
        }
    }
}

impl Direction {
    pub open spec fn spec_bits(self) -> u8 {
        match self {
            Direction::Left => 0x00,
            Direction::Right => 0x04,
        }
    }

    /// The flag of this option within the cursor-shift instruction.
    #[verifier::when_used_as_spec(spec_bits)]
    pub fn bits(self) -> (r: u8)
        ensures
            r == self.spec_bits(),
    {
        match self {
            Direction::Left => 0x00,
            Direction::Right => 0x04,
        }
    }
}

impl Scroll {
    pub open spec fn spec_bits(self) -> u8 {
        match self {
            Scroll::CursorMove => 0x00,
            Scroll::DisplayMove => 0x08,
        }
    }

    /// The flag of this option within the cursor-shift instruction.
    #[verifier::when_used_as_spec(spec_bits)]
    pub fn bits(self) -> (r: u8)
        ensures
            r == self.spec_bits(),
    {
        match self {
            Scroll::CursorMove => 0x00,
            Scroll::DisplayMove => 0x08,
        }
    }
}

impl EntryModeDirection {
    pub open spec fn spec_bits(self) -> u8 {
        match self {
            EntryModeDirection::EntryLeft => 0x00,
            EntryModeDirection::EntryRight => 0x02,
        }
    }

    /// The flag of this option within the entry-mode instruction.
    #[verifier::when_used_as_spec(spec_bits)]
    pub fn bits(self) -> (r: u8)
        ensures
            r == self.spec_bits(),
    {
        match self {
            EntryModeDirection::EntryLeft => 0x00,
            EntryModeDirection::EntryRight => 0x02,
        }
    }
}

impl EntryModeShift {
    pub open spec fn spec_bits(self) -> u8 {
        match self {
            EntryModeShift::NoShift => 0x00,
            EntryModeShift::Shift => 0x01,
        }
    }

    /// The flag of this option within the entry-mode instruction.
    #[verifier::when_used_as_spec(spec_bits)]
    pub fn bits(self) -> (r: u8)
        ensures
            r == self.spec_bits(),
    {
        match self {
            EntryModeShift::NoShift => 0x00,
            EntryModeShift::Shift => 0x01,
        }
    }
}

impl Command {
    pub open spec fn spec_bits(self) -> u8 {
        match self {
            Command::ClearDisplay => 0x01,
            Command::ReturnHome => 0x02,
            Command::EntryModeSet => 0x04,
            Command::DisplayControl => 0x08,
            Command::CursorShift => 0x10,
            Command::FunctionSet => 0x20,
            Command::SetCGRamAddr => 0x40,
            Command::SetDDRamAddr => 0x80,
        }
    }

    /// The opcode of this instruction.
    #[verifier::when_used_as_spec(spec_bits)]
    pub fn bits(self) -> (r: u8)
        ensures
            r == self.spec_bits(),
    {
        match self {
            Command::ClearDisplay => 0x01,
            Command::ReturnHome => 0x02,
            Command::EntryModeSet => 0x04,
            Command::DisplayControl => 0x08,
            Command::CursorShift => 0x10,
            Command::FunctionSet => 0x20,
            Command::SetCGRamAddr => 0x40,
            Command::SetDDRamAddr => 0x80,
        }
    }
}

/// Function-set instruction: bus width, line count and font.
pub open spec fn function_set_byte(mode: FunctionMode, line: FunctionLine, dots: FunctionDots) -> u8 {
    Command::FunctionSet.bits() | mode.bits() | line.bits() | dots.bits()
}

/// Display-control instruction: display, cursor and blink on or off.
pub open spec fn display_control_byte(
    display: DisplayMode,
    cursor: DisplayCursor,
    blink: DisplayBlink,
) -> u8 {
    Command::DisplayControl.bits() | display.bits() | cursor.bits() | blink.bits()
}

/// Entry-mode instruction: address counter direction and display shift.
pub open spec fn entry_mode_byte(dir: EntryModeDirection, shift: EntryModeShift) -> u8 {
    Command::EntryModeSet.bits() | dir.bits() | shift.bits()
}

/// Cursor-shift instruction: what moves, and where.
pub open spec fn shift_byte(scroll: Scroll, dir: Direction) -> u8 {
    Command::CursorShift.bits() | scroll.bits() | dir.bits()
}

/// DDRAM address of the first column of `row`; rows past the fourth start at 0.
pub open spec fn row_offset(row: u8) -> u8 {
    if row == 1 {
        0x40
    } else if row == 2 {
        0x14
    } else if row == 3 {
        0x54
    } else {
        0
    }
}

/// Set-DDRAM-address instruction for the given column and row.
pub open spec fn position_byte(col: u8, row: u8) -> u8 {
    Command::SetDDRamAddr.bits() | ((col + row_offset(row)) as u8)
}

/// Set-CGRAM-address instruction for the first row of a custom character slot.
pub open spec fn cgram_byte(location: u8) -> u8 {
    Command::SetCGRamAddr.bits() | ((location & 0x7) << 3u8)
}

/// Each command byte is its opcode OR-ed with flags of its own group: the
/// opcode bit is the highest bit set, every bit below it is an option of the
/// group, and each option is read back from its own bit unchanged.
pub proof fn lemma_command_encoding(
    mode: FunctionMode,
    line: FunctionLine,
    dots: FunctionDots,
    display: DisplayMode,
    cursor: DisplayCursor,
    blink: DisplayBlink,
    entry: EntryModeDirection,
    shift: EntryModeShift,
    scroll: Scroll,
    dir: Direction,
)
    ensures
        function_set_byte(mode, line, dots) & 0xE0 == 0x20,
        function_set_byte(mode, line, dots) & 0x10 == mode.bits(),
        function_set_byte(mode, line, dots) & 0x08 == line.bits(),
        function_set_byte(mode, line, dots) & 0x04 == dots.bits(),
        function_set_byte(mode, line, dots) & 0x03 == 0,
        display_control_byte(display, cursor, blink) & 0xF8 == 0x08,
        display_control_byte(display, cursor, blink) & 0x04 == display.bits(),
        display_control_byte(display, cursor, blink) & 0x02 == cursor.bits(),
        display_control_byte(display, cursor, blink) & 0x01 == blink.bits(),
        entry_mode_byte(entry, shift) & 0xFC == 0x04,
        entry_mode_byte(entry, shift) & 0x02 == entry.bits(),
        entry_mode_byte(entry, shift) & 0x01 == shift.bits(),
        shift_byte(scroll, dir) & 0xF0 == 0x10,
        shift_byte(scroll, dir) & 0x08 == scroll.bits(),
        shift_byte(scroll, dir) & 0x04 == dir.bits(),
        shift_byte(scroll, dir) & 0x03 == 0,
{
    let (m, l, d) = (mode.bits(), line.bits(), dots.bits());
    assert({
        let b = 0x20u8 | m | l | d;
        &&& b & 0xE0 == 0x20
        &&& b & 0x10 == m
        &&& b & 0x08 == l
        &&& b & 0x04 == d
        &&& b & 0x03 == 0
    }) by (bit_vector)
        requires
            m == 0 || m == 0x10,
            l == 0 || l == 0x08,
            d == 0 || d == 0x04,
    ;
    let (m, l, d) = (display.bits(), cursor.bits(), blink.bits());
    assert({
        let b = 0x08u8 | m | l | d;
        &&& b & 0xF8 == 0x08
        &&& b & 0x04 == m
        &&& b & 0x02 == l
        &&& b & 0x01 == d
    }) by (bit_vector)
        requires
            m == 0 || m == 0x04,
            l == 0 || l == 0x02,
            d == 0 || d == 0x01,
    ;
    let (l, d) = (entry.bits(), shift.bits());
    assert({
        let b = 0x04u8 | l | d;
        &&& b & 0xFC == 0x04
        &&& b & 0x02 == l
        &&& b & 0x01 == d
    }) by (bit_vector)
        requires
            l == 0 || l == 0x02,
            d == 0 || d == 0x01,
    ;
    let (l, d) = (scroll.bits(), dir.bits());
    assert({
        let b = 0x10u8 | l | d;
        &&& b & 0xF0 == 0x10
        &&& b & 0x08 == l
        &&& b & 0x04 == d
        &&& b & 0x03 == 0
    }) by (bit_vector)
        requires
            l == 0 || l == 0x08,
            d == 0 || d == 0x04,
    ;
}

/// Address instructions carry their address below the opcode bit: a
/// custom character slot in bits 3 to 5 of set-CGRAM-address, and a DDRAM
/// address (which is under 0x80) in bits 0 to 6 of set-DDRAM-address.
pub proof fn lemma_address_encoding(location: u8, col: u8, row: u8)
    requires
        location <= 7,
        col + row_offset(row) < 0x80,
    ensures
        cgram_byte(location) & 0xC0 == 0x40,
        (cgram_byte(location) >> 3u8) & 0x7 == location,
        cgram_byte(location) & 0x7 == 0,
        position_byte(col, row) & 0x80 == 0x80,
        position_byte(col, row) & 0x7F == col + row_offset(row),
{
    let address = (col + row_offset(row)) as u8;
    assert({
        let b = 0x40u8 | ((location & 0x7) << 3u8);
        &&& b & 0xC0 == 0x40
        &&& (b >> 3u8) & 0x7 == location
        &&& b & 0x7 == 0
    }) by (bit_vector)
        requires
            location <= 7,
    ;
    assert({
        let b = 0x80u8 | address;
        &&& b & 0x80 == 0x80
        &&& b & 0x7F == address
    }) by (bit_vector)
        requires
            address < 0x80,
    ;
}

} // verus!
