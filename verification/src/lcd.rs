//! The byte-level command encoding of the character LCD behind an I2C
//! port expander.
//!
//! The panel takes each command as two 4-bit strobes; every register and
//! control bit is a closed set of variants with a total mapping to its raw
//! byte, and the functions here compose those bytes. Putting them on the
//! I2C bus, and the delays between strobes, stay with the host.

use vstd::prelude::*;

verus! {

/// The display-control bits: D (display), C (cursor), and B (blink) on the
/// datasheet.
#[derive(Clone, Copy, Debug, PartialEq, Eq, Structural)]
pub enum DisplayControl {
    Off,
    CursorBlink,
    CursorOn,
    DisplayOn,
}

impl DisplayControl {
    /// The raw bit of this control.
    pub open spec fn spec_byte(self) -> u8 {
        match self {
            DisplayControl::Off => 0b0000_0000,
            DisplayControl::CursorBlink => 0b0000_0001,
            DisplayControl::CursorOn => 0b0000_0010,
            DisplayControl::DisplayOn => 0b0000_0100,
        }
    }

    /// The raw bit of this control.
    #[verifier::when_used_as_spec(spec_byte)]
    pub fn byte(self) -> (b: u8)
        ensures
            b == self.spec_byte(),
    {
        match self {
            DisplayControl::Off => 0b0000_0000,
            DisplayControl::CursorBlink => 0b0000_0001,
            DisplayControl::CursorOn => 0b0000_0010,
            DisplayControl::DisplayOn => 0b0000_0100,
        }
    }
}

/// The backlight bit.
#[derive(Clone, Copy, Debug, PartialEq, Eq, Structural)]
pub enum Backlight {
    Off,
    On,
}

impl Backlight {
    /// The raw bit of this backlight state.
    pub open spec fn spec_byte(self) -> u8 {
        match self {
            Backlight::Off => 0x00,
            Backlight::On => 0x08,
        }
    }

    /// The raw bit of this backlight state.
    #[verifier::when_used_as_spec(spec_byte)]
    pub fn byte(self) -> (b: u8)
        ensures
            b == self.spec_byte(),
    {
        match self {
            Backlight::Off => 0x00,
            Backlight::On => 0x08,
        }
    }
}

/// The strobe mode bits: command or character data, and the two register
/// groups used during bring-up.
#[derive(Clone, Copy, Debug, PartialEq, Eq, Structural)]
pub enum Mode {
    Command,
    Data,
    DisplayControl,
    FunctionSet,
}

impl Mode {
    /// The raw bits of this mode.
    pub open spec fn spec_byte(self) -> u8 {
        match self {
            Mode::Command => 0b0000_0000,
            Mode::Data => 0b0000_0001,
            Mode::DisplayControl => 0b0000_1000,
            Mode::FunctionSet => 0b0010_0000,
        }
    }

    /// The raw bits of this mode.
    #[verifier::when_used_as_spec(spec_byte)]
    pub fn byte(self) -> (b: u8)
        ensures
            b == self.spec_byte(),
    {
        match self {
            Mode::Command => 0b0000_0000,
            Mode::Data => 0b0000_0001,
            Mode::DisplayControl => 0b0000_1000,
            Mode::FunctionSet => 0b0010_0000,
        }
    }
}

/// The plain commands the panel understands.
#[derive(Clone, Copy, Debug, PartialEq, Eq, Structural)]
pub enum Command {
    Clear,
    ReturnHome,
    ShiftCursor,
}

impl Command {
    /// The raw byte of this command.
    pub open spec fn spec_byte(self) -> u8 {
        match self {
            Command::Clear => 0b0000_0001,
            Command::ReturnHome => 0b0000_0010,
            Command::ShiftCursor => 0b0001_0000,
        }
    }

    /// The raw byte of this command.
    #[verifier::when_used_as_spec(spec_byte)]
    pub fn byte(self) -> (b: u8)
        ensures
            b == self.spec_byte(),
    {
        match self {
            Command::Clear => 0b0000_0001,
            Command::ReturnHome => 0b0000_0010,
            Command::ShiftCursor => 0b0001_0000,
        }
    }
}

/// Which way a shift command moves the view.
#[derive(Clone, Copy, Debug, PartialEq, Eq, Structural)]
pub enum Direction {
    Left,
    Right,
}

impl Direction {
    /// The raw bit of this direction.
    pub open spec fn spec_byte(self) -> u8 {
        match self {
            Direction::Left => 0b0000_0000,
            Direction::Right => 0b0000_0100,
        }
    }

    /// The raw bit of this direction.
    #[verifier::when_used_as_spec(spec_byte)]
    pub fn byte(self) -> (b: u8)
        ensures
            b == self.spec_byte(),
    {
        match self {
            Direction::Left => 0b0000_0000,
            Direction::Right => 0b0000_0100,
        }
    }
}

/// The bit that makes a shift command push the whole display rather than
/// the cursor.
pub const PUSH: u8 = 0b0000_1000;

/// The bus-width bit of a function-set command.
#[derive(Clone, Copy, Debug, PartialEq, Eq, Structural)]
pub enum BitMode {
    Bit4,
    Bit8,
}

impl BitMode {
    /// The raw bit of this bus width.
    pub open spec fn spec_byte(self) -> u8 {
        match self {
            BitMode::Bit4 => 0b0000_0000,
            BitMode::Bit8 => 0b0001_0000,
        }
    }

    /// The raw bit of this bus width.
    #[verifier::when_used_as_spec(spec_byte)]
    pub fn byte(self) -> (b: u8)
        ensures
            b == self.spec_byte(),
    {
        match self {
            BitMode::Bit4 => 0b0000_0000,
            BitMode::Bit8 => 0b0001_0000,
        }
    }
}

/// The line-count bit of a function-set command.
#[derive(Clone, Copy, Debug, PartialEq, Eq, Structural)]
pub enum Rows {
    OneLine,
    TwoLines,
}

impl Rows {
    /// The raw bit of this line count.
    pub open spec fn spec_byte(self) -> u8 {
        match self {
            Rows::OneLine => 0b0000_0000,
            Rows::TwoLines => 0b0000_1000,
        }
    }

    /// The raw bit of this line count.
    #[verifier::when_used_as_spec(spec_byte)]
    pub fn byte(self) -> (b: u8)
        ensures
            b == self.spec_byte(),
    {
        match self {
            Rows::OneLine => 0b0000_0000,
            Rows::TwoLines => 0b0000_1000,
        }
    }
}

/// The font bit of a function-set command.
#[derive(Clone, Copy, Debug, PartialEq, Eq, Structural)]
pub enum Font {
    FiveByEleven,
    FiveByEight,
}

impl Font {
    /// The raw bit of this font.
    pub open spec fn spec_byte(self) -> u8 {
        match self {
            Font::FiveByEleven => 0b0000_0100,
            Font::FiveByEight => 0b0000_0000,
        }
    }

    /// The raw bit of this font.
    #[verifier::when_used_as_spec(spec_byte)]
    pub fn byte(self) -> (b: u8)
        ensures
            b == self.spec_byte(),
    {
        match self {
            Font::FiveByEleven => 0b0000_0100,
            Font::FiveByEight => 0b0000_0000,
        }
    }
}

/// Splits one command byte into the two 4-bit strobes the port expander
/// sends: the high nibble first, then the low nibble, each with the mode
/// bits in the low half.
pub fn command_nibbles(data: u8, mode: Mode) -> (strobes: (u8, u8))
    ensures
        strobes.0 == (data & 0b1111_0000) | mode.spec_byte(),
        strobes.1 == ((data << 4) & 0b1111_0000) | mode.spec_byte(),
{
    let high_bits: u8 = data & 0b1111_0000;
    let low_bits: u8 = (data << 4) & 0b1111_0000;
    (high_bits | mode.byte(), low_bits | mode.byte())
}

/// The pair of bytes one 4-bit strobe writes to the expander: the nibble
/// with the enable bit raised, then the bus released with only the
/// backlight kept.
pub fn strobe_bytes(nibble: u8, backlight: Backlight) -> (bytes: (u8, u8))
    ensures
        bytes.0 == nibble | DisplayControl::DisplayOn.spec_byte() | backlight.spec_byte(),
        bytes.1 == DisplayControl::Off.spec_byte() | backlight.spec_byte(),
{
    (
        nibble | DisplayControl::DisplayOn.byte() | backlight.byte(),
        DisplayControl::Off.byte() | backlight.byte(),
    )
}

/// The display-control command for the given cursor settings: display on,
/// plus the cursor and blink bits as asked.
pub fn cursor_command(show_cursor: bool, blink_cursor: bool) -> (b: u8)
    ensures
        b == Mode::DisplayControl.spec_byte() | DisplayControl::DisplayOn.spec_byte() | (
        if blink_cursor {
            DisplayControl::CursorBlink.spec_byte()
        } else {
            0u8
        }) | (
        if show_cursor {
            DisplayControl::CursorOn.spec_byte()
        } else {
            0u8
        }),
{
    if blink_cursor {
        if show_cursor {
            assert(0b0000_1111u8 == 0b0000_1000u8 | 0b0000_0100u8 | 0b0000_0001u8
                | 0b0000_0010u8) by (bit_vector);
            0b0000_1111
        } else {
            assert(0b0000_1101u8 == 0b0000_1000u8 | 0b0000_0100u8 | 0b0000_0001u8 | 0u8)
                by (bit_vector);
            0b0000_1101
        }
    } else {
        if show_cursor {
            assert(0b0000_1110u8 == 0b0000_1000u8 | 0b0000_0100u8 | 0u8 | 0b0000_0010u8)
                by (bit_vector);
            0b0000_1110
        } else {
            assert(0b0000_1100u8 == 0b0000_1000u8 | 0b0000_0100u8 | 0u8 | 0u8) by (bit_vector);
            0b0000_1100
        }
    }
}

/// The command that shifts the whole display one step in `direction`.
pub fn scroll_command(direction: Direction) -> (b: u8)
    ensures
        b == Command::ShiftCursor.spec_byte() | PUSH | direction.spec_byte(),
{
    Command::ShiftCursor.byte() | PUSH | direction.byte()
}

/// The function-set command of the bring-up sequence: the bus width alone.
pub fn function_set(bit_mode: BitMode) -> (b: u8)
    ensures
        b == Mode::FunctionSet.spec_byte() | bit_mode.spec_byte(),
{
    Mode::FunctionSet.byte() | bit_mode.byte()
}

/// The full function-set command: bus width left at 4 bits, with the line
/// count and font.
pub fn function_set_full(rows: Rows, font: Font) -> (b: u8)
    ensures
        b == Mode::FunctionSet.spec_byte() | rows.spec_byte() | font.spec_byte(),
{
    Mode::FunctionSet.byte() | rows.byte() | font.byte()
}

/// How many one-step cursor shifts move the cursor from the home position
/// to `row`, `column` on a 40-column panel.
pub fn cursor_shift_count(row: u8, column: u8) -> (n: u8)
    requires
        row as int * 40 + column as int <= 255,
    ensures
        n == row * 40 + column,
{
    row * 40 + column
}

} // verus!
