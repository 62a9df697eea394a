//! The instruction encoder: one function for each command of the module.
//!
//! An instruction is the byte that travels over the data lines together with
//! the levels of the register-select and read/write lines that accompany it.
//! Commands go to the instruction register (both lines low), characters to
//! the data register (register-select high).

use vstd::prelude::*;
use crate::config::{
    Blinking, BusMode, Cursor, Direction, DisplayLines, DisplayOrCursor, DisplayShift,
    DisplayState,
};

verus! {

/// One byte for the module and the control-line levels it is sent with.
#[derive(Debug, Clone, Copy, PartialEq, Eq, Structural)]
pub struct Instruction {
    pub byte: u8,
    pub register_select: bool,
    pub read_write: bool,
}

/// Opcode of "clear display".
pub open spec fn clear_display_opcode() -> u8 {
    0b0000_0001
}

/// Opcode of "return home".
pub open spec fn return_home_opcode() -> u8 {
    0b0000_0010
}

/// Opcode of "entry mode set", `0b0000_01DS`: the base and the weights of the
/// direction and the shift bit.
pub open spec fn entry_mode_opcode(direction: Direction, shift: DisplayShift) -> u8 {
    (4 + 2 * direction.code() + shift.code()) as u8
}

/// Opcode of "display on/off control", `0b0000_1DCB`.
pub open spec fn display_control_opcode(
    display: DisplayState,
    cursor: Cursor,
    blinking: Blinking,
) -> u8 {
    (8 + 4 * display.code() + 2 * cursor.code() + blinking.code()) as u8
}

/// Opcode of "cursor or display shift", `0b0001_OD00`.
pub open spec fn shift_opcode(object: DisplayOrCursor, direction: Direction) -> u8 {
    (16 + 8 * object.code() + 4 * direction.code()) as u8
}

/// The part of "function set" that names the bus width.
pub open spec fn function_set_base(mode: BusMode) -> u8 {
    match mode {
        BusMode::FourBit => 0b0010_0000,
        BusMode::EightBit => 0b0011_0000,
    }
}

/// Opcode of "function set": the base of the bus width with the line count in bit 3.
pub open spec fn function_set_opcode(mode: BusMode, lines: DisplayLines) -> u8 {
    (function_set_base(mode) + 8 * lines.code()) as u8
}

/// Opcode that switches the display off, cursor and blinking with it.
pub open spec fn display_off_opcode() -> u8 {
    0b0000_1000
}

/// The opcodes as the bit patterns they are assembled from: every attribute is
/// shifted to its place and joined to the base of its instruction.
pub proof fn lemma_opcode_bits(
    mode: BusMode,
    lines: DisplayLines,
    display: DisplayState,
    cursor: Cursor,
    blinking: Blinking,
    object: DisplayOrCursor,
    direction: Direction,
    shift: DisplayShift,
)
    ensures
        entry_mode_opcode(direction, shift) == 0b0000_0100u8 | direction.code() << 1
            | shift.code(),
        display_control_opcode(display, cursor, blinking) == 0b0000_1000u8 | display.code() << 2
            | cursor.code() << 1 | blinking.code(),
        shift_opcode(object, direction) == 0b0001_0000u8 | object.code() << 3 | direction.code()
            << 2,
        function_set_opcode(BusMode::FourBit, lines) == 0b0010_0000u8 | lines.code() << 3,
        function_set_opcode(BusMode::EightBit, lines) == 0b0011_0000u8 | lines.code() << 3,
        function_set_opcode(mode, lines) == function_set_base(mode) | lines.code() << 3,
        display_off_opcode() == display_control_opcode(
            DisplayState::Off,
            Cursor::Off,
            Blinking::Off,
        ),
{
    assert(forall|d: u8, s: u8|
        d <= 1 && s <= 1 ==> #[trigger] (0b0000_0100u8 | d << 1 | s) == 4 + 2 * d + s)
        by (bit_vector);
    assert(forall|d: u8, c: u8, b: u8|
        d <= 1 && c <= 1 && b <= 1 ==> #[trigger] (0b0000_1000u8 | d << 2 | c << 1 | b) == 8 + 4
            * d + 2 * c + b) by (bit_vector);
    assert(forall|o: u8, d: u8|
        o <= 1 && d <= 1 ==> #[trigger] (0b0001_0000u8 | o << 3 | d << 2) == 16 + 8 * o + 4 * d)
        by (bit_vector);
    assert(forall|l: u8| l <= 1 ==> #[trigger] (0b0010_0000u8 | l << 3) == 32 + 8 * l)
        by (bit_vector);
    assert(forall|l: u8| l <= 1 ==> #[trigger] (0b0011_0000u8 | l << 3) == 48 + 8 * l)
        by (bit_vector);
}

impl Instruction {
    /// A write to the instruction register.
    pub open spec fn command_of(byte: u8) -> Instruction {
        Instruction { byte, register_select: false, read_write: false }
    }

    /// A write to the data register.
    pub open spec fn character_of(byte: u8) -> Instruction {
        Instruction { byte, register_select: true, read_write: false }
    }

    pub fn command(byte: u8) -> (i: Instruction)
        ensures
            i == Instruction::command_of(byte),
    {
        Instruction { byte, register_select: false, read_write: false }
    }

    /// The character code travels unmodified.
    pub fn character(byte: u8) -> (i: Instruction)
        ensures
            i == Instruction::character_of(byte),
    {
        Instruction { byte, register_select: true, read_write: false }
    }

    pub fn clear_display() -> (i: Instruction)
        ensures
            i == Instruction::command_of(clear_display_opcode()),
    {
        Instruction::command(0b0000_0001)
    }

    pub fn return_home() -> (i: Instruction)
        ensures
            i == Instruction::command_of(return_home_opcode()),
    {
        Instruction::command(0b0000_0010)
    }

    pub fn entry_mode(direction: Direction, shift: DisplayShift) -> (i: Instruction)
        ensures
            i == Instruction::command_of(entry_mode_opcode(direction, shift)),
            i.byte == 0b0000_0100u8 | direction.code() << 1 | shift.code(),
    {
        proof {
            lemma_opcode_bits(
                BusMode::FourBit,
                DisplayLines::Single,
                DisplayState::Off,
                Cursor::Off,
                Blinking::Off,
                DisplayOrCursor::Cursor,
                direction,
                shift,
            );
        }
        Instruction::command(0b0000_0100u8 | direction.bit() << 1 | shift.bit())
    }

    pub fn display_control(display: DisplayState, cursor: Cursor, blinking: Blinking) -> (i:
        Instruction)
        ensures
            i == Instruction::command_of(display_control_opcode(display, cursor, blinking)),
            i.byte == 0b0000_1000u8 | display.code() << 2 | cursor.code() << 1 | blinking.code(),
    {
        proof {
            lemma_opcode_bits(
                BusMode::FourBit,
                DisplayLines::Single,
                display,
                cursor,
                blinking,
                DisplayOrCursor::Cursor,
                Direction::Left,
                DisplayShift::Off,
            );
        }
        Instruction::command(0b0000_1000u8 | display.bit() << 2 | cursor.bit() << 1 | blinking.bit())
    }

    pub fn shift(object: DisplayOrCursor, direction: Direction) -> (i: Instruction)
        ensures
            i == Instruction::command_of(shift_opcode(object, direction)),
            i.byte == 0b0001_0000u8 | object.code() << 3 | direction.code() << 2,
    {
        proof {
            lemma_opcode_bits(
                BusMode::FourBit,
                DisplayLines::Single,
                DisplayState::Off,
                Cursor::Off,
                Blinking::Off,
                object,
                direction,
                DisplayShift::Off,
            );
        }
        Instruction::command(0b0001_0000u8 | object.bit() << 3 | direction.bit() << 2)
    }

    pub fn function_set(mode: BusMode, lines: DisplayLines) -> (i: Instruction)
        ensures
            i == Instruction::command_of(function_set_opcode(mode, lines)),
            i.byte == function_set_base(mode) | lines.code() << 3,
    {
        proof {
            lemma_opcode_bits(
                mode,
                lines,
                DisplayState::Off,
                Cursor::Off,
                Blinking::Off,
                DisplayOrCursor::Cursor,
                Direction::Left,
                DisplayShift::Off,
            );
        }
        let base: u8 = match mode {
            BusMode::FourBit => 0b0010_0000,
            BusMode::EightBit => 0b0011_0000,
        };
        Instruction::command(base | lines.bit() << 3)
    }

    pub fn display_off() -> (i: Instruction)
        ensures
            i == Instruction::command_of(display_off_opcode()),
    {
        Instruction::command(0b0000_1000)
    }
}

} // verus!
