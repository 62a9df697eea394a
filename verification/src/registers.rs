//! The attributes that the module keeps, and what a program does to them.
//!
//! The driver caches nothing: what the display shows follows from the
//! instructions the module has received. This file models that side, so that
//! laws about programs can speak of the state they leave behind.

use vstd::prelude::*;
use crate::config::{
    Blinking, BusMode, Cursor, Direction, DisplayLines, DisplayOrCursor, DisplayShift,
    DisplayState,
};
use crate::instruction::{
    clear_display_opcode, display_control_opcode, entry_mode_opcode, function_set_opcode,
    return_home_opcode, shift_opcode,
};
use crate::machine::State;
use crate::program::{command, manual_init, power_on, setup, Step};

verus! {

/// The attributes held by the module.
pub struct Registers {
    pub lines: DisplayLines,
    pub display: DisplayState,
    pub cursor: Cursor,
    pub blinking: Blinking,
    pub direction: Direction,
    pub shift: DisplayShift,
}


/// The attributes after the module has executed the instruction with this
/// opcode. The highest bit that is set names the instruction, the bits below
/// are its arguments. Clearing the display also resets the direction.
pub open spec fn execute(regs: Registers, opcode: u8) -> Registers {
    if opcode >= 0b0100_0000 {
        regs
    } else if opcode >= 0b0010_0000 {
        Registers {
            lines: if (opcode / 8) % 2 == 1 {
                DisplayLines::Two
            } else {
                DisplayLines::Single
            },
            ..regs
        }
    } else if opcode >= 0b0001_0000 {
        regs
    } else if opcode >= 0b0000_1000 {
        Registers {
            display: if (opcode / 4) % 2 == 1 {
                DisplayState::On
            } else {
                DisplayState::Off
            },
            cursor: if (opcode / 2) % 2 == 1 {
                Cursor::On
            } else {
                Cursor::Off
            },
            blinking: if opcode % 2 == 1 {
                Blinking::On
            } else {
                Blinking::Off
            },
            ..regs
        }
    } else if opcode >= 0b0000_0100 {
        Registers {
            direction: if (opcode / 2) % 2 == 1 {
                Direction::Right
            } else {
                Direction::Left
            },
            shift: if opcode % 2 == 1 {
                DisplayShift::On
            } else {
                DisplayShift::Off
            },
            ..regs
        }
    } else if opcode == 0b0000_0001 {
        Registers { direction: Direction::Right, ..regs }
    } else {
        regs
    }
}

/// The attributes after one step. Only a write to the instruction register
/// changes them.
pub open spec fn apply(regs: Registers, step: Step) -> Registers {
    match step {
        Step::Send(instruction) => if !instruction.register_select && !instruction.read_write {
            execute(regs, instruction.byte)
        } else {
            regs
        },
        _ => regs,
    }
}

/// The attributes after a program.
pub open spec fn after(regs: Registers, steps: Seq<Step>) -> Registers
    decreases steps.len(),
{
    if steps.len() == 0 {
        regs
    } else {
        apply(after(regs, steps.drop_last()), steps.last())
    }
}

/// The attributes every driver sets up.
pub open spec fn initial() -> Registers {
    Registers {
        lines: DisplayLines::Single,
        display: DisplayState::On,
        cursor: Cursor::Off,
        blinking: Blinking::Off,
        direction: Direction::Right,
        shift: DisplayShift::Off,
    }
}

/// One more step at the end of a program.
pub proof fn lemma_after_push(regs: Registers, steps: Seq<Step>, step: Step)
    ensures
        after(regs, steps.push(step)) == apply(after(regs, steps), step),
{
    assert(steps.push(step).drop_last() =~= steps);
}

/// Each configuring instruction sets exactly the attributes it names.
pub proof fn lemma_execute(
    regs: Registers,
    mode: BusMode,
    lines: DisplayLines,
    display: DisplayState,
    cursor: Cursor,
    blinking: Blinking,
    object: DisplayOrCursor,
    direction: Direction,
    shift: DisplayShift,
)
    ensures
        execute(regs, function_set_opcode(mode, lines)) == (Registers {
            lines,
            ..regs
        }),
        execute(regs, display_control_opcode(display, cursor, blinking))
            == (Registers { display, cursor, blinking, ..regs }),
        execute(regs, entry_mode_opcode(direction, shift)) == (Registers {
            direction,
            shift,
            ..regs
        }),
        execute(regs, shift_opcode(object, direction)) == regs,
        execute(regs, return_home_opcode()) == regs,
        execute(regs, clear_display_opcode()) == (Registers { direction: Direction::Right, ..regs }),
{
}

/// Whatever state the module wakes up in, the power-on program leaves it with
/// the attributes every driver sets up.
pub proof fn lemma_power_on_registers(mode: BusMode, regs: Registers)
    ensures
        after(regs, power_on(mode)) == initial(),
{
    let s = setup(mode);
    lemma_after_push(regs, manual_init(mode), s[0]);
    lemma_after_push(regs, manual_init(mode).push(s[0]), s[1]);
    lemma_after_push(regs, manual_init(mode).push(s[0]).push(s[1]), s[2]);
    assert(power_on(mode) =~= manual_init(mode).push(s[0]).push(s[1]).push(s[2]));
}

/// Clearing the display and returning home right after the power-on program
/// leaves the entry mode at writing to the right without scrolling, and the
/// display, the cursor and the blinking as the power-on program set them, on
/// either bus width.
pub proof fn lemma_clear_home_after_power_on(mode: BusMode, regs: Registers)
    ensures
        ({
            let program = power_on(mode).push(command(clear_display_opcode())).push(
                command(return_home_opcode()),
            );
            let up = after(regs, power_on(mode));
            let then = after(regs, program);
            &&& State::blank(mode).initialized().queued(
                seq![command(clear_display_opcode())],
            ).queued(seq![command(return_home_opcode())]).pending == program
            &&& then.direction == Direction::Right
            &&& then.shift == DisplayShift::Off
            &&& then.display == up.display
            &&& then.cursor == up.cursor
            &&& then.blinking == up.blinking
        }),
{
    let clear = command(clear_display_opcode());
    let home = command(return_home_opcode());
    lemma_power_on_registers(mode, regs);
    lemma_after_push(regs, power_on(mode), clear);
    lemma_after_push(regs, power_on(mode).push(clear), home);
    assert(State::blank(mode).initialized().queued(seq![clear]).queued(seq![home]).pending
        =~= power_on(mode).push(clear).push(home));
}

} // verus!
