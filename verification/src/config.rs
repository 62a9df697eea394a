//! The display attributes and the width of the data bus.
//!
//! Every attribute has two values and occupies one bit of the instruction that
//! sets it. `code` is that bit as a number, `bit` computes it.

use vstd::prelude::*;

verus! {

/// How many data lines connect the controller to the module.
#[derive(Debug, Clone, Copy, PartialEq, Eq, Structural)]
pub enum BusMode {
    EightBit,
    FourBit,
}

/// Number of display lines the module drives.
#[derive(Debug, Clone, Copy, PartialEq, Eq, Structural)]
pub enum DisplayLines {
    Single,
    Two,
}

impl DisplayLines {
    pub open spec fn code(self) -> u8 {
        match self {
            DisplayLines::Single => 0,
            DisplayLines::Two => 1,
        }
    }

    pub fn bit(self) -> (b: u8)
        ensures
            b == self.code(),
    {
        match self {
            DisplayLines::Single => 0,
            DisplayLines::Two => 1,
        }
    }
}

/// Whether the display shows its contents.
#[derive(Debug, Clone, Copy, PartialEq, Eq, Structural)]
pub enum DisplayState {
    Off,
    On,
}

impl DisplayState {
    pub open spec fn code(self) -> u8 {
        match self {
            DisplayState::Off => 0,
            DisplayState::On => 1,
        }
    }

    pub fn bit(self) -> (b: u8)
        ensures
            b == self.code(),
    {
        match self {
            DisplayState::Off => 0,
            DisplayState::On => 1,
        }
    }
}

/// Whether the cursor is drawn.
#[derive(Debug, Clone, Copy, PartialEq, Eq, Structural)]
pub enum Cursor {
    Off,
    On,
}

impl Cursor {
    pub open spec fn code(self) -> u8 {
        match self {
            Cursor::Off => 0,
            Cursor::On => 1,
        }
    }

    pub fn bit(self) -> (b: u8)
        ensures
            b == self.code(),
    {
        match self {
            Cursor::Off => 0,
            Cursor::On => 1,
        }
    }
}

/// Whether the character at the cursor blinks.
#[derive(Debug, Clone, Copy, PartialEq, Eq, Structural)]
pub enum Blinking {
    Off,
    On,
}

impl Blinking {
    pub open spec fn code(self) -> u8 {
        match self {
            Blinking::Off => 0,
            Blinking::On => 1,
        }
    }

    pub fn bit(self) -> (b: u8)
        ensures
            b == self.code(),
    {
        match self {
            Blinking::Off => 0,
            Blinking::On => 1,
        }
    }
}

/// Direction in which the cursor or the display moves.
#[derive(Debug, Clone, Copy, PartialEq, Eq, Structural)]
pub enum Direction {
    Left,
    Right,
}

impl Direction {
    pub open spec fn code(self) -> u8 {
        match self {
            Direction::Left => 0,
            Direction::Right => 1,
        }
    }

    pub fn bit(self) -> (b: u8)
        ensures
            b == self.code(),
    {
        match self {
            Direction::Left => 0,
            Direction::Right => 1,
        }
    }
}

/// Whether the whole display shifts when a character is written.
#[derive(Debug, Clone, Copy, PartialEq, Eq, Structural)]
pub enum DisplayShift {
    Off,
    On,
}

impl DisplayShift {
    pub open spec fn code(self) -> u8 {
        match self {
            DisplayShift::Off => 0,
            DisplayShift::On => 1,
        }
    }

    pub fn bit(self) -> (b: u8)
        ensures
            b == self.code(),
    {
        match self {
            DisplayShift::Off => 0,
            DisplayShift::On => 1,
        }
    }
}

/// What a shift instruction moves.
#[derive(Debug, Clone, Copy, PartialEq, Eq, Structural)]
pub enum DisplayOrCursor {
    Cursor,
    Display,
}

impl DisplayOrCursor {
    pub open spec fn code(self) -> u8 {
        match self {
            DisplayOrCursor::Cursor => 0,
            DisplayOrCursor::Display => 1,
        }
    }

    pub fn bit(self) -> (b: u8)
        ensures
            b == self.code(),
    {
        match self {
            DisplayOrCursor::Cursor => 0,
            DisplayOrCursor::Display => 1,
        }
    }
}

} // verus!
