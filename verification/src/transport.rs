//! The bus transport: what has to happen on the lines to move one byte.
//!
//! Nothing here drives a pin. Each function appends to a list the elementary
//! actions that make up one piece of the protocol, in the order in which they
//! have to be performed. The two bus widths share every piece except the way
//! a byte is put on the data lines and the extra pulse that discards the low
//! half of the status byte when only four lines are wired.

use vstd::prelude::*;
use crate::config::BusMode;
use crate::instruction::Instruction;

verus! {

/// Smallest width of an enable pulse, in microseconds.
pub const ENABLE_TIME_US: u16 = 1;

/// One elementary thing to do on the lines or with the clock.
#[derive(Debug, Clone, Copy, PartialEq, Eq, Structural)]
pub enum Action {
    /// Drive the register-select line to the level.
    RegisterSelect(bool),
    /// Drive the read/write line to the level.
    ReadWrite(bool),
    /// Drive the enable line to the level.
    Enable(bool),
    /// Drive the data line of the module with this number (0 to 7) to the level.
    DataLine(u8, bool),
    /// Make every wired data line an output.
    DataLinesOutput,
    /// Make the line that carries the busy flag (data line 7) an input with pull-up.
    BusyLineInput,
    /// Make the line that carries the busy flag an output again.
    BusyLineOutput,
    /// Switch the status indicator, which is lit while the busy flag is polled.
    Indicator(bool),
    /// Read the busy line and report its level before asking for the next action.
    SampleBusy,
    /// Wait at least this many microseconds.
    DelayUs(u16),
    /// Wait at least this many milliseconds.
    DelayMs(u16),
}

/// One enable pulse: high, held for the minimum width, low.
pub open spec fn pulse() -> Seq<Action> {
    seq![Action::Enable(true), Action::DelayUs(ENABLE_TIME_US), Action::Enable(false)]
}

/// The level of the line that carries the bit of this weight of `value`.
pub open spec fn level(value: u8, weight: int) -> bool {
    (value as int / weight) % 2 == 1
}

/// The low four bits of `nibble` on data lines 7 to 4, most significant first.
pub open spec fn nibble_lines(nibble: u8) -> Seq<Action> {
    seq![
        Action::DataLine(7, level(nibble, 8)),
        Action::DataLine(6, level(nibble, 4)),
        Action::DataLine(5, level(nibble, 2)),
        Action::DataLine(4, level(nibble, 1)),
    ]
}

/// The eight bits of `byte` on data lines 7 to 0, most significant first.
pub open spec fn byte_lines(byte: u8) -> Seq<Action> {
    seq![
        Action::DataLine(7, level(byte, 128)),
        Action::DataLine(6, level(byte, 64)),
        Action::DataLine(5, level(byte, 32)),
        Action::DataLine(4, level(byte, 16)),
        Action::DataLine(3, level(byte, 8)),
        Action::DataLine(2, level(byte, 4)),
        Action::DataLine(1, level(byte, 2)),
        Action::DataLine(0, level(byte, 1)),
    ]
}

/// One nibble latched into the module over four lines.
pub open spec fn one_part(nibble: u8) -> Seq<Action> {
    nibble_lines(nibble) + pulse()
}

/// One byte over four lines: the high nibble, then the low nibble.
pub open spec fn two_part(byte: u8) -> Seq<Action> {
    one_part(byte / 16) + one_part(byte % 16)
}

/// One byte over eight lines, in a single pulse.
pub open spec fn full(byte: u8) -> Seq<Action> {
    seq![Action::DataLinesOutput] + byte_lines(byte) + pulse()
}

/// One byte on the data lines of a bus of the given width.
pub open spec fn data(mode: BusMode, byte: u8) -> Seq<Action> {
    match mode {
        BusMode::FourBit => two_part(byte),
        BusMode::EightBit => full(byte),
    }
}

/// A bare nibble for the top four data lines, as the power-on sequence sends it.
/// On eight lines the low four are driven low.
pub open spec fn strobe(mode: BusMode, nibble: u8) -> Seq<Action> {
    match mode {
        BusMode::FourBit => one_part(nibble),
        BusMode::EightBit => full((nibble % 16 * 16) as u8),
    }
}

/// The two control lines.
pub open spec fn select(register_select: bool, read_write: bool) -> Seq<Action> {
    seq![Action::RegisterSelect(register_select), Action::ReadWrite(read_write)]
}

/// What opens a busy poll: the indicator goes on, the busy line becomes an
/// input, and the status register is addressed for reading.
pub open spec fn poll_enter() -> Seq<Action> {
    seq![
        Action::Indicator(true),
        Action::BusyLineInput,
        Action::RegisterSelect(false),
        Action::ReadWrite(true),
    ]
}

/// One look at the busy flag: the line is sampled while enable is high. On four
/// lines a second pulse follows, which discards the low half of the status byte.
pub open spec fn poll_round(mode: BusMode) -> Seq<Action> {
    let sample = seq![
        Action::Enable(true),
        Action::DelayUs(ENABLE_TIME_US),
        Action::SampleBusy,
        Action::Enable(false),
    ];
    match mode {
        BusMode::FourBit => sample + pulse(),
        BusMode::EightBit => sample,
    }
}

/// What closes a busy poll: the indicator goes off and the busy line is an
/// output again.
pub open spec fn poll_leave() -> Seq<Action> {
    seq![Action::Indicator(false), Action::BusyLineOutput]
}

/// The transfer proper, once the module is known to be idle: the control lines
/// take the instruction's levels, then the byte goes out.
pub open spec fn transfer(mode: BusMode, instruction: Instruction) -> Seq<Action> {
    select(instruction.register_select, instruction.read_write) + data(mode, instruction.byte)
}

/// Appends one enable pulse.
pub fn trigger_enable(ops: &mut Vec<Action>)
    ensures
        final(ops)@ == old(ops)@ + pulse(),
{
    ops.push(Action::Enable(true));
    ops.push(Action::DelayUs(ENABLE_TIME_US));
    ops.push(Action::Enable(false));
    assert(ops@ =~= old(ops)@ + pulse());
}

/// A mask with one bit set picks the bit of that weight.
proof fn lemma_mask(value: u8)
    ensures
        (value & 0b1000_0000 != 0) == level(value, 128),
        (value & 0b0100_0000 != 0) == level(value, 64),
        (value & 0b0010_0000 != 0) == level(value, 32),
        (value & 0b0001_0000 != 0) == level(value, 16),
        (value & 0b0000_1000 != 0) == level(value, 8),
        (value & 0b0000_0100 != 0) == level(value, 4),
        (value & 0b0000_0010 != 0) == level(value, 2),
        (value & 0b0000_0001 != 0) == level(value, 1),
{
    assert((value & 0b1000_0000 != 0) == ((value / 128) % 2 == 1)) by (bit_vector);
    assert((value & 0b0100_0000 != 0) == ((value / 64) % 2 == 1)) by (bit_vector);
    assert((value & 0b0010_0000 != 0) == ((value / 32) % 2 == 1)) by (bit_vector);
    assert((value & 0b0001_0000 != 0) == ((value / 16) % 2 == 1)) by (bit_vector);
    assert((value & 0b0000_1000 != 0) == ((value / 8) % 2 == 1)) by (bit_vector);
    assert((value & 0b0000_0100 != 0) == ((value / 4) % 2 == 1)) by (bit_vector);
    assert((value & 0b0000_0010 != 0) == ((value / 2) % 2 == 1)) by (bit_vector);
    assert((value & 0b0000_0001 != 0) == ((value / 1) % 2 == 1)) by (bit_vector);
}

/// The halves of a byte as masks and shifts give them.
pub proof fn lemma_halves(byte: u8)
    ensures
        (byte & 0b1111_0000) >> 4 == byte / 16,
        byte & 0b0000_1111 == byte % 16,
        (byte & 0b0000_1111) << 4 == byte % 16 * 16,
        16 * (byte / 16) + byte % 16 == byte,
{
    assert((byte & 0b1111_0000) >> 4 == byte / 16) by (bit_vector);
    assert(byte & 0b0000_1111 == byte % 16) by (bit_vector);
    assert((byte & 0b0000_1111) << 4 == byte % 16 * 16) by (bit_vector);
}

/// Appends the transfer of the low four bits of `nibble` over four lines.
pub fn send_one_part_data(ops: &mut Vec<Action>, nibble: u8)
    ensures
        final(ops)@ == old(ops)@ + one_part(nibble),
{
    proof {
        lemma_mask(nibble);
    }
    ops.push(Action::DataLine(7, nibble & 0b1000 != 0));
    ops.push(Action::DataLine(6, nibble & 0b0100 != 0));
    ops.push(Action::DataLine(5, nibble & 0b0010 != 0));
    ops.push(Action::DataLine(4, nibble & 0b0001 != 0));
    assert(ops@ =~= old(ops)@ + nibble_lines(nibble));
    trigger_enable(ops);
    assert(ops@ =~= old(ops)@ + one_part(nibble));
}

/// Appends the transfer of `byte` over four lines: the high nibble,
/// `(byte & 0xF0) >> 4`, then the low nibble, `byte & 0x0F`.
pub fn send_two_part_data(ops: &mut Vec<Action>, byte: u8)
    ensures
        final(ops)@ == old(ops)@ + two_part(byte),
        final(ops)@ == old(ops)@ + one_part((byte & 0b1111_0000) >> 4) + one_part(
            byte & 0b0000_1111,
        ),
{
    proof {
        lemma_halves(byte);
    }
    send_one_part_data(ops, (byte & 0b1111_0000) >> 4);
    send_one_part_data(ops, byte & 0b0000_1111);
    assert(ops@ =~= old(ops)@ + two_part(byte));
}

/// Appends the transfer of `byte` over eight lines.
pub fn send_full_data(ops: &mut Vec<Action>, byte: u8)
    ensures
        final(ops)@ == old(ops)@ + full(byte),
{
    proof {
        lemma_mask(byte);
    }
    ops.push(Action::DataLinesOutput);
    ops.push(Action::DataLine(7, byte & 0b1000_0000 != 0));
    ops.push(Action::DataLine(6, byte & 0b0100_0000 != 0));
    ops.push(Action::DataLine(5, byte & 0b0010_0000 != 0));
    ops.push(Action::DataLine(4, byte & 0b0001_0000 != 0));
    ops.push(Action::DataLine(3, byte & 0b0000_1000 != 0));
    ops.push(Action::DataLine(2, byte & 0b0000_0100 != 0));
    ops.push(Action::DataLine(1, byte & 0b0000_0010 != 0));
    ops.push(Action::DataLine(0, byte & 0b0000_0001 != 0));
    assert(ops@ =~= old(ops)@ + seq![Action::DataLinesOutput] + byte_lines(byte));
    trigger_enable(ops);
    assert(ops@ =~= old(ops)@ + full(byte));
}

/// Appends the transfer of `byte` in the way the bus width asks for.
pub fn send_data(ops: &mut Vec<Action>, mode: BusMode, byte: u8)
    ensures
        final(ops)@ == old(ops)@ + data(mode, byte),
{
    match mode {
        BusMode::FourBit => send_two_part_data(ops, byte),
        BusMode::EightBit => send_full_data(ops, byte),
    }
}

/// Appends a bare nibble of the power-on sequence.
pub fn send_strobe(ops: &mut Vec<Action>, mode: BusMode, nibble: u8)
    ensures
        final(ops)@ == old(ops)@ + strobe(mode, nibble),
{
    proof {
        lemma_halves(nibble);
    }
    match mode {
        BusMode::FourBit => send_one_part_data(ops, nibble),
        BusMode::EightBit => send_full_data(ops, (nibble & 0b0000_1111) << 4),
    }
}

/// Appends the setting of the two control lines.
pub fn select_register(ops: &mut Vec<Action>, register_select: bool, read_write: bool)
    ensures
        final(ops)@ == old(ops)@ + select(register_select, read_write),
{
    ops.push(Action::RegisterSelect(register_select));
    ops.push(Action::ReadWrite(read_write));
    assert(ops@ =~= old(ops)@ + select(register_select, read_write));
}

/// Appends the opening of a busy poll.
pub fn begin_busy_poll(ops: &mut Vec<Action>)
    ensures
        final(ops)@ == old(ops)@ + poll_enter(),
{
    ops.push(Action::Indicator(true));
    ops.push(Action::BusyLineInput);
    ops.push(Action::RegisterSelect(false));
    ops.push(Action::ReadWrite(true));
    assert(ops@ =~= old(ops)@ + poll_enter());
}

/// Appends one look at the busy flag.
pub fn sample_busy(ops: &mut Vec<Action>, mode: BusMode)
    ensures
        final(ops)@ == old(ops)@ + poll_round(mode),
{
    ops.push(Action::Enable(true));
    ops.push(Action::DelayUs(ENABLE_TIME_US));
    ops.push(Action::SampleBusy);
    ops.push(Action::Enable(false));
    match mode {
        BusMode::FourBit => {
            trigger_enable(ops);
        },
        BusMode::EightBit => {},
    }
    assert(ops@ =~= old(ops)@ + poll_round(mode));
}

/// Appends the closing of a busy poll.
pub fn end_busy_poll(ops: &mut Vec<Action>)
    ensures
        final(ops)@ == old(ops)@ + poll_leave(),
{
    ops.push(Action::Indicator(false));
    ops.push(Action::BusyLineOutput);
    assert(ops@ =~= old(ops)@ + poll_leave());
}

/// Appends the transfer of an instruction to a module that is known to be idle.
pub fn send_instruction(ops: &mut Vec<Action>, mode: BusMode, instruction: Instruction)
    ensures
        final(ops)@ == old(ops)@ + transfer(mode, instruction),
{
    select_register(ops, instruction.register_select, instruction.read_write);
    send_data(ops, mode, instruction.byte);
    assert(ops@ =~= old(ops)@ + transfer(mode, instruction));
}

/// The weight of a data line that is driven high.
pub open spec fn weigh(action: Action, line: u8, weight: int) -> int {
    if action == Action::DataLine(line, true) {
        weight
    } else {
        0
    }
}

/// The nibble that a module reads from the settings of data lines 7 to 4.
pub open spec fn nibble_read(lines: Seq<Action>) -> int {
    weigh(lines[0], 7, 8) + weigh(lines[1], 6, 4) + weigh(lines[2], 5, 2) + weigh(lines[3], 4, 1)
}

/// The byte that a module reads from the settings of data lines 7 to 0.
pub open spec fn byte_read(lines: Seq<Action>) -> int {
    weigh(lines[0], 7, 128) + weigh(lines[1], 6, 64) + weigh(lines[2], 5, 32) + weigh(
        lines[3],
        4,
        16,
    ) + weigh(lines[4], 3, 8) + weigh(lines[5], 2, 4) + weigh(lines[6], 1, 2) + weigh(
        lines[7],
        0,
        1,
    )
}

/// Four lines carry the low four bits of what is put on them.
pub proof fn lemma_nibble_reads(nibble: u8)
    ensures
        nibble_read(nibble_lines(nibble)) == nibble % 16,
{
}

/// Eight lines carry the byte as it is.
pub proof fn lemma_byte_reads(byte: u8)
    ensures
        byte_read(byte_lines(byte)) == byte,
{
    let b7: u8 = if level(byte, 128) { 128 } else { 0 };
    let b6: u8 = if level(byte, 64) { 64 } else { 0 };
    let b5: u8 = if level(byte, 32) { 32 } else { 0 };
    let b4: u8 = if level(byte, 16) { 16 } else { 0 };
    let b3: u8 = if level(byte, 8) { 8 } else { 0 };
    let b2: u8 = if level(byte, 4) { 4 } else { 0 };
    let b1: u8 = if level(byte, 2) { 2 } else { 0 };
    let b0: u8 = if level(byte, 1) { 1 } else { 0 };
    assert(byte_read(byte_lines(byte)) == b7 + b6 + b5 + b4 + b3 + b2 + b1 + b0);
    lemma_mask(byte);
    assert(b7 + b6 + b5 + b4 + b3 + b2 + b1 + b0 == byte) by (bit_vector)
        requires
            b7 == if byte & 0b1000_0000 != 0 { 128u8 } else { 0u8 },
            b6 == if byte & 0b0100_0000 != 0 { 64u8 } else { 0u8 },
            b5 == if byte & 0b0010_0000 != 0 { 32u8 } else { 0u8 },
            b4 == if byte & 0b0001_0000 != 0 { 16u8 } else { 0u8 },
            b3 == if byte & 0b0000_1000 != 0 { 8u8 } else { 0u8 },
            b2 == if byte & 0b0000_0100 != 0 { 4u8 } else { 0u8 },
            b1 == if byte & 0b0000_0010 != 0 { 2u8 } else { 0u8 },
            b0 == if byte & 0b0000_0001 != 0 { 1u8 } else { 0u8 },
    ;
}

/// Over four lines the module reads the high nibble of the byte at the first
/// pulse, `(byte & 0xF0) >> 4`, and the low nibble at the second,
/// `byte & 0x0F`, and the two make up the byte.
pub proof fn lemma_two_part_reads(byte: u8)
    ensures
        two_part(byte) == nibble_lines((byte & 0b1111_0000) >> 4) + pulse() + nibble_lines(
            byte & 0b0000_1111,
        ) + pulse(),
        nibble_read(nibble_lines((byte & 0b1111_0000) >> 4)) == (byte & 0b1111_0000) >> 4,
        nibble_read(nibble_lines(byte & 0b0000_1111)) == byte & 0b0000_1111,
        16 * ((byte & 0b1111_0000) >> 4) + (byte & 0b0000_1111) == byte,
{
    let high = (byte & 0b1111_0000) >> 4;
    let low = byte & 0b0000_1111;
    lemma_halves(byte);
    lemma_nibble_reads(high);
    lemma_nibble_reads(low);
    assert(two_part(byte) =~= nibble_lines(high) + pulse() + nibble_lines(low) + pulse());
}

} // verus!
