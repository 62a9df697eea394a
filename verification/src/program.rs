//! Programs: the steps that make up an operation of the display controller.
//!
//! A step is a delay, a setting of the control lines, a bare nibble of the
//! power-on sequence, or the transmission of an instruction, which always
//! waits for the busy flag to clear first. A program is fixed by its
//! arguments alone; how long each busy wait lasts is decided only when the
//! program is played.

use vstd::prelude::*;
use crate::config::{Blinking, BusMode, Cursor, Direction, DisplayLines, DisplayShift, DisplayState};
use crate::instruction::{
    clear_display_opcode, display_control_opcode, entry_mode_opcode, function_set_opcode,
    return_home_opcode, Instruction,
};

verus! {

/// Characters that fit on one physical line; writing beyond it scrolls.
pub const LINE_WIDTH: usize = 16;

/// Wait after power is applied, in milliseconds.
pub const POWER_ON_DELAY_MS: u16 = 50;

/// Wait after the first reset nibble, in milliseconds.
pub const FIRST_RESET_DELAY_MS: u16 = 5;

/// Wait after the second reset nibble, in microseconds.
pub const SECOND_RESET_DELAY_US: u16 = 150;

/// The nibble that asks for eight-line operation.
pub const RESET_NIBBLE: u8 = 0b0011;

/// The nibble that switches to four-line operation.
pub const FOUR_BIT_NIBBLE: u8 = 0b0010;

/// One step of a program.
#[derive(Debug, Clone, Copy, PartialEq, Eq, Structural)]
pub enum Step {
    /// Set the register-select and the read/write line.
    Select(bool, bool),
    /// Wait this many milliseconds.
    DelayMs(u16),
    /// Wait this many microseconds.
    DelayUs(u16),
    /// Latch a bare nibble without asking whether the module is busy.
    Strobe(u8),
    /// Wait until the module is idle, then transmit the instruction.
    Send(Instruction),
}

/// Pause before each character that scrolls in, in milliseconds.
pub open spec fn scroll_delay_ms(mode: BusMode) -> u16 {
    match mode {
        BusMode::FourBit => 500,
        BusMode::EightBit => 700,
    }
}

pub fn scroll_delay(mode: BusMode) -> (ms: u16)
    ensures
        ms == scroll_delay_ms(mode),
{
    match mode {
        BusMode::FourBit => 500,
        BusMode::EightBit => 700,
    }
}

/// The step that transmits a command.
pub open spec fn command(opcode: u8) -> Step {
    Step::Send(Instruction::command_of(opcode))
}

/// The step that writes a character.
pub open spec fn glyph(code: u8) -> Step {
    Step::Send(Instruction::character_of(code))
}

/// The step that makes the display scroll with every character written.
pub open spec fn shift_on() -> Step {
    command(entry_mode_opcode(Direction::Right, DisplayShift::On))
}

/// The step that stops the scrolling.
pub open spec fn shift_off() -> Step {
    command(entry_mode_opcode(Direction::Right, DisplayShift::Off))
}

/// The reset by hand that forces the module into a known bus width whatever
/// state it woke up in: three times the nibble for eight lines, with shrinking
/// pauses, and on a four-line bus the nibble that switches to four lines.
pub open spec fn manual_init(mode: BusMode) -> Seq<Step> {
    let reset = seq![
        Step::Select(false, false),
        Step::DelayMs(POWER_ON_DELAY_MS),
        Step::Strobe(RESET_NIBBLE),
        Step::DelayMs(FIRST_RESET_DELAY_MS),
        Step::Strobe(RESET_NIBBLE),
        Step::DelayUs(SECOND_RESET_DELAY_US),
        Step::Strobe(RESET_NIBBLE),
    ];
    match mode {
        BusMode::FourBit => reset.push(Step::Strobe(FOUR_BIT_NIBBLE)),
        BusMode::EightBit => reset,
    }
}

/// The configuration every driver starts from: one line, display on, no
/// cursor, no blinking, writing to the right without scrolling.
pub open spec fn setup(mode: BusMode) -> Seq<Step> {
    seq![
        command(function_set_opcode(mode, DisplayLines::Single)),
        command(display_control_opcode(DisplayState::On, Cursor::Off, Blinking::Off)),
        command(entry_mode_opcode(Direction::Right, DisplayShift::Off)),
    ]
}

/// The whole power-on program.
pub open spec fn power_on(mode: BusMode) -> Seq<Step> {
    manual_init(mode) + setup(mode)
}

/// The characters of `text`, one step each.
pub open spec fn glyphs(text: Seq<u8>) -> Seq<Step> {
    Seq::new(text.len(), |i: int| glyph(text[i]))
}

/// The characters of `text`, each after a scroll pause.
pub open spec fn paced(mode: BusMode, text: Seq<u8>) -> Seq<Step> {
    Seq::new(
        2 * text.len(),
        |i: int|
            if i % 2 == 0 {
                Step::DelayMs(scroll_delay_ms(mode))
            } else {
                glyph(text[i / 2])
            },
    )
}

/// What writing the first `n` characters of `text` takes, after the display
/// was cleared: the first line is written at once; the character that no
/// longer fits switches scrolling on, and from there on every character waits
/// for the scroll pause.
pub open spec fn written(mode: BusMode, text: Seq<u8>, n: int) -> Seq<Step> {
    if n <= LINE_WIDTH {
        glyphs(text.take(n))
    } else {
        glyphs(text.take(LINE_WIDTH as int)).push(shift_on()) + paced(
            mode,
            text.subrange(LINE_WIDTH as int, n),
        )
    }
}

/// The program that shows `text` from the home position.
pub open spec fn text(mode: BusMode, text: Seq<u8>) -> Seq<Step> {
    seq![command(clear_display_opcode()), command(return_home_opcode())] + written(
        mode,
        text,
        text.len() as int,
    ).push(shift_off())
}

/// Appends the reset by hand.
pub fn append_manual_init(steps: &mut Vec<Step>, mode: BusMode)
    ensures
        final(steps)@ == old(steps)@ + manual_init(mode),
{
    steps.push(Step::Select(false, false));
    steps.push(Step::DelayMs(POWER_ON_DELAY_MS));
    steps.push(Step::Strobe(RESET_NIBBLE));
    steps.push(Step::DelayMs(FIRST_RESET_DELAY_MS));
    steps.push(Step::Strobe(RESET_NIBBLE));
    steps.push(Step::DelayUs(SECOND_RESET_DELAY_US));
    steps.push(Step::Strobe(RESET_NIBBLE));
    match mode {
        BusMode::FourBit => {
            steps.push(Step::Strobe(FOUR_BIT_NIBBLE));
        },
        BusMode::EightBit => {},
    }
    assert(steps@ =~= old(steps)@ + manual_init(mode));
}

/// Appends the power-on program.
pub fn append_power_on(steps: &mut Vec<Step>, mode: BusMode)
    ensures
        final(steps)@ == old(steps)@ + power_on(mode),
{
    append_manual_init(steps, mode);
    steps.push(Step::Send(Instruction::function_set(mode, DisplayLines::Single)));
    steps.push(
        Step::Send(Instruction::display_control(DisplayState::On, Cursor::Off, Blinking::Off)),
    );
    steps.push(Step::Send(Instruction::entry_mode(Direction::Right, DisplayShift::Off)));
    assert(steps@ =~= old(steps)@ + power_on(mode));
}

/// Appends the program that shows `content` from the home position.
pub fn append_text(steps: &mut Vec<Step>, mode: BusMode, content: &[u8])
    ensures
        final(steps)@ == old(steps)@ + text(mode, content@),
{
    steps.push(Step::Send(Instruction::clear_display()));
    steps.push(Step::Send(Instruction::return_home()));
    let ghost opened = steps@;
    let mut index: usize = 0;
    while index < content.len()
        invariant
            index <= content.len(),
            steps@ == opened + written(mode, content@, index as int),
        decreases content.len() - index,
    {
        let ghost before = steps@;
        if index == LINE_WIDTH {
            steps.push(Step::Send(Instruction::entry_mode(Direction::Right, DisplayShift::On)));
        }
        if index >= LINE_WIDTH {
            steps.push(Step::DelayMs(scroll_delay(mode)));
        }
        steps.push(Step::Send(Instruction::character(content[index])));
        proof {
            lemma_written_next(mode, content@, index as int);
            assert(steps@ =~= before + written_next(mode, content@, index as int));
        }
        index += 1;
    }
    steps.push(Step::Send(Instruction::entry_mode(Direction::Right, DisplayShift::Off)));
    assert(steps@ =~= old(steps)@ + text(mode, content@));
}

/// What the character at `index` adds to the program.
pub open spec fn written_next(mode: BusMode, text: Seq<u8>, index: int) -> Seq<Step> {
    if index < LINE_WIDTH {
        seq![glyph(text[index])]
    } else if index == LINE_WIDTH {
        seq![shift_on(), Step::DelayMs(scroll_delay_ms(mode)), glyph(text[index])]
    } else {
        seq![Step::DelayMs(scroll_delay_ms(mode)), glyph(text[index])]
    }
}

/// Writing one character more extends the program by what that character adds.
pub proof fn lemma_written_next(mode: BusMode, text: Seq<u8>, index: int)
    requires
        0 <= index < text.len(),
    ensures
        written(mode, text, index + 1) == written(mode, text, index) + written_next(
            mode,
            text,
            index,
        ),
{
    assert(written(mode, text, index + 1) =~= written(mode, text, index) + written_next(
        mode,
        text,
        index,
    ));
}

/// The step is a pause.
pub open spec fn is_pause(step: Step) -> bool {
    step is DelayMs || step is DelayUs
}

/// A text that fits on the line is written without scrolling: the program
/// clears the display, returns home, writes the characters one after another
/// and confirms the entry mode. It never switches scrolling on and never pauses.
pub proof fn lemma_short_text(mode: BusMode, content: Seq<u8>)
    requires
        content.len() <= LINE_WIDTH,
    ensures
        text(mode, content) == seq![
            command(clear_display_opcode()),
            command(return_home_opcode()),
        ] + glyphs(content).push(shift_off()),
        forall|k: int|
            0 <= k < text(mode, content).len() ==> text(mode, content)[k] != shift_on()
                && !is_pause(#[trigger] text(mode, content)[k]),
{
    assert(content.take(content.len() as int) =~= content);
}

/// A text longer than the line scrolls in. The first line is written at once.
/// Scrolling is switched on exactly once, right before the character that no
/// longer fits; from that character on every character follows a scroll pause,
/// and there is no other pause. Scrolling is switched off exactly once, as the
/// last step.
pub proof fn lemma_long_text(mode: BusMode, content: Seq<u8>)
    requires
        content.len() > LINE_WIDTH,
    ensures
        ({
            let program = text(mode, content);
            let width = LINE_WIDTH as int;
            let last = 2 * content.len() - 13;
            &&& program.len() == last + 1
            &&& program[0] == command(clear_display_opcode())
            &&& program[1] == command(return_home_opcode())
            &&& forall|i: int| 0 <= i < width ==> #[trigger] program[2 + i] == glyph(content[i])
            &&& program[2 + width] == shift_on()
            &&& forall|i: int|
                width <= i < content.len() ==> #[trigger] program[2 * i - 13] == Step::DelayMs(
                    scroll_delay_ms(mode),
                ) && program[2 * i - 12] == glyph(content[i])
            &&& program[last] == shift_off()
            &&& forall|k: int|
                0 <= k < program.len() && k != 2 + width ==> #[trigger] program[k] != shift_on()
            &&& forall|k: int| 0 <= k < last ==> #[trigger] program[k] != shift_off()
            &&& forall|k: int|
                0 <= k < program.len() ==> (is_pause(#[trigger] program[k]) <==> (2 + width < k
                    < last && (k - width) % 2 == 1))
        }),
{
    let program = text(mode, content);
    let width = LINE_WIDTH as int;
    let len = content.len() as int;
    let last = 2 * len - 13;
    let shown = glyphs(content.take(width));
    let scrolled = paced(mode, content.subrange(width, len));
    let expected = Seq::new(
        (last + 1) as nat,
        |k: int|
            if k == 0 {
                command(clear_display_opcode())
            } else if k == 1 {
                command(return_home_opcode())
            } else if k < 2 + width {
                glyph(content[k - 2])
            } else if k == 2 + width {
                shift_on()
            } else if k == last {
                shift_off()
            } else if (k - width) % 2 == 1 {
                Step::DelayMs(scroll_delay_ms(mode))
            } else {
                glyph(content[width + (k - 3 - width) / 2])
            },
    );
    assert(program =~= expected) by {
        assert(program.len() == expected.len());
        assert forall|k: int| 0 <= k < expected.len() implies program[k] == expected[k] by {
            if 2 + width < k < last {
                let j = k - 3 - width;
                assert(program[k] == scrolled[j]);
                assert(content.subrange(width, len)[j / 2] == content[width + j / 2]);
            } else if 2 <= k < 2 + width {
                assert(program[k] == shown[k - 2]);
            }
        }
    }
    assert forall|i: int| width <= i < content.len() implies #[trigger] program[2 * i - 13]
        == Step::DelayMs(scroll_delay_ms(mode)) && program[2 * i - 12] == glyph(content[i]) by {
        assert(expected[2 * i - 13] == Step::DelayMs(scroll_delay_ms(mode)));
        assert(expected[2 * i - 12] == glyph(content[i]));
    }
}

} // verus!
