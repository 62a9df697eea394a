//! The display controller.
//!
//! `Lcd` is the driver a program holds. Its operations queue what has to be
//! sent to the module; `next_action` says what to do on the lines next, and
//! `busy_sampled` takes the level of the busy line whenever an action asked
//! for it. The driver is played by calling `next_action` until it returns
//! `None`, performing each action before asking for the next.

use vstd::prelude::*;
pub use crate::config::{
    Blinking, BusMode, Cursor, Direction, DisplayLines, DisplayOrCursor, DisplayShift,
    DisplayState,
};
use crate::instruction::{
    clear_display_opcode, display_control_opcode, display_off_opcode, entry_mode_opcode,
    function_set_opcode, return_home_opcode, shift_opcode, Instruction,
};
use crate::machine::{Phase, Stage, State};
use crate::program::{append_power_on, append_text, command, glyph, power_on, text, Step};
use crate::transport::{
    begin_busy_poll, end_busy_poll, sample_busy, select_register, send_instruction, send_strobe,
    Action,
};

verus! {

/// The driver of one display module.
pub struct Lcd {
    mode: BusMode,
    /// Steps accepted so far; those before `head` have been begun.
    queue: Vec<Step>,
    head: usize,
    /// Steps of the power-on program that have not been begun.
    boot: usize,
    booting: bool,
    started: bool,
    phase: Phase,
    /// Actions of the part at hand; those before `at` have been handed out.
    batch: Vec<Action>,
    at: usize,
    awaiting: bool,
    busy: bool,
}

impl View for Lcd {
    type V = State;

    closed spec fn view(&self) -> State {
        State {
            mode: self.mode,
            started: self.started,
            boot: self.boot as nat,
            booting: self.booting,
            pending: if self.head < self.queue.len() {
                self.queue@.skip(self.head as int)
            } else {
                Seq::empty()
            },
            phase: self.phase,
            rest: if self.at < self.batch.len() {
                self.batch@.skip(self.at as int)
            } else {
                Seq::empty()
            },
            awaiting: self.awaiting,
            busy: self.busy,
        }
    }
}

impl Lcd {
    /// A driver for a module on a bus of the given width. The power-on program
    /// is queued and nothing has been done on the lines.
    pub fn new(mode: BusMode) -> (lcd: Lcd)
        ensures
            lcd@ == State::blank(mode).initialized(),
    {
        let mut lcd = Lcd {
            mode,
            queue: Vec::new(),
            head: 0,
            boot: 0,
            booting: false,
            started: false,
            phase: Phase::Tail,
            batch: Vec::new(),
            at: 0,
            awaiting: false,
            busy: true,
        };
        assert(lcd@.pending =~= State::blank(mode).pending);
        assert(lcd@.rest =~= State::blank(mode).rest);
        lcd.initialize();
        lcd
    }

    /// Queues the power-on program in place of whatever is pending: the wait
    /// for the module to wake up, the reset by hand, and the setup of one line,
    /// display on, no cursor, no blinking, writing to the right without
    /// scrolling. A step that has been begun is completed first.
    pub fn initialize(&mut self)
        ensures
            final(self)@ == old(self)@.initialized(),
    {
        self.queue.clear();
        self.head = 0;
        append_power_on(&mut self.queue, self.mode);
        self.boot = self.queue.len();
        assert(self@.pending =~= power_on(self.mode));
    }

    /// Width of the bus the driver was made for.
    pub fn mode(&self) -> (mode: BusMode)
        ensures
            mode == self@.mode,
    {
        self.mode
    }

    /// Forgets the steps that have been begun once none is pending.
    fn reclaim(&mut self)
        ensures
            final(self)@ == old(self)@,
            final(self).head <= final(self).queue.len(),
    {
        if self.head >= self.queue.len() {
            self.queue.clear();
            self.head = 0;
        }
    }

    /// Queues one step behind everything that is pending.
    fn enqueue(&mut self, step: Step)
        ensures
            final(self)@ == old(self)@.queued(seq![step]),
    {
        self.reclaim();
        self.queue.push(step);
        assert(self@.pending =~= old(self)@.pending + seq![step]);
    }

    /// Queues the transmission of `data` with the given levels of the
    /// register-select and the read/write line. The byte goes out once the
    /// busy flag has been seen clear.
    pub fn send(&mut self, data: u8, register_select: bool, read_write: bool)
        ensures
            final(self)@ == old(self)@.queued(
                seq![Step::Send(Instruction { byte: data, register_select, read_write })],
            ),
    {
        self.enqueue(Step::Send(Instruction { byte: data, register_select, read_write }));
    }

    /// Queues "clear display".
    pub fn clear_display(&mut self)
        ensures
            final(self)@ == old(self)@.queued(seq![command(clear_display_opcode())]),
    {
        self.enqueue(Step::Send(Instruction::clear_display()));
    }

    /// Queues "return home".
    pub fn return_home(&mut self)
        ensures
            final(self)@ == old(self)@.queued(seq![command(return_home_opcode())]),
    {
        self.enqueue(Step::Send(Instruction::return_home()));
    }

    /// Queues "function set" for the bus width of this driver.
    pub fn set_function(&mut self, display_lines: DisplayLines)
        ensures
            final(self)@ == old(self)@.queued(
                seq![command(function_set_opcode(old(self)@.mode, display_lines))],
            ),
    {
        self.enqueue(Step::Send(Instruction::function_set(self.mode, display_lines)));
    }

    /// Queues "display on/off control".
    pub fn configure_display(&mut self, display: DisplayState, cursor: Cursor, blinking: Blinking)
        ensures
            final(self)@ == old(self)@.queued(
                seq![command(display_control_opcode(display, cursor, blinking))],
            ),
    {
        self.enqueue(Step::Send(Instruction::display_control(display, cursor, blinking)));
    }

    /// Queues "entry mode set".
    pub fn set_entry_mode(&mut self, dir: Direction, shift: DisplayShift)
        ensures
            final(self)@ == old(self)@.queued(seq![command(entry_mode_opcode(dir, shift))]),
    {
        self.enqueue(Step::Send(Instruction::entry_mode(dir, shift)));
    }

    /// Queues the instruction that switches the display off.
    pub fn turn_display_off(&mut self)
        ensures
            final(self)@ == old(self)@.queued(seq![command(display_off_opcode())]),
    {
        self.enqueue(Step::Send(Instruction::display_off()));
    }

    /// Queues "cursor or display shift".
    pub fn shift(&mut self, obj: DisplayOrCursor, dir: Direction)
        ensures
            final(self)@ == old(self)@.queued(seq![command(shift_opcode(obj, dir))]),
    {
        self.enqueue(Step::Send(Instruction::shift(obj, dir)));
    }

    /// Queues one character at the cursor, without clearing the display.
    pub fn append_byte(&mut self, byte: u8)
        ensures
            final(self)@ == old(self)@.queued(seq![glyph(byte)]),
    {
        self.write_byte_to_display(byte);
    }

    fn write_byte_to_display(&mut self, byte: u8)
        ensures
            final(self)@ == old(self)@.queued(seq![glyph(byte)]),
    {
        self.enqueue(Step::Send(Instruction::character(byte)));
    }

    /// Queues the program that shows `content` from the home position. What
    /// does not fit on the line scrolls in, character by character.
    pub fn set_str(&mut self, content: &[u8])
        ensures
            final(self)@ == old(self)@.queued(text(old(self)@.mode, content@)),
    {
        self.reclaim();
        append_text(&mut self.queue, self.mode, content);
        assert(self@.pending =~= old(self)@.pending + text(self.mode, content@));
    }

    /// Where the driver stands in the life of the module.
    pub fn stage(&self) -> (stage: Stage)
        ensures
            stage == self@.stage(),
    {
        if !self.started {
            Stage::Uninitialized
        } else if self.boot > 0 || (self.booting && (self.at < self.batch.len() || !matches!(
            self.phase,
            Phase::Tail
        ))) {
            Stage::Initializing
        } else {
            Stage::Ready
        }
    }

    /// Puts the first part of the oldest pending step at hand.
    fn begin(&mut self)
        requires
            old(self)@.pending.len() > 0,
        ensures
            final(self)@ == old(self)@.begin(),
    {
        let step = self.queue[self.head];
        self.head += 1;
        self.booting = self.boot > 0;
        if self.boot > 0 {
            self.boot -= 1;
        }
        let mut batch: Vec<Action> = Vec::new();
        match step {
            Step::Select(register_select, read_write) => {
                select_register(&mut batch, register_select, read_write);
                self.phase = Phase::Tail;
            },
            Step::DelayMs(duration) => {
                batch.push(Action::DelayMs(duration));
                self.phase = Phase::Tail;
            },
            Step::DelayUs(duration) => {
                batch.push(Action::DelayUs(duration));
                self.phase = Phase::Tail;
            },
            Step::Strobe(nibble) => {
                send_strobe(&mut batch, self.mode, nibble);
                self.phase = Phase::Tail;
            },
            Step::Send(instruction) => {
                begin_busy_poll(&mut batch);
                self.phase = Phase::PollEnter(instruction);
            },
        }
        self.batch = batch;
        self.at = 0;
        self.awaiting = false;
        assert(self@.rest =~= old(self)@.begin().rest);
        assert(self@.pending =~= old(self)@.begin().pending);
    }

    /// Puts at hand what follows the part whose last action was handed out.
    /// This is where the busy poll decides whether to look again.
    fn turn(&mut self)
        requires
            old(self)@.rest.len() == 0,
        ensures
            final(self)@ == old(self)@.turn(),
    {
        match self.phase {
            Phase::PollEnter(instruction) => {
                let mut batch: Vec<Action> = Vec::new();
                sample_busy(&mut batch, self.mode);
                self.batch = batch;
                self.at = 0;
                self.phase = Phase::PollRound(instruction);
                self.awaiting = false;
                self.busy = true;
                assert(self@.rest =~= old(self)@.turn().rest);
            },
            Phase::PollRound(instruction) => {
                let mut batch: Vec<Action> = Vec::new();
                if self.busy {
                    sample_busy(&mut batch, self.mode);
                } else {
                    end_busy_poll(&mut batch);
                    self.phase = Phase::PollLeave(instruction);
                }
                self.batch = batch;
                self.at = 0;
                self.awaiting = false;
                assert(self@.rest =~= old(self)@.turn().rest);
            },
            Phase::PollLeave(instruction) => {
                let mut batch: Vec<Action> = Vec::new();
                send_instruction(&mut batch, self.mode, instruction);
                self.batch = batch;
                self.at = 0;
                self.phase = Phase::Tail;
                self.awaiting = false;
                assert(self@.rest =~= old(self)@.turn().rest);
            },
            Phase::Tail => {
                if self.head < self.queue.len() {
                    self.begin();
                } else {
                    self.booting = false;
                    self.awaiting = false;
                }
            },
        }
    }

    /// What has to be done next, or `None` when nothing is left to do. The
    /// caller performs the action before it asks again; after
    /// `Action::SampleBusy` it reports the level it read with `busy_sampled`.
    pub fn next_action(&mut self) -> (action: Option<Action>)
        ensures
            (final(self)@, action) == old(self)@.next(),
    {
        if self.at >= self.batch.len() {
            self.turn();
        }
        if self.at < self.batch.len() {
            let action = self.batch[self.at];
            self.at += 1;
            self.started = true;
            self.awaiting = matches!(action, Action::SampleBusy);
            assert(self@.rest =~= old(self)@.next().0.rest);
            Some(action)
        } else {
            None
        }
    }

    /// Takes the level read from the busy line: `true` while the module is
    /// busy. A level that no action asked for is ignored.
    pub fn busy_sampled(&mut self, level: bool)
        ensures
            final(self)@ == old(self)@.sampled(level),
    {
        if self.awaiting {
            self.busy = level;
            self.awaiting = false;
        }
    }

    /// Nothing is left to do.
    pub fn is_idle(&self) -> (idle: bool)
        ensures
            idle == self@.idle(),
    {
        self.at >= self.batch.len() && matches!(self.phase, Phase::Tail) && self.head
            >= self.queue.len()
    }
}

} // verus!
