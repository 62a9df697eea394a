//! The driver as a state machine, in its mathematical form.
//!
//! The driver keeps a queue of steps and hands out, one action at a time, what
//! has to be done on the lines to carry them out. The only thing it needs to be
//! told is the level of the busy line each time it asks for a sample. `State`
//! is what the driver knows between two calls, `next` and `sampled` are its
//! two transitions.

use vstd::prelude::*;
use crate::config::BusMode;
use crate::instruction::Instruction;
use crate::program::{power_on, Step};
use crate::transport::{poll_enter, poll_leave, poll_round, select, strobe, transfer, Action};

verus! {

/// Where the driver stands in the life of the module.
#[derive(Debug, Clone, Copy, PartialEq, Eq, Structural)]
pub enum Stage {
    /// Nothing has been done on the lines yet.
    Uninitialized,
    /// The power-on program is being played.
    Initializing,
    /// The power-on program is complete.
    Ready,
}

/// Which part of a step the actions at hand belong to.
#[derive(Debug, Clone, Copy, PartialEq, Eq, Structural)]
pub enum Phase {
    /// The opening of the busy poll that precedes the instruction.
    PollEnter(Instruction),
    /// One look at the busy flag.
    PollRound(Instruction),
    /// The closing of the busy poll, after the flag was seen clear.
    PollLeave(Instruction),
    /// The last part of a step; no step has been begun if none was handed out.
    Tail,
}

/// What the driver knows between two calls.
pub struct State {
    /// Width of the bus.
    pub mode: BusMode,
    /// An action has been handed out.
    pub started: bool,
    /// Number of steps at the front of `pending` that belong to the power-on program.
    pub boot: nat,
    /// The step at hand belongs to the power-on program.
    pub booting: bool,
    /// The steps not yet begun, oldest first.
    pub pending: Seq<Step>,
    /// The part of the step at hand.
    pub phase: Phase,
    /// The actions of that part not yet handed out.
    pub rest: Seq<Action>,
    /// The action handed out last asked for a sample, and none was reported.
    pub awaiting: bool,
    /// What the busy poll has to assume of the busy flag.
    pub busy: bool,
}

/// The first part of a step, as actions: the whole step, or the opening of the busy
/// poll where the step transmits an instruction.
pub open spec fn first_part(mode: BusMode, step: Step) -> Seq<Action> {
    match step {
        Step::Select(register_select, read_write) => select(register_select, read_write),
        Step::DelayMs(duration) => seq![Action::DelayMs(duration)],
        Step::DelayUs(duration) => seq![Action::DelayUs(duration)],
        Step::Strobe(nibble) => strobe(mode, nibble),
        Step::Send(instruction) => poll_enter(),
    }
}

impl State {
    /// A driver to which nothing has happened.
    pub open spec fn blank(mode: BusMode) -> State {
        State {
            mode,
            started: false,
            boot: 0,
            booting: false,
            pending: Seq::empty(),
            phase: Phase::Tail,
            rest: Seq::empty(),
            awaiting: false,
            busy: true,
        }
    }

    /// The state after initialization was asked for: whatever was pending is
    /// dropped in favour of the power-on program. A step that has been begun
    /// is still completed.
    pub open spec fn initialized(self) -> State {
        State { boot: power_on(self.mode).len(), pending: power_on(self.mode), ..self }
    }

    /// The state with `steps` queued behind what is pending.
    pub open spec fn queued(self, steps: Seq<Step>) -> State {
        State { pending: self.pending + steps, ..self }
    }

    /// The first part of the oldest pending step is at hand.
    pub open spec fn begin(self) -> State
        recommends
            self.pending.len() > 0,
    {
        let step = self.pending[0];
        State {
            boot: if self.boot > 0 {
                (self.boot - 1) as nat
            } else {
                0
            },
            booting: self.boot > 0,
            pending: self.pending.skip(1),
            phase: match step {
                Step::Send(instruction) => Phase::PollEnter(instruction),
                _ => Phase::Tail,
            },
            rest: first_part(self.mode, step),
            awaiting: false,
            ..self
        }
    }

    /// What is at hand once the last action of a part was handed out. The busy
    /// poll is left only when a sample has shown the flag clear: every round
    /// starts from the assumption that the module is busy.
    pub open spec fn turn(self) -> State {
        match self.phase {
            Phase::PollEnter(instruction) => State {
                phase: Phase::PollRound(instruction),
                rest: poll_round(self.mode),
                awaiting: false,
                busy: true,
                ..self
            },
            Phase::PollRound(instruction) => if self.busy {
                State { rest: poll_round(self.mode), awaiting: false, ..self }
            } else {
                State {
                    phase: Phase::PollLeave(instruction),
                    rest: poll_leave(),
                    awaiting: false,
                    ..self
                }
            },
            Phase::PollLeave(instruction) => State {
                phase: Phase::Tail,
                rest: transfer(self.mode, instruction),
                awaiting: false,
                ..self
            },
            Phase::Tail => if self.pending.len() > 0 {
                self.begin()
            } else {
                State { booting: false, awaiting: false, ..self }
            },
        }
    }

    /// The state with actions at hand, if there is anything left to do.
    pub open spec fn offer(self) -> State {
        if self.rest.len() == 0 {
            self.turn()
        } else {
            self
        }
    }

    /// Nothing is left to do.
    pub open spec fn idle(self) -> bool {
        self.offer().rest.len() == 0
    }

    /// The transition that hands out the next action, or none when idle.
    pub open spec fn next(self) -> (State, Option<Action>) {
        let offered = self.offer();
        if offered.rest.len() == 0 {
            (offered, None)
        } else {
            let action = offered.rest[0];
            (
                State {
                    started: true,
                    rest: offered.rest.skip(1),
                    awaiting: action == Action::SampleBusy,
                    ..offered
                },
                Some(action),
            )
        }
    }

    /// The transition that takes the level read from the busy line. A report
    /// that was not asked for changes nothing.
    pub open spec fn sampled(self, level: bool) -> State {
        if self.awaiting {
            State { busy: level, awaiting: false, ..self }
        } else {
            self
        }
    }

    /// A step has been begun and not all its actions have been handed out.
    pub open spec fn in_progress(self) -> bool {
        self.rest.len() > 0 || !(self.phase is Tail)
    }

    /// Where the driver stands.
    pub open spec fn stage(self) -> Stage {
        if !self.started {
            Stage::Uninitialized
        } else if self.boot > 0 || (self.booting && self.in_progress()) {
            Stage::Initializing
        } else {
            Stage::Ready
        }
    }
}

impl Stage {
    /// The stages in the order in which a driver passes through them.
    pub open spec fn rank(self) -> nat {
        match self {
            Stage::Uninitialized => 0,
            Stage::Initializing => 1,
            Stage::Ready => 2,
        }
    }
}

/// A driver never falls back to an earlier stage unless initialization is asked
/// for again. It leaves the first stage with the first action it hands out.
pub proof fn lemma_stage_never_regresses(s: State, level: bool, steps: Seq<Step>)
    ensures
        s.stage().rank() <= s.next().0.stage().rank(),
        s.stage().rank() <= s.sampled(level).stage().rank(),
        s.stage().rank() <= s.queued(steps).stage().rank(),
        s.next().1 is Some ==> s.next().0.stage() != Stage::Uninitialized,
        s.initialized().stage() != Stage::Ready,
        State::blank(s.mode).initialized().stage() == Stage::Uninitialized,
{
}

/// The byte of an instruction is transferred only after the busy flag was seen
/// clear. The look at the flag is left for the closing of the poll only when
/// the driver has been told that the flag is clear; every look starts from the
/// assumption that the module is busy; handing out actions does not change
/// what the driver assumes; and only a level that was asked for does. The
/// transfer is at hand only after the closing of the poll.
pub proof fn lemma_transfer_waits_for_clear(s: State, level: bool)
    ensures
        s.turn().phase is PollLeave ==> s.phase is PollRound && !s.busy,
        s.turn().phase is PollRound ==> s.turn().busy,
        s.rest.len() > 0 ==> s.next().0.busy == s.busy && s.next().0.phase == s.phase,
        s.sampled(level).busy != s.busy ==> s.awaiting && s.sampled(level).busy == level,
        s.phase is PollLeave ==> s.turn().rest == transfer(s.mode, s.phase->PollLeave_0),
        !(s.phase is PollLeave) ==> !(s.phase is Tail) ==> !(s.turn().phase is Tail),
{
}

} // verus!
