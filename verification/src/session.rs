//! What a caller sees who plays the driver against a busy line.
//!
//! A session pairs the driver with the levels the busy line will show, one for
//! each sample, and records every action that is handed out. The laws below
//! say what the record holds.

use vstd::prelude::*;
use crate::config::BusMode;
use crate::instruction::Instruction;
use crate::lcd::Lcd;
use crate::machine::{first_part, Phase, Stage, State};
use crate::program::{power_on, Step};
use crate::transport::{
    byte_lines, data, full, nibble_lines, one_part, poll_enter, poll_leave, poll_round, pulse,
    select, transfer, Action, ENABLE_TIME_US,
};

verus! {

/// The driver, the levels that the busy line is going to show, and the actions
/// handed out so far.
pub struct Session {
    pub lcd: State,
    pub line: Seq<bool>,
    pub trace: Seq<Action>,
}

impl Session {
    /// The caller asks for one action and performs it. Where the action is a
    /// sample it reports the next level of the line; where the line has no
    /// level left it reports nothing.
    pub open spec fn step(self) -> Session {
        let (lcd, action) = self.lcd.next();
        match action {
            None => Session { lcd, ..self },
            Some(action) => if action == Action::SampleBusy && self.line.len() > 0 {
                Session {
                    lcd: lcd.sampled(self.line[0]),
                    line: self.line.skip(1),
                    trace: self.trace.push(action),
                }
            } else {
                Session { lcd, line: self.line, trace: self.trace.push(action) }
            },
        }
    }

    /// The caller asks `n` times.
    pub open spec fn run(self, n: nat) -> Session
        decreases n,
    {
        if n == 0 {
            self
        } else {
            self.step().run((n - 1) as nat)
        }
    }

    /// The session with the driver in another state.
    pub open spec fn with_lcd(self, lcd: State) -> Session {
        Session { lcd, ..self }
    }
}

/// `n + 1` looks at the busy flag.
pub open spec fn rounds(mode: BusMode, n: nat) -> Seq<Action>
    decreases n,
{
    if n == 0 {
        poll_round(mode)
    } else {
        poll_round(mode) + rounds(mode, (n - 1) as nat)
    }
}

/// The busy poll of a module that is seen busy `n` times before it is seen idle.
pub open spec fn poll(mode: BusMode, n: nat) -> Seq<Action> {
    poll_enter() + rounds(mode, n) + poll_leave()
}

/// Everything that sending one instruction takes when the module is seen busy
/// `n` times: the poll, and only then the transfer.
pub open spec fn send(mode: BusMode, instruction: Instruction, n: nat) -> Seq<Action> {
    poll(mode, n) + transfer(mode, instruction)
}

/// The line shows busy `n` times and idle after that.
pub open spec fn clears_after(line: Seq<bool>, n: nat) -> bool {
    &&& n < line.len()
    &&& forall|k: int| 0 <= k < n ==> line[k]
    &&& !line[n as int]
}

/// Asking `a + b` times is asking `a` times and then `b` times.
pub proof fn lemma_run_add(s: Session, a: nat, b: nat)
    ensures
        s.run(a + b) == s.run(a).run(b),
    decreases a,
{
    if a > 0 {
        lemma_run_add(s.step(), (a - 1) as nat, b);
        assert(s.run(a + b) == s.step().run((a + b - 1) as nat));
    }
}

/// Asking a driver with nothing at hand is asking the driver that has turned
/// to the next part.
pub proof fn lemma_run_offer(s: Session, n: nat)
    requires
        n > 0,
    ensures
        s.run(n) == s.with_lcd(s.lcd.offer()).run(n),
{
    let t = s.with_lcd(s.lcd.offer());
    assert(s.lcd.offer().offer() == s.lcd.offer());
    assert(s.step() == t.step());
}

/// While the actions at hand hold no sample, they are handed out as they stand.
pub proof fn lemma_run_quiet(s: Session, k: nat)
    requires
        0 < k <= s.lcd.rest.len(),
        forall|j: int| 0 <= j < k ==> s.lcd.rest[j] != Action::SampleBusy,
    ensures
        s.run(k) == (Session {
            lcd: State {
                started: true,
                rest: s.lcd.rest.skip(k as int),
                awaiting: false,
                ..s.lcd
            },
            line: s.line,
            trace: s.trace + s.lcd.rest.take(k as int),
        }),
    decreases k,
{
    let rest = s.lcd.rest;
    let t = s.step();
    assert(t.lcd == State { started: true, rest: rest.skip(1), awaiting: false, ..s.lcd });
    assert(t.trace == s.trace.push(rest[0]));
    if k == 1 {
        assert(s.run(1) == t.run(0));
        assert(s.trace.push(rest[0]) =~= s.trace + rest.take(1));
    } else {
        assert forall|j: int| 0 <= j < k - 1 implies t.lcd.rest[j] != Action::SampleBusy by {
            assert(t.lcd.rest[j] == rest[j + 1]);
        }
        lemma_run_quiet(t, (k - 1) as nat);
        assert(t.lcd.rest.skip(k - 1) =~= rest.skip(k as int));
        assert(t.trace + t.lcd.rest.take(k - 1) =~= s.trace + rest.take(k as int));
    }
}

/// One look at the busy flag takes the next level off the line.
pub proof fn lemma_round(s: Session, instruction: Instruction)
    requires
        s.lcd.phase == Phase::PollRound(instruction),
        s.lcd.rest == poll_round(s.lcd.mode),
        s.line.len() > 0,
    ensures
        s.run(poll_round(s.lcd.mode).len()) == (Session {
            lcd: State {
                started: true,
                rest: Seq::empty(),
                awaiting: false,
                busy: s.line[0],
                ..s.lcd
            },
            line: s.line.skip(1),
            trace: s.trace + poll_round(s.lcd.mode),
        }),
{
    let round = poll_round(s.lcd.mode);
    let len = round.len();
    let tail = (len - 3) as nat;
    lemma_run_quiet(s, 2);
    let a = s.run(2);
    let b = a.step();
    assert(a.lcd.rest[0] == Action::SampleBusy);
    assert(a.run(1) == b.run(0));
    assert(b.lcd.rest =~= round.skip(3));
    lemma_run_quiet(b, tail);
    lemma_run_add(s, 2, 1);
    lemma_run_add(s, 3, tail);
    assert(b.lcd.rest.skip(tail as int) =~= Seq::<Action>::empty());
    assert(b.trace + b.lcd.rest.take(tail as int) =~= s.trace + round);
}

/// The busy poll looks at the flag until a sample shows it clear: on a line
/// that shows busy `n` times it takes `n + 1` samples.
pub proof fn lemma_rounds(s: Session, instruction: Instruction, n: nat)
    requires
        s.lcd.rest.len() == 0,
        s.lcd.phase == Phase::PollEnter(instruction) || (s.lcd.phase == Phase::PollRound(
            instruction,
        ) && s.lcd.busy),
        clears_after(s.line, n),
    ensures
        s.run(rounds(s.lcd.mode, n).len()) == (Session {
            lcd: State {
                started: true,
                phase: Phase::PollRound(instruction),
                rest: Seq::empty(),
                awaiting: false,
                busy: false,
                ..s.lcd
            },
            line: s.line.skip(n + 1 as int),
            trace: s.trace + rounds(s.lcd.mode, n),
        }),
    decreases n,
{
    let mode = s.lcd.mode;
    let round = poll_round(mode);
    let t = s.with_lcd(s.lcd.offer());
    lemma_run_offer(s, round.len());
    lemma_round(t, instruction);
    let u = t.run(round.len());
    if n == 0 {
        assert(s.line.skip(1) =~= s.line.skip(n + 1 as int));
    } else {
        let m = (n - 1) as nat;
        assert(s.line[0]);
        assert(clears_after(u.line, m)) by {
            assert forall|k: int| 0 <= k < m implies u.line[k] by {
                assert(u.line[k] == s.line[k + 1]);
            }
        }
        lemma_rounds(u, instruction, m);
        lemma_run_add(s, round.len(), rounds(mode, m).len());
        assert(u.line.skip(m + 1 as int) =~= s.line.skip(n + 1 as int));
        assert(u.trace + rounds(mode, m) =~= s.trace + rounds(mode, n));
    }
}

/// A part without a sample is handed out as it stands once the driver has
/// turned to it.
pub proof fn lemma_part(s: Session)
    requires
        s.lcd.rest.len() == 0,
        s.lcd.offer().rest.len() > 0,
        quiet(s.lcd.offer().rest),
    ensures
        s.run(s.lcd.offer().rest.len()) == (Session {
            lcd: State {
                started: true,
                rest: Seq::empty(),
                awaiting: false,
                ..s.lcd.offer()
            },
            line: s.line,
            trace: s.trace + s.lcd.offer().rest,
        }),
{
    let part = s.lcd.offer().rest;
    let t = s.with_lcd(s.lcd.offer());
    lemma_run_offer(s, part.len());
    lemma_run_quiet(t, part.len());
    assert(part.skip(part.len() as int) =~= Seq::<Action>::empty());
    assert(part.take(part.len() as int) =~= part);
}

/// The actions hold no sample.
pub open spec fn quiet(actions: Seq<Action>) -> bool {
    forall|j: int| 0 <= j < actions.len() ==> actions[j] != Action::SampleBusy
}

proof fn lemma_quiet_add(a: Seq<Action>, b: Seq<Action>)
    requires
        quiet(a),
        quiet(b),
    ensures
        quiet(a + b),
{
    assert forall|j: int| 0 <= j < (a + b).len() implies (a + b)[j] != Action::SampleBusy by {
        if j >= a.len() {
            assert((a + b)[j] == b[j - a.len()]);
        }
    }
}

proof fn lemma_quiet_nibble(nibble: u8)
    ensures
        quiet(one_part(nibble)),
{
    lemma_quiet_add(nibble_lines(nibble), pulse());
}

proof fn lemma_quiet_full(byte: u8)
    ensures
        quiet(full(byte)),
{
    lemma_quiet_add(seq![Action::DataLinesOutput], byte_lines(byte));
    lemma_quiet_add(seq![Action::DataLinesOutput] + byte_lines(byte), pulse());
}

proof fn lemma_quiet_data(mode: BusMode, byte: u8)
    ensures
        quiet(data(mode, byte)),
        data(mode, byte).len() > 0,
{
    match mode {
        BusMode::FourBit => {
            lemma_quiet_nibble(byte / 16);
            lemma_quiet_nibble(byte % 16);
            lemma_quiet_add(one_part(byte / 16), one_part(byte % 16));
        },
        BusMode::EightBit => {
            lemma_quiet_full(byte);
        },
    }
}

/// No part but the look at the busy flag asks for a sample, and no part is empty.
pub proof fn lemma_quiet_parts(mode: BusMode, step: Step, instruction: Instruction)
    ensures
        quiet(first_part(mode, step)),
        quiet(poll_leave()),
        quiet(transfer(mode, instruction)),
        first_part(mode, step).len() > 0,
        transfer(mode, instruction).len() > 0,
{
    lemma_quiet_data(mode, instruction.byte);
    lemma_quiet_add(
        select(instruction.register_select, instruction.read_write),
        data(mode, instruction.byte),
    );
    match step {
        Step::Strobe(nibble) => {
            match mode {
                BusMode::FourBit => {
                    lemma_quiet_nibble(nibble);
                },
                BusMode::EightBit => {
                    lemma_quiet_full((nibble % 16 * 16) as u8);
                },
            }
        },
        _ => {},
    }
}

/// The opening of the poll.
proof fn lemma_send_enter(s: Session, instruction: Instruction)
    requires
        s.lcd.rest.len() == 0,
        s.lcd.phase == Phase::Tail,
        s.lcd.pending.len() > 0,
        s.lcd.pending[0] == Step::Send(instruction),
    ensures
        s.run(poll_enter().len()) == (Session {
            lcd: State {
                started: true,
                boot: s.lcd.begin().boot,
                booting: s.lcd.begin().booting,
                pending: s.lcd.pending.skip(1),
                phase: Phase::PollEnter(instruction),
                rest: Seq::empty(),
                awaiting: false,
                ..s.lcd
            },
            line: s.line,
            trace: s.trace + poll_enter(),
        }),
{
    lemma_quiet_parts(s.lcd.mode, Step::Send(instruction), instruction);
    lemma_part(s);
}

/// The closing of the poll and the transfer.
proof fn lemma_send_leave(s: Session, instruction: Instruction)
    requires
        s.lcd.rest.len() == 0,
        s.lcd.phase == Phase::PollRound(instruction),
        !s.lcd.busy,
    ensures
        s.run(poll_leave().len() + transfer(s.lcd.mode, instruction).len()) == (Session {
            lcd: State {
                started: true,
                phase: Phase::Tail,
                rest: Seq::empty(),
                awaiting: false,
                ..s.lcd
            },
            line: s.line,
            trace: s.trace + poll_leave() + transfer(s.lcd.mode, instruction),
        }),
{
    let mode = s.lcd.mode;
    lemma_quiet_parts(mode, Step::Send(instruction), instruction);
    lemma_part(s);
    let a = s.run(poll_leave().len());
    assert(a.lcd.offer().rest == transfer(mode, instruction));
    lemma_part(a);
    lemma_run_add(s, poll_leave().len(), transfer(mode, instruction).len());
}

/// Sending an instruction: the driver opens the poll, looks at the busy flag
/// until it is clear, closes the poll, and only then transfers the byte. On a
/// line that shows busy `n` times the caller is handed exactly `send(.., n)`,
/// and the step is complete.
pub proof fn lemma_send(s: Session, instruction: Instruction, n: nat)
    requires
        s.lcd.rest.len() == 0,
        s.lcd.phase == Phase::Tail,
        s.lcd.pending.len() > 0,
        s.lcd.pending[0] == Step::Send(instruction),
        clears_after(s.line, n),
    ensures
        s.run(send(s.lcd.mode, instruction, n).len()) == (Session {
            lcd: State {
                started: true,
                boot: s.lcd.begin().boot,
                booting: s.lcd.begin().booting,
                pending: s.lcd.pending.skip(1),
                phase: Phase::Tail,
                rest: Seq::empty(),
                awaiting: false,
                busy: false,
                ..s.lcd
            },
            line: s.line.skip(n + 1 as int),
            trace: s.trace + send(s.lcd.mode, instruction, n),
        }),
{
    let mode = s.lcd.mode;
    let enter = poll_enter().len();
    let looks = rounds(mode, n).len();
    let close = poll_leave().len() + transfer(mode, instruction).len();
    lemma_send_enter(s, instruction);
    let a = s.run(enter);
    lemma_rounds(a, instruction, n);
    let b = a.run(looks);
    lemma_send_leave(b, instruction);
    let c = b.run(close);
    lemma_run_add(s, enter, looks);
    lemma_run_add(s, enter + looks, close);
    assert(send(mode, instruction, n).len() == enter + looks + close);
    assert(c.trace =~= s.trace + send(mode, instruction, n));
}

/// A step that needs no poll is handed out as it stands.
pub proof fn lemma_plain(s: Session, step: Step)
    requires
        s.lcd.rest.len() == 0,
        s.lcd.phase == Phase::Tail,
        s.lcd.pending.len() > 0,
        s.lcd.pending[0] == step,
        !(step is Send),
    ensures
        s.run(first_part(s.lcd.mode, step).len()) == (Session {
            lcd: State {
                started: true,
                boot: s.lcd.begin().boot,
                booting: s.lcd.begin().booting,
                pending: s.lcd.pending.skip(1),
                phase: Phase::Tail,
                rest: Seq::empty(),
                awaiting: false,
                ..s.lcd
            },
            line: s.line,
            trace: s.trace + first_part(s.lcd.mode, step),
        }),
{
    lemma_quiet_parts(s.lcd.mode, step, Instruction::command_of(0));
    lemma_part(s);
}

/// How often the line shows busy before it shows idle.
pub open spec fn busy_looks(line: Seq<bool>) -> nat
    decreases line.len(),
{
    if line.len() == 0 || !line[0] {
        0
    } else {
        1 + busy_looks(line.skip(1))
    }
}

/// What carrying out one step hands to the caller, on a line that shows `line`.
pub open spec fn step_actions(mode: BusMode, step: Step, line: Seq<bool>) -> Seq<Action> {
    match step {
        Step::Send(instruction) => send(mode, instruction, busy_looks(line)),
        _ => first_part(mode, step),
    }
}

/// What the line still has to show once the step is complete.
pub open spec fn line_after(step: Step, line: Seq<bool>) -> Seq<bool> {
    match step {
        Step::Send(instruction) => line.skip(busy_looks(line) + 1 as int),
        _ => line,
    }
}

/// What carrying out a program hands to the caller, step after step.
pub open spec fn play(mode: BusMode, steps: Seq<Step>, line: Seq<bool>) -> Seq<Action>
    decreases steps.len(),
{
    if steps.len() == 0 {
        Seq::empty()
    } else {
        step_actions(mode, steps[0], line) + play(mode, steps.skip(1), line_after(steps[0], line))
    }
}

/// The line shows idle at some time for every instruction of the program.
pub open spec fn answers(steps: Seq<Step>, line: Seq<bool>) -> bool
    decreases steps.len(),
{
    steps.len() == 0 || ((steps[0] is Send ==> busy_looks(line) < line.len()) && answers(
        steps.skip(1),
        line_after(steps[0], line),
    ))
}

/// A line that shows idle at all shows busy `busy_looks` times before.
pub proof fn lemma_busy_looks(line: Seq<bool>)
    requires
        busy_looks(line) < line.len(),
    ensures
        clears_after(line, busy_looks(line)),
    decreases line.len(),
{
    if line[0] {
        let tail = line.skip(1);
        lemma_busy_looks(tail);
        assert forall|k: int| 0 <= k < busy_looks(line) implies line[k] by {
            if k > 0 {
                assert(line[k] == tail[k - 1]);
            }
        }
        assert(line[busy_looks(line) as int] == tail[busy_looks(tail) as int]);
    }
}

/// Playing the driver: from rest, with a line that answers every instruction,
/// the caller is handed exactly what the pending program takes, step after
/// step in the order in which the steps were queued, and the driver ends idle.
pub proof fn lemma_play(s: Session)
    requires
        s.lcd.rest.len() == 0,
        s.lcd.phase == Phase::Tail,
        answers(s.lcd.pending, s.line),
    ensures
        ({
            let actions = play(s.lcd.mode, s.lcd.pending, s.line);
            let end = s.run(actions.len());
            &&& end.trace == s.trace + actions
            &&& end.lcd.idle()
            &&& end.lcd.pending.len() == 0
            &&& end.lcd.rest.len() == 0
            &&& end.lcd.phase == Phase::Tail
            &&& end.lcd.mode == s.lcd.mode
            &&& end.lcd.started == (s.lcd.started || s.lcd.pending.len() > 0)
            &&& end.lcd.boot == if s.lcd.boot > s.lcd.pending.len() {
                s.lcd.boot - s.lcd.pending.len()
            } else {
                0
            }
        }),
    decreases s.lcd.pending.len(),
{
    let mode = s.lcd.mode;
    let steps = s.lcd.pending;
    if steps.len() == 0 {
        assert(s.trace + play(mode, steps, s.line) =~= s.trace);
    } else {
        let step = steps[0];
        let first = step_actions(mode, step, s.line);
        let later = play(mode, steps.skip(1), line_after(step, s.line));
        match step {
            Step::Send(instruction) => {
                lemma_busy_looks(s.line);
                lemma_send(s, instruction, busy_looks(s.line));
            },
            _ => {
                lemma_plain(s, step);
            },
        }
        let t = s.run(first.len());
        assert(t.line == line_after(step, s.line));
        lemma_play(t);
        lemma_run_add(s, first.len(), later.len());
        assert(t.trace + later =~= s.trace + play(mode, steps, s.line));
    }
}

/// How often `action` stands in `actions`.
pub open spec fn occurrences(actions: Seq<Action>, action: Action) -> nat
    decreases actions.len(),
{
    if actions.len() == 0 {
        0
    } else if actions.last() == action {
        occurrences(actions.drop_last(), action) + 1
    } else {
        occurrences(actions.drop_last(), action)
    }
}

proof fn lemma_occurrences_add(a: Seq<Action>, b: Seq<Action>, action: Action)
    ensures
        occurrences(a + b, action) == occurrences(a, action) + occurrences(b, action),
    decreases b.len(),
{
    if b.len() == 0 {
        assert(a + b =~= a);
    } else {
        assert((a + b).drop_last() =~= a + b.drop_last());
        lemma_occurrences_add(a, b.drop_last(), action);
    }
}

proof fn lemma_occurrences_round(mode: BusMode)
    ensures
        occurrences(poll_round(mode), Action::SampleBusy) == 1,
        occurrences(poll_round(mode), Action::Enable(true)) == match mode {
            BusMode::FourBit => 2nat,
            BusMode::EightBit => 1nat,
        },
{
    let sample = seq![
        Action::Enable(true),
        Action::DelayUs(ENABLE_TIME_US),
        Action::SampleBusy,
        Action::Enable(false),
    ];
    reveal_with_fuel(occurrences, 5);
    assert(occurrences(sample, Action::SampleBusy) == 1);
    assert(occurrences(sample, Action::Enable(true)) == 1);
    assert(occurrences(pulse(), Action::SampleBusy) == 0);
    assert(occurrences(pulse(), Action::Enable(true)) == 1);
    lemma_occurrences_add(sample, pulse(), Action::SampleBusy);
    lemma_occurrences_add(sample, pulse(), Action::Enable(true));
}

proof fn lemma_occurrences_rounds(mode: BusMode, n: nat)
    ensures
        occurrences(rounds(mode, n), Action::SampleBusy) == n + 1,
        occurrences(rounds(mode, n), Action::Enable(true)) == match mode {
            BusMode::FourBit => 2 * (n + 1),
            BusMode::EightBit => n + 1,
        },
    decreases n,
{
    lemma_occurrences_round(mode);
    if n > 0 {
        let m = (n - 1) as nat;
        lemma_occurrences_rounds(mode, m);
        lemma_occurrences_add(poll_round(mode), rounds(mode, m), Action::SampleBusy);
        lemma_occurrences_add(poll_round(mode), rounds(mode, m), Action::Enable(true));
    }
}

/// A busy poll that sees the module busy `n` times takes exactly `n + 1`
/// samples. On eight lines it pulses enable once for each sample; on four lines
/// twice, the second pulse discarding the low half of the status byte.
pub proof fn lemma_poll_counts(mode: BusMode, n: nat)
    ensures
        occurrences(poll(mode, n), Action::SampleBusy) == n + 1,
        occurrences(poll(mode, n), Action::Enable(true)) == match mode {
            BusMode::FourBit => 2 * (n + 1),
            BusMode::EightBit => n + 1,
        },
{
    reveal_with_fuel(occurrences, 5);
    assert(occurrences(poll_enter(), Action::SampleBusy) == 0);
    assert(occurrences(poll_enter(), Action::Enable(true)) == 0);
    assert(occurrences(poll_leave(), Action::SampleBusy) == 0);
    assert(occurrences(poll_leave(), Action::Enable(true)) == 0);
    lemma_occurrences_rounds(mode, n);
    lemma_occurrences_add(poll_enter(), rounds(mode, n), Action::SampleBusy);
    lemma_occurrences_add(poll_enter(), rounds(mode, n), Action::Enable(true));
    lemma_occurrences_add(poll_enter() + rounds(mode, n), poll_leave(), Action::SampleBusy);
    lemma_occurrences_add(poll_enter() + rounds(mode, n), poll_leave(), Action::Enable(true));
}

/// Once the power-on program has been played, the driver is ready: from rest,
/// asking for initialization and playing what is pending hands out the
/// power-on program and nothing else.
pub proof fn lemma_power_on_ready(lcd: State, line: Seq<bool>)
    requires
        lcd.rest.len() == 0,
        lcd.phase == Phase::Tail,
        answers(power_on(lcd.mode), line),
    ensures
        ({
            let s = Session { lcd: lcd.initialized(), line, trace: Seq::empty() };
            let end = s.run(play(lcd.mode, power_on(lcd.mode), line).len());
            &&& lcd.initialized().stage() != Stage::Ready
            &&& end.trace == play(lcd.mode, power_on(lcd.mode), line)
            &&& end.lcd.stage() == Stage::Ready
            &&& end.lcd.idle()
        }),
{
    let mode = lcd.mode;
    let s = Session { lcd: lcd.initialized(), line, trace: Seq::empty() };
    lemma_play(s);
    assert(s.trace + play(mode, power_on(mode), line) =~= play(mode, power_on(mode), line));
}

/// A driver that has nothing left to do stays as it is, however often it is asked.
pub proof fn lemma_run_idle(s: Session, n: nat)
    requires
        s.lcd.idle(),
        n > 0,
    ensures
        s.run(n) == s.with_lcd(s.lcd.offer()),
    decreases n,
{
    let t = s.with_lcd(s.lcd.offer());
    assert(s.step() == t);
    assert(t.lcd.offer() == t.lcd);
    if n > 1 {
        lemma_run_idle(t, (n - 1) as nat);
    } else {
        assert(s.run(1) == t.run(0));
    }
}

/// Plays the driver against a busy line whose levels are known beforehand:
/// asks for up to `limit` actions and answers every sample with the next
/// level of `line`, as long as there is one. Returns the actions in the order
/// in which they were handed out.
pub fn rehearse(lcd: &mut Lcd, line: &[bool], limit: usize) -> (trace: Vec<Action>)
    ensures
        ({
            let end = (Session { lcd: old(lcd)@, line: line@, trace: Seq::empty() }).run(
                limit as nat,
            );
            &&& final(lcd)@ == end.lcd
            &&& trace@ == end.trace
        }),
{
    let ghost start = Session { lcd: lcd@, line: line@, trace: Seq::empty() };
    let mut trace: Vec<Action> = Vec::new();
    let mut used: usize = 0;
    let mut asked: usize = 0;
    assert(line@.skip(0) =~= line@);
    while asked < limit
        invariant
            asked <= limit,
            used <= line.len(),
            start == (Session { lcd: old(lcd)@, line: line@, trace: Seq::empty() }),
            start.run(asked as nat) == (Session {
                lcd: lcd@,
                line: line@.skip(used as int),
                trace: trace@,
            }),
        decreases limit - asked,
    {
        let ghost before = start.run(asked as nat);
        proof {
            lemma_run_add(start, asked as nat, 1);
            assert(before.run(1) == before.step().run(0));
        }
        match lcd.next_action() {
            None => {
                proof {
                    let left = (limit - asked) as nat;
                    assert(before.lcd.idle());
                    lemma_run_idle(before, left);
                    lemma_run_add(start, asked as nat, left);
                    assert(asked as nat + left == limit as nat);
                    assert(start.run(limit as nat) == before.with_lcd(before.lcd.offer()));
                }
                return trace;
            },
            Some(action) => {
                if matches!(action, Action::SampleBusy) && used < line.len() {
                    lcd.busy_sampled(line[used]);
                    used += 1;
                    assert(line@.skip(used as int) =~= line@.skip(used - 1).skip(1));
                }
                trace.push(action);
                asked += 1;
            },
        }
    }
    trace
}

} // verus!
