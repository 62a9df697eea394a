use char_lcd::config::BusMode;
use char_lcd::instruction::Instruction;
use char_lcd::lcd::{
    Blinking, Cursor, Direction, DisplayLines, DisplayOrCursor, DisplayShift, DisplayState, Lcd,
};
use char_lcd::machine::Stage;
use char_lcd::program::{append_power_on, Step};
use char_lcd::transport::{
    begin_busy_poll, end_busy_poll, sample_busy, select_register, send_instruction, send_strobe,
    Action,
};

/// A busy line that shows busy a given number of times before each clear.
struct Line {
    waits: Vec<usize>,
    at: usize,
    seen: usize,
    samples: usize,
}

impl Line {
    fn idle() -> Line {
        Line { waits: Vec::new(), at: 0, seen: 0, samples: 0 }
    }

    fn busy(waits: &[usize]) -> Line {
        Line { waits: waits.to_vec(), at: 0, seen: 0, samples: 0 }
    }

    fn sample(&mut self) -> bool {
        self.samples += 1;
        let wait = self.waits.get(self.at).copied().unwrap_or(0);
        if self.seen < wait {
            self.seen += 1;
            true
        } else {
            self.seen = 0;
            self.at += 1;
            false
        }
    }
}

/// Plays the driver until it is idle and returns what it asked for.
fn play(lcd: &mut Lcd, line: &mut Line) -> Vec<Action> {
    let mut trace = Vec::new();
    while let Some(action) = lcd.next_action() {
        if action == Action::SampleBusy {
            lcd.busy_sampled(line.sample());
        }
        trace.push(action);
    }
    trace
}

/// A driver that has completed its power-on program.
fn ready(mode: BusMode) -> Lcd {
    let mut lcd = Lcd::new(mode);
    play(&mut lcd, &mut Line::idle());
    lcd
}

/// What sending one instruction takes on a line that shows busy `busy` times.
fn sent(mode: BusMode, instruction: Instruction, busy: usize) -> Vec<Action> {
    let mut ops = Vec::new();
    begin_busy_poll(&mut ops);
    for _ in 0..busy + 1 {
        sample_busy(&mut ops, mode);
    }
    end_busy_poll(&mut ops);
    send_instruction(&mut ops, mode, instruction);
    ops
}

fn command(byte: u8) -> Instruction {
    Instruction { byte, register_select: false, read_write: false }
}

/// What a module makes of the actions: the instruction bytes it executes. The
/// module starts on eight lines; "function set" with the bit for eight lines
/// clear makes it read nibbles in pairs from then on.
fn executed(trace: &[Action]) -> Vec<Instruction> {
    let mut levels = [false; 8];
    let mut register_select = false;
    let mut read_write = false;
    let mut four_bit = false;
    let mut high: Option<u8> = None;
    let mut out = Vec::new();
    for action in trace {
        match *action {
            Action::RegisterSelect(level) => register_select = level,
            Action::ReadWrite(level) => read_write = level,
            Action::DataLine(line, level) => levels[line as usize] = level,
            Action::Enable(false) if !read_write => {
                let mut value = 0u8;
                for line in 0..8 {
                    if levels[line] {
                        value |= 1 << line;
                    }
                }
                let byte = if !four_bit {
                    Some(value)
                } else {
                    match high.take() {
                        None => {
                            high = Some(value & 0xF0);
                            None
                        }
                        Some(upper) => Some(upper | value >> 4),
                    }
                };
                if let Some(byte) = byte {
                    if !register_select && byte & 0xF0 == 0x20 {
                        four_bit = true;
                    }
                    out.push(Instruction { byte, register_select, read_write });
                }
            }
            _ => {}
        }
    }
    out
}

#[test]
fn new_driver_is_uninitialized() {
    let lcd = Lcd::new(BusMode::FourBit);
    assert_eq!(lcd.stage(), Stage::Uninitialized);
    assert_eq!(lcd.mode(), BusMode::FourBit);
    assert!(!lcd.is_idle());
}

#[test]
fn power_on_sequence_on_four_lines() {
    let mode = BusMode::FourBit;
    let mut lcd = Lcd::new(mode);
    let trace = play(&mut lcd, &mut Line::idle());

    let mut expected = Vec::new();
    select_register(&mut expected, false, false);
    expected.push(Action::DelayMs(50));
    send_strobe(&mut expected, mode, 0b0011);
    expected.push(Action::DelayMs(5));
    send_strobe(&mut expected, mode, 0b0011);
    expected.push(Action::DelayUs(150));
    send_strobe(&mut expected, mode, 0b0011);
    send_strobe(&mut expected, mode, 0b0010);
    expected.extend(sent(mode, command(0x20), 0));
    expected.extend(sent(mode, command(0x0C), 0));
    expected.extend(sent(mode, command(0x06), 0));
    assert_eq!(trace, expected);
    assert_eq!(lcd.stage(), Stage::Ready);
    assert!(lcd.is_idle());
}

#[test]
fn power_on_sequence_on_eight_lines() {
    let mode = BusMode::EightBit;
    let mut lcd = Lcd::new(mode);
    let trace = play(&mut lcd, &mut Line::idle());

    let mut expected = Vec::new();
    select_register(&mut expected, false, false);
    expected.push(Action::DelayMs(50));
    send_strobe(&mut expected, mode, 0b0011);
    expected.push(Action::DelayMs(5));
    send_strobe(&mut expected, mode, 0b0011);
    expected.push(Action::DelayUs(150));
    send_strobe(&mut expected, mode, 0b0011);
    expected.extend(sent(mode, command(0x30), 0));
    expected.extend(sent(mode, command(0x0C), 0));
    expected.extend(sent(mode, command(0x06), 0));
    assert_eq!(trace, expected);
    assert_eq!(lcd.stage(), Stage::Ready);
}

#[test]
fn power_on_starts_with_the_long_wait() {
    let mut lcd = Lcd::new(BusMode::FourBit);
    assert_eq!(lcd.next_action(), Some(Action::RegisterSelect(false)));
    assert_eq!(lcd.stage(), Stage::Initializing);
    assert_eq!(lcd.next_action(), Some(Action::ReadWrite(false)));
    assert_eq!(lcd.next_action(), Some(Action::DelayMs(50)));
    assert_eq!(lcd.next_action(), Some(Action::DataLine(7, false)));
    assert_eq!(lcd.next_action(), Some(Action::DataLine(6, false)));
    assert_eq!(lcd.next_action(), Some(Action::DataLine(5, true)));
    assert_eq!(lcd.next_action(), Some(Action::DataLine(4, true)));
    assert_eq!(lcd.next_action(), Some(Action::Enable(true)));
    assert_eq!(lcd.next_action(), Some(Action::DelayUs(1)));
    assert_eq!(lcd.next_action(), Some(Action::Enable(false)));
    assert_eq!(lcd.next_action(), Some(Action::DelayMs(5)));
    assert_eq!(lcd.stage(), Stage::Initializing);
}

#[test]
fn stage_turns_ready_with_the_last_action_of_power_on() {
    let mut lcd = Lcd::new(BusMode::EightBit);
    let mut line = Line::idle();
    let mut stages = Vec::new();
    while let Some(action) = lcd.next_action() {
        if action == Action::SampleBusy {
            lcd.busy_sampled(line.sample());
        }
        stages.push(lcd.stage());
    }
    let last = stages.len() - 1;
    assert!(stages[..last].iter().all(|stage| *stage == Stage::Initializing));
    assert_eq!(stages[last], Stage::Ready);
}

#[test]
fn operations_queued_during_power_on_wait_for_it() {
    let mode = BusMode::FourBit;
    let mut lcd = Lcd::new(mode);
    lcd.clear_display();
    assert_eq!(lcd.stage(), Stage::Uninitialized);
    let trace = play(&mut lcd, &mut Line::idle());
    let mut power_on = Lcd::new(mode);
    let mut expected = play(&mut power_on, &mut Line::idle());
    expected.extend(sent(mode, command(0x01), 0));
    assert_eq!(trace, expected);
    assert_eq!(lcd.stage(), Stage::Ready);
}

#[test]
fn idle_driver_asks_for_nothing() {
    let mut lcd = ready(BusMode::FourBit);
    assert_eq!(lcd.next_action(), None);
    assert_eq!(lcd.next_action(), None);
    assert!(lcd.is_idle());
    assert_eq!(lcd.stage(), Stage::Ready);
}

#[test]
fn single_instructions() {
    for mode in [BusMode::FourBit, BusMode::EightBit] {
        let mut lcd = ready(mode);
        lcd.clear_display();
        assert_eq!(play(&mut lcd, &mut Line::idle()), sent(mode, command(0x01), 0));
        lcd.return_home();
        assert_eq!(play(&mut lcd, &mut Line::idle()), sent(mode, command(0x02), 0));
        lcd.turn_display_off();
        assert_eq!(play(&mut lcd, &mut Line::idle()), sent(mode, command(0x08), 0));
        lcd.shift(DisplayOrCursor::Display, Direction::Left);
        assert_eq!(play(&mut lcd, &mut Line::idle()), sent(mode, command(0x18), 0));
        lcd.set_entry_mode(Direction::Left, DisplayShift::On);
        assert_eq!(play(&mut lcd, &mut Line::idle()), sent(mode, command(0x05), 0));
        lcd.configure_display(DisplayState::On, Cursor::On, Blinking::Off);
        assert_eq!(play(&mut lcd, &mut Line::idle()), sent(mode, command(0x0E), 0));
        lcd.append_byte(b'Q');
        assert_eq!(
            play(&mut lcd, &mut Line::idle()),
            sent(mode, Instruction::character(b'Q'), 0)
        );
        lcd.send(0x42, true, true);
        assert_eq!(
            play(&mut lcd, &mut Line::idle()),
            sent(mode, Instruction { byte: 0x42, register_select: true, read_write: true }, 0)
        );
    }
}

#[test]
fn set_function_follows_the_bus_width() {
    let mut lcd = ready(BusMode::FourBit);
    lcd.set_function(DisplayLines::Two);
    assert_eq!(
        play(&mut lcd, &mut Line::idle()),
        sent(BusMode::FourBit, command(0x28), 0)
    );
    let mut lcd = ready(BusMode::EightBit);
    lcd.set_function(DisplayLines::Two);
    assert_eq!(
        play(&mut lcd, &mut Line::idle()),
        sent(BusMode::EightBit, command(0x38), 0)
    );
}

#[test]
fn instructions_go_out_in_the_order_queued() {
    let mode = BusMode::FourBit;
    let mut lcd = ready(mode);
    lcd.clear_display();
    lcd.append_byte(b'a');
    lcd.return_home();
    let mut expected = sent(mode, command(0x01), 0);
    expected.extend(sent(mode, Instruction::character(b'a'), 0));
    expected.extend(sent(mode, command(0x02), 0));
    assert_eq!(play(&mut lcd, &mut Line::idle()), expected);
}

#[test]
fn busy_poll_samples_until_clear() {
    for mode in [BusMode::FourBit, BusMode::EightBit] {
        for busy in [0usize, 1, 2, 5, 40] {
            let mut lcd = ready(mode);
            lcd.clear_display();
            let mut line = Line::busy(&[busy]);
            let trace = play(&mut lcd, &mut line);
            assert_eq!(trace, sent(mode, command(0x01), busy));
            assert_eq!(line.samples, busy + 1);
            let samples = trace.iter().filter(|a| **a == Action::SampleBusy).count();
            assert_eq!(samples, busy + 1);
        }
    }
}

#[test]
fn four_bit_poll_discards_one_nibble_for_each_sample() {
    let busy = 3;
    let mut lcd = ready(BusMode::FourBit);
    lcd.return_home();
    let trace = play(&mut lcd, &mut Line::busy(&[busy]));
    let leave = trace.iter().position(|a| *a == Action::BusyLineOutput).unwrap();
    let pulses = trace[..leave].iter().filter(|a| **a == Action::Enable(true)).count();
    assert_eq!(pulses, 2 * (busy + 1));

    let mut lcd = ready(BusMode::EightBit);
    lcd.return_home();
    let trace = play(&mut lcd, &mut Line::busy(&[busy]));
    let leave = trace.iter().position(|a| *a == Action::BusyLineOutput).unwrap();
    let pulses = trace[..leave].iter().filter(|a| **a == Action::Enable(true)).count();
    assert_eq!(pulses, busy + 1);
}

#[test]
fn every_instruction_is_polled_for() {
    let mode = BusMode::FourBit;
    let mut lcd = ready(mode);
    lcd.clear_display();
    lcd.return_home();
    lcd.append_byte(b'x');
    let mut line = Line::busy(&[2, 0, 1]);
    let trace = play(&mut lcd, &mut line);
    let mut expected = sent(mode, command(0x01), 2);
    expected.extend(sent(mode, command(0x02), 0));
    expected.extend(sent(mode, Instruction::character(b'x'), 1));
    assert_eq!(trace, expected);
    assert_eq!(line.samples, 6);
}

#[test]
fn sample_that_is_not_reported_counts_as_busy() {
    let mode = BusMode::EightBit;
    let mut lcd = ready(mode);
    lcd.clear_display();
    let mut trace = Vec::new();
    let mut samples = 0;
    while let Some(action) = lcd.next_action() {
        if action == Action::SampleBusy {
            samples += 1;
            if samples == 3 {
                lcd.busy_sampled(false);
            }
        }
        trace.push(action);
    }
    assert_eq!(trace, sent(mode, command(0x01), 2));
}

#[test]
fn level_that_was_not_asked_for_is_ignored() {
    let mode = BusMode::EightBit;
    let mut lcd = ready(mode);
    lcd.busy_sampled(false);
    lcd.clear_display();
    lcd.busy_sampled(false);
    let mut trace = Vec::new();
    let mut samples = 0;
    while let Some(action) = lcd.next_action() {
        match action {
            Action::SampleBusy => {
                samples += 1;
                lcd.busy_sampled(samples < 2);
            }
            _ => lcd.busy_sampled(false),
        }
        trace.push(action);
    }
    assert_eq!(trace, sent(mode, command(0x01), 1));
}

#[test]
fn late_report_is_ignored() {
    let mode = BusMode::EightBit;
    let mut lcd = ready(mode);
    lcd.clear_display();
    let mut trace = Vec::new();
    let mut rounds = 0;
    let mut owed = false;
    while let Some(action) = lcd.next_action() {
        if owed {
            // the level of the first sample arrives one action late
            lcd.busy_sampled(false);
            owed = false;
        }
        if action == Action::SampleBusy {
            rounds += 1;
            if rounds == 1 {
                owed = true;
            } else {
                lcd.busy_sampled(false);
            }
        }
        trace.push(action);
    }
    assert_eq!(trace, sent(mode, command(0x01), 1));
}

#[test]
fn text_of_twenty_characters_on_the_lines() {
    let mode = BusMode::FourBit;
    let content = b"abcdefghijklmnopqrst";
    let mut lcd = ready(mode);
    lcd.set_str(content);
    let trace = play(&mut lcd, &mut Line::idle());

    let mut expected = sent(mode, command(0x01), 0);
    expected.extend(sent(mode, command(0x02), 0));
    for byte in &content[..16] {
        expected.extend(sent(mode, Instruction::character(*byte), 0));
    }
    expected.extend(sent(mode, command(0x07), 0));
    for byte in &content[16..] {
        expected.push(Action::DelayMs(500));
        expected.extend(sent(mode, Instruction::character(*byte), 0));
    }
    expected.extend(sent(mode, command(0x06), 0));
    assert_eq!(trace, expected);

    let pauses = trace.iter().filter(|a| matches!(a, Action::DelayMs(_))).count();
    assert_eq!(pauses, 4);
}

#[test]
fn short_text_on_the_lines_has_no_pause() {
    for mode in [BusMode::FourBit, BusMode::EightBit] {
        let content = b"sixteen letters!";
        assert_eq!(content.len(), 16);
        let mut lcd = ready(mode);
        lcd.set_str(content);
        let trace = play(&mut lcd, &mut Line::idle());
        assert!(!trace.iter().any(|a| matches!(a, Action::DelayMs(_))));
        let bytes: Vec<Instruction> = executed_after_power_on(mode, &trace);
        let mut expected = vec![command(0x01), command(0x02)];
        expected.extend(content.iter().map(|byte| Instruction::character(*byte)));
        expected.push(command(0x06));
        assert_eq!(bytes, expected);
    }
}

/// The instruction bytes of a trace that follows the power-on program.
fn executed_after_power_on(mode: BusMode, trace: &[Action]) -> Vec<Instruction> {
    let mut lcd = Lcd::new(mode);
    let mut whole = play(&mut lcd, &mut Line::idle());
    let skip = executed(&whole).len();
    whole.extend_from_slice(trace);
    executed(&whole)[skip..].to_vec()
}

#[test]
fn module_executes_the_power_on_program() {
    let mut lcd = Lcd::new(BusMode::FourBit);
    let trace = play(&mut lcd, &mut Line::idle());
    let bytes: Vec<u8> = executed(&trace).iter().map(|i| i.byte).collect();
    // three times "eight lines", then "four lines", read from the top four lines,
    // then the setup in pairs of nibbles
    assert_eq!(bytes, vec![0x30, 0x30, 0x30, 0x20, 0x20, 0x0C, 0x06]);

    let mut lcd = Lcd::new(BusMode::EightBit);
    let trace = play(&mut lcd, &mut Line::idle());
    let bytes: Vec<u8> = executed(&trace).iter().map(|i| i.byte).collect();
    assert_eq!(bytes, vec![0x30, 0x30, 0x30, 0x30, 0x0C, 0x06]);
}

#[test]
fn clear_and_home_after_power_on_keep_the_setup() {
    for mode in [BusMode::FourBit, BusMode::EightBit] {
        let mut lcd = Lcd::new(mode);
        lcd.clear_display();
        lcd.return_home();
        let trace = play(&mut lcd, &mut Line::busy(&[1, 0, 3, 2, 0]));
        let mut entry_mode = None;
        let mut display = None;
        for instruction in executed(&trace) {
            assert!(!instruction.register_select);
            let byte = instruction.byte;
            if byte & 0xFC == 0x04 {
                entry_mode = Some(byte & 0x03);
            } else if byte & 0xF8 == 0x08 {
                display = Some(byte & 0x07);
            }
        }
        // writing to the right without scrolling; display on, no cursor, no blinking
        assert_eq!(entry_mode, Some(0b10));
        assert_eq!(display, Some(0b100));
        let all = executed(&trace);
        assert_eq!(all[all.len() - 2..], [command(0x01), command(0x02)]);
    }
}

#[test]
fn power_on_program_matches_the_driver() {
    let mut steps = Vec::new();
    append_power_on(&mut steps, BusMode::FourBit);
    let sends = steps.iter().filter(|step| matches!(step, Step::Send(_))).count();
    let mut lcd = Lcd::new(BusMode::FourBit);
    let mut line = Line::idle();
    play(&mut lcd, &mut line);
    assert_eq!(line.samples, sends);
}
