use char_lcd::config::BusMode;
use char_lcd::instruction::Instruction;
use char_lcd::lcd::Lcd;
use char_lcd::machine::Stage;
use char_lcd::session::rehearse;
use char_lcd::transport::{
    begin_busy_poll, end_busy_poll, sample_busy, send_instruction, Action,
};

fn made_ready(mode: BusMode) -> Lcd {
    let mut lcd = Lcd::new(mode);
    rehearse(&mut lcd, &[false, false, false], usize::MAX);
    lcd
}

fn polled(mode: BusMode, looks: usize) -> Vec<Action> {
    let mut ops = Vec::new();
    begin_busy_poll(&mut ops);
    for _ in 0..looks {
        sample_busy(&mut ops, mode);
    }
    ops
}

#[test]
fn rehearsal_plays_the_power_on_program() {
    for mode in [BusMode::FourBit, BusMode::EightBit] {
        let mut lcd = Lcd::new(mode);
        let trace = rehearse(&mut lcd, &[false, false, false], usize::MAX);
        assert_eq!(trace.iter().filter(|a| **a == Action::SampleBusy).count(), 3);
        assert_eq!(trace[2], Action::DelayMs(50));
        assert_eq!(lcd.stage(), Stage::Ready);
        assert!(lcd.is_idle());
    }
}

#[test]
fn busy_line_that_clears_after_n_samples() {
    for mode in [BusMode::FourBit, BusMode::EightBit] {
        for busy in [0usize, 1, 2, 9] {
            let mut lcd = made_ready(mode);
            lcd.append_byte(b'!');
            let mut line = vec![true; busy];
            line.push(false);
            let trace = rehearse(&mut lcd, &line, usize::MAX);

            let mut expected = polled(mode, busy + 1);
            end_busy_poll(&mut expected);
            send_instruction(&mut expected, mode, Instruction::character(b'!'));
            assert_eq!(trace, expected);
            assert_eq!(trace.iter().filter(|a| **a == Action::SampleBusy).count(), busy + 1);
            assert!(lcd.is_idle());
        }
    }
}

#[test]
fn rehearsal_stops_at_the_limit() {
    let mut lcd = Lcd::new(BusMode::FourBit);
    let trace = rehearse(&mut lcd, &[], 3);
    assert_eq!(
        trace,
        vec![Action::RegisterSelect(false), Action::ReadWrite(false), Action::DelayMs(50)]
    );
    assert_eq!(lcd.stage(), Stage::Initializing);
    let more = rehearse(&mut lcd, &[], 1);
    assert_eq!(more, vec![Action::DataLine(7, false)]);
    assert_eq!(rehearse(&mut lcd, &[], 0), vec![]);
}

#[test]
fn line_that_never_clears_keeps_the_driver_polling() {
    let mode = BusMode::EightBit;
    let mut lcd = made_ready(mode);
    lcd.clear_display();
    let trace = rehearse(&mut lcd, &[true, true, true], 4 + 4 * 10);
    assert_eq!(trace, polled(mode, 10));
    assert!(!trace.contains(&Action::BusyLineOutput));
    assert!(!lcd.is_idle());
}

#[test]
fn line_without_levels_keeps_the_driver_polling() {
    let mode = BusMode::FourBit;
    let mut lcd = made_ready(mode);
    lcd.clear_display();
    let trace = rehearse(&mut lcd, &[], 4 + 7 * 5);
    assert_eq!(trace, polled(mode, 5));
}

#[test]
fn initialization_can_be_asked_for_again() {
    let mode = BusMode::FourBit;
    let mut first = Lcd::new(mode);
    let power_on = rehearse(&mut first, &[false; 3], usize::MAX);

    let mut lcd = made_ready(mode);
    lcd.clear_display();
    lcd.append_byte(b'x');
    lcd.initialize();
    assert_eq!(lcd.stage(), Stage::Initializing);
    let trace = rehearse(&mut lcd, &[false; 3], usize::MAX);
    assert_eq!(trace, power_on);
    assert_eq!(lcd.stage(), Stage::Ready);
}

#[test]
fn initialization_lets_the_step_at_hand_finish() {
    let mode = BusMode::EightBit;
    let mut first = Lcd::new(mode);
    let power_on = rehearse(&mut first, &[false; 3], usize::MAX);

    let mut lcd = made_ready(mode);
    lcd.clear_display();
    lcd.return_home();
    let begun = rehearse(&mut lcd, &[], 2);
    assert_eq!(begun, vec![Action::Indicator(true), Action::BusyLineInput]);
    lcd.initialize();
    let trace = rehearse(&mut lcd, &[false; 4], usize::MAX);

    let mut expected = polled(mode, 1)[2..].to_vec();
    end_busy_poll(&mut expected);
    send_instruction(&mut expected, mode, Instruction::clear_display());
    expected.extend(power_on);
    assert_eq!(trace, expected);
}
