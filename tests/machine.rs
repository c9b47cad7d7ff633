use farsign::machine::{
    MorseMachine, MorseTimelessMachine, MorseTimingMachine, TimerCommand, Transition,
    TRANSMIT_DELAY_MICROS,
};

#[test]
fn test_morse_dot() {
    let mut machine = MorseTimelessMachine::new();
    assert_eq!(machine.tick(), None);
    assert_eq!(
        machine.press().release().tick(),
        Some(Transition::Character('e' as u8))
    );
}

#[test]
fn test_morse_dash() {
    let mut machine = MorseTimelessMachine::new();
    machine.press().tick();
    assert_eq!(
        machine.release().tick(),
        Some(Transition::Character('t' as u8))
    );
}

#[test]
fn test_morse_multiple() {
    let mut machine = MorseTimelessMachine::new();
    machine.press().release().press().tick();
    assert_eq!(
        machine.release().tick(),
        Some(Transition::Character('a' as u8))
    );
}

#[test]
fn test_morse_transmit() {
    let mut machine = MorseTimelessMachine::new();
    assert_eq!(machine.press().tick(), Some(Transition::Long));
    assert_eq!(machine.tick(), Some(Transition::VeryLong));
    assert_eq!(machine.release().tick(), Some(Transition::Transmit));
}

#[test]
fn test_morse_no_transmit() {
    let mut machine = MorseTimelessMachine::new();
    machine.press().release();
    assert_eq!(machine.press().tick(), Some(Transition::Long));
    assert_eq!(machine.tick(), None);
    assert_eq!(machine.tick(), None);
    assert_eq!(
        machine.release().tick(),
        Some(Transition::Character('a' as u8))
    );
}

const DOT: u32 = 2;
const SHORT: u32 = DOT;
const VERY_LONG: u32 = 3 * DOT;
const IDLE: u32 = 3 * DOT;

fn ticks(machine: &mut MorseMachine, n: u32) -> Vec<Option<Transition>> {
    (0..n).map(|_| machine.tick()).collect()
}

#[test]
fn tap_with_no_thresholds_is_an_e() {
    let mut machine = MorseMachine::new(0);
    machine.press();
    machine.release();
    assert_eq!(machine.tick(), Some(Transition::Character('e' as u8)));
}

#[test]
fn tap_ends_as_an_e_after_the_idle_timeout() {
    let mut machine = MorseMachine::new(DOT);
    machine.press();
    machine.release();
    let out = ticks(&mut machine, IDLE + 1);
    assert!(out[..IDLE as usize].iter().all(|t| t.is_none()));
    assert_eq!(out[IDLE as usize], Some(Transition::Character('e' as u8)));
}

#[test]
fn held_press_is_a_t() {
    let mut machine = MorseMachine::new(DOT);
    machine.press();
    let held = ticks(&mut machine, SHORT + 1);
    assert_eq!(held[SHORT as usize], Some(Transition::Long));
    machine.release();
    let out = ticks(&mut machine, IDLE + 1);
    assert!(out[..IDLE as usize].iter().all(|t| t.is_none()));
    assert_eq!(out[IDLE as usize], Some(Transition::Character('t' as u8)));
}

#[test]
fn dot_then_dash_is_an_a() {
    let mut machine = MorseMachine::new(DOT);
    machine.press();
    machine.release();
    machine.press();
    ticks(&mut machine, SHORT + 1);
    machine.release();
    let out = ticks(&mut machine, IDLE + 1);
    assert_eq!(out[IDLE as usize], Some(Transition::Character('a' as u8)));
}

#[test]
fn very_long_hold_transmits() {
    let mut machine = MorseMachine::new(DOT);
    machine.press();
    let held = ticks(&mut machine, SHORT + 1);
    assert_eq!(held[SHORT as usize], Some(Transition::Long));
    let longer = ticks(&mut machine, VERY_LONG - SHORT);
    assert_eq!(
        longer[(VERY_LONG - SHORT - 1) as usize],
        Some(Transition::VeryLong)
    );
    assert!(longer[..(VERY_LONG - SHORT - 1) as usize].iter().all(|t| t.is_none()));
    machine.release();
    assert_eq!(machine.tick(), Some(Transition::Transmit));
}

#[test]
fn letter_under_way_never_becomes_very_long() {
    let mut machine = MorseMachine::new(DOT);
    machine.press();
    machine.release();
    machine.press();
    let held = ticks(&mut machine, SHORT + 1);
    assert_eq!(held[SHORT as usize], Some(Transition::Long));
    assert!(held[..SHORT as usize].iter().all(|t| t.is_none()));
    assert_eq!(machine.tick(), None);
    assert_eq!(machine.tick(), None);
    let much_longer = ticks(&mut machine, 4 * VERY_LONG);
    assert!(much_longer.iter().all(|t| t.is_none()));
    machine.release();
    let out = ticks(&mut machine, IDLE + 1);
    assert_eq!(out[IDLE as usize], Some(Transition::Character('a' as u8)));
}

#[test]
fn release_at_the_long_threshold_is_still_a_dot() {
    let mut machine = MorseMachine::new(DOT);
    machine.press();
    ticks(&mut machine, SHORT);
    machine.release();
    let out = ticks(&mut machine, IDLE + 1);
    assert_eq!(out[IDLE as usize], Some(Transition::Character('e' as u8)));
}

#[test]
fn release_at_the_very_long_threshold_is_still_a_dash() {
    let mut machine = MorseMachine::new(DOT);
    machine.press();
    ticks(&mut machine, VERY_LONG);
    machine.release();
    let out = ticks(&mut machine, IDLE + 1);
    assert_eq!(out[IDLE as usize], Some(Transition::Character('t' as u8)));
}

#[test]
fn letter_is_cleared_after_it_is_reported() {
    let mut machine = MorseMachine::new(DOT);
    machine.press();
    machine.release();
    ticks(&mut machine, IDLE + 1);
    machine.press();
    machine.release();
    let out = ticks(&mut machine, IDLE + 1);
    assert_eq!(out[IDLE as usize], Some(Transition::Character('e' as u8)));
    assert_eq!(machine.tick(), None);
}

#[test]
fn overflowing_letter_is_dropped() {
    let mut machine = MorseMachine::new(DOT);
    for _ in 0..4 {
        machine.press();
        machine.release();
    }
    machine.press();
    ticks(&mut machine, SHORT + 1);
    machine.release();
    let out = ticks(&mut machine, IDLE + 1);
    assert_eq!(out[IDLE as usize], Some(Transition::Character(0)));
}

#[test]
fn five_dots_key_the_transmit_command() {
    let mut machine = MorseMachine::new(DOT);
    for _ in 0..5 {
        machine.press();
        machine.release();
    }
    assert_eq!(machine.tick(), Some(Transition::Transmit));
}

#[test]
fn timing_machine_arms_timer_for_each_boundary() {
    let dot = 200_000;
    let mut machine = MorseTimingMachine::new(dot);
    assert_eq!(machine.press(), TimerCommand::Start(dot));
    assert_eq!(
        machine.tick(),
        (Some(Transition::Long), TimerCommand::Start(2 * dot))
    );
    assert_eq!(machine.release(), TimerCommand::Start(3 * dot));
    assert_eq!(
        machine.tick(),
        (Some(Transition::Character('t' as u8)), TimerCommand::Stop)
    );
}

#[test]
fn timing_machine_transmits_soon_after_very_long_release() {
    let mut machine = MorseTimingMachine::new(1_000);
    assert_eq!(machine.press(), TimerCommand::Start(1_000));
    assert_eq!(
        machine.tick(),
        (Some(Transition::Long), TimerCommand::Start(2_000))
    );
    assert_eq!(machine.tick(), (Some(Transition::VeryLong), TimerCommand::Stop));
    assert_eq!(machine.release(), TimerCommand::Start(TRANSMIT_DELAY_MICROS));
    assert_eq!(machine.tick(), (Some(Transition::Transmit), TimerCommand::Stop));
}

#[test]
fn timing_machine_keeps_timer_while_a_dash_is_held() {
    let mut machine = MorseTimingMachine::new(1_000);
    machine.press();
    machine.release();
    machine.press();
    assert_eq!(
        machine.tick(),
        (Some(Transition::Long), TimerCommand::Start(2_000))
    );
    assert_eq!(machine.tick(), (None, TimerCommand::Keep));
    assert_eq!(machine.release(), TimerCommand::Start(3_000));
    assert_eq!(
        machine.tick(),
        (Some(Transition::Character('a' as u8)), TimerCommand::Stop)
    );
}
