use chipate::machine::cpu::Instruction;
use chipate::machine::cpu::CPU;
use chipate::machine::memory::RAM;
use chipate::machine::Font;
use chipate::DisplayState;
use chipate::KeyState;

struct TimerRig {
    cpu: CPU,
    memory: RAM,
    display: DisplayState,
    font: Font,
    keys: KeyState,
}

fn timer_rig() -> TimerRig {
    TimerRig {
        cpu: CPU::new(),
        memory: RAM::new(),
        display: DisplayState::new(),
        font: Font::default(),
        keys: KeyState::new(),
    }
}

fn timer_run(rig: &mut TimerRig, instruction: Instruction) {
    assert!(rig.cpu.can_execute(&instruction));
    rig.cpu.execute(instruction, &mut rig.memory, &mut rig.display, &rig.font, &rig.keys);
}

#[test]
fn timers_at_zero_stay_at_zero() {
    let mut cpu = CPU::new();
    for _ in 0..5 {
        cpu.dec_timers();
        assert_eq!(cpu.delay_timer(), 0);
        assert_eq!(cpu.sound_timer(), 0);
    }
}

#[test]
fn sixty_steps_bring_thirty_to_zero() {
    let mut rig = timer_rig();
    timer_run(&mut rig, Instruction::SetImmediate { v: 0, value: 30 });
    timer_run(&mut rig, Instruction::DelayTimerSet { v: 0 });
    assert_eq!(rig.cpu.delay_timer(), 30);
    for step in 1..=60u8 {
        rig.cpu.dec_timers();
        let expected = if step <= 30 { 30 - step } else { 0 };
        assert_eq!(rig.cpu.delay_timer(), expected);
    }
    assert_eq!(rig.cpu.delay_timer(), 0);
}

#[test]
fn both_timers_count_down_on_their_own() {
    let mut rig = timer_rig();
    timer_run(&mut rig, Instruction::SetImmediate { v: 0, value: 3 });
    timer_run(&mut rig, Instruction::SetImmediate { v: 1, value: 1 });
    timer_run(&mut rig, Instruction::DelayTimerSet { v: 0 });
    timer_run(&mut rig, Instruction::SoundTimerSet { v: 1 });
    assert_eq!(rig.cpu.delay_timer(), 3);
    assert_eq!(rig.cpu.sound_timer(), 1);
    rig.cpu.dec_timers();
    assert_eq!(rig.cpu.delay_timer(), 2);
    assert_eq!(rig.cpu.sound_timer(), 0);
    rig.cpu.dec_timers();
    assert_eq!(rig.cpu.delay_timer(), 1);
    assert_eq!(rig.cpu.sound_timer(), 0);
}

#[test]
fn a_timer_of_255_loses_one_per_step() {
    let mut rig = timer_rig();
    timer_run(&mut rig, Instruction::SetImmediate { v: 0, value: 255 });
    timer_run(&mut rig, Instruction::SoundTimerSet { v: 0 });
    rig.cpu.dec_timers();
    assert_eq!(rig.cpu.sound_timer(), 254);
}

#[test]
fn sound_is_playable_while_the_sound_timer_runs() {
    let mut rig = timer_rig();
    assert!(!rig.cpu.is_sound_playable());
    timer_run(&mut rig, Instruction::SetImmediate { v: 0, value: 2 });
    timer_run(&mut rig, Instruction::SoundTimerSet { v: 0 });
    assert!(rig.cpu.is_sound_playable());
    rig.cpu.dec_timers();
    assert!(rig.cpu.is_sound_playable());
    rig.cpu.dec_timers();
    assert!(!rig.cpu.is_sound_playable());
    // the delay timer plays no sound
    timer_run(&mut rig, Instruction::DelayTimerSet { v: 0 });
    assert!(!rig.cpu.is_sound_playable());
}

#[test]
fn the_delay_timer_is_read_into_a_register() {
    let mut rig = timer_rig();
    timer_run(&mut rig, Instruction::SetImmediate { v: 0, value: 9 });
    timer_run(&mut rig, Instruction::DelayTimerSet { v: 0 });
    rig.cpu.dec_timers();
    rig.cpu.dec_timers();
    timer_run(&mut rig, Instruction::SetImmediate { v: 5, value: 0xEE });
    timer_run(&mut rig, Instruction::DelayTimerLoad { v: 5 });
    assert_eq!(rig.cpu.register(5), 7);
    assert_eq!(rig.cpu.delay_timer(), 7);
    assert_eq!(rig.cpu.register(0), 9);
}

#[test]
fn ticks_do_not_touch_the_timers() {
    let mut rig = timer_rig();
    timer_run(&mut rig, Instruction::SetImmediate { v: 0, value: 9 });
    timer_run(&mut rig, Instruction::DelayTimerSet { v: 0 });
    timer_run(&mut rig, Instruction::SoundTimerSet { v: 0 });
    for _ in 0..20 {
        assert!(rig.cpu.can_tick(&rig.memory));
        rig.cpu.tick(&mut rig.memory, &mut rig.display, &rig.font, &rig.keys);
    }
    assert_eq!(rig.cpu.delay_timer(), 9);
    assert_eq!(rig.cpu.sound_timer(), 9);
}

#[test]
fn timer_steps_do_not_touch_the_rest() {
    let mut rig = timer_rig();
    timer_run(&mut rig, Instruction::SetImmediate { v: 3, value: 0x33 });
    timer_run(&mut rig, Instruction::SetIndex { value: 0x321 });
    timer_run(&mut rig, Instruction::SubroutineCall { address: 0x400 });
    rig.cpu.dec_timers();
    assert_eq!(rig.cpu.register(3), 0x33);
    assert_eq!(rig.cpu.index(), 0x321);
    assert_eq!(rig.cpu.program_counter(), 0x400);
    assert_eq!(rig.cpu.stack_depth(), 1);
    assert_eq!(rig.cpu.history_len(), 3);
}
