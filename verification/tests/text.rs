use chipate::machine::cpu::Instruction;

#[test]
fn instructions_without_operands() {
    assert_eq!(Instruction::ClearScreen.to_text(), "clear");
    assert_eq!(Instruction::SubroutineReturn.to_text(), "sub_ret");
}

#[test]
fn instructions_on_one_register() {
    assert_eq!(Instruction::AddIndex { v: 0 }.to_text(), "add_i v0");
    assert_eq!(Instruction::BcdConversion { v: 9 }.to_text(), "bcd_cnv v9");
    assert_eq!(Instruction::DelayTimerLoad { v: 10 }.to_text(), "delay_load v10");
    assert_eq!(Instruction::DelayTimerSet { v: 15 }.to_text(), "delay_set v15");
    assert_eq!(Instruction::GetKey { v: 3 }.to_text(), "get_key v3");
    assert_eq!(Instruction::LoadFontChar { v: 4 }.to_text(), "load_font_ch v4");
    assert_eq!(Instruction::SoundTimerSet { v: 5 }.to_text(), "sound_set v5");
    assert_eq!(Instruction::SkipIfKeyNotPressed { v: 6 }.to_text(), "skip_key v6");
    assert_eq!(Instruction::SkipIfKeyPressed { v: 7 }.to_text(), "skip_not_key v7");
}

#[test]
fn instructions_on_two_registers() {
    assert_eq!(Instruction::Add { vx: 1, vy: 2 }.to_text(), "add v1 v2");
    assert_eq!(Instruction::And { vx: 10, vy: 11 }.to_text(), "and v10 v11");
    assert_eq!(Instruction::Or { vx: 0, vy: 15 }.to_text(), "or v0 v15");
    assert_eq!(Instruction::Xor { vx: 3, vy: 3 }.to_text(), "xor v3 v3");
    assert_eq!(Instruction::SetRegister { vx: 4, vy: 5 }.to_text(), "set v4 v5");
    assert_eq!(Instruction::ShiftLeft { vx: 6, vy: 7 }.to_text(), "shift_l v6 v7");
    assert_eq!(Instruction::ShiftRight { vx: 8, vy: 9 }.to_text(), "shift_r v8 v9");
    assert_eq!(Instruction::SkipEqualReg { vx: 1, vy: 0 }.to_text(), "skip_eq_reg v1 v0");
    assert_eq!(Instruction::SkipNotEqualReg { vx: 12, vy: 13 }.to_text(), "skip_neq_reg v12 v13");
    assert_eq!(Instruction::Subtract { vx: 14, vy: 2 }.to_text(), "sub v14 v2");
    assert_eq!(Instruction::SubtractRev { vx: 2, vy: 14 }.to_text(), "sub_rev v2 v14");
}

#[test]
fn immediates_are_hexadecimal_with_two_digits_at_least() {
    assert_eq!(Instruction::AddRegister { v: 1, value: 0x0F }.to_text(), "add v1 0x0f");
    assert_eq!(Instruction::SetImmediate { v: 10, value: 0x00 }.to_text(), "set v10 0x00");
    assert_eq!(Instruction::SetImmediate { v: 10, value: 0xFF }.to_text(), "set v10 0xff");
    assert_eq!(Instruction::Random { v: 2, value: 0x10 }.to_text(), "rand v2 0x10");
    assert_eq!(Instruction::SkipEqual { v: 3, value: 0xA5 }.to_text(), "skip_eq v3 0xa5");
    assert_eq!(Instruction::SkipNotEqual { v: 3, value: 0x09 }.to_text(), "skip_neq v3 0x09");
    assert_eq!(Instruction::Display { vx: 1, vy: 2, pixels: 5 }.to_text(), "disp v1 v2 0x05");
    assert_eq!(Instruction::Display { vx: 1, vy: 2, pixels: 0xFF }.to_text(), "disp v1 v2 0xff");
}

#[test]
fn addresses_are_hexadecimal_and_as_long_as_needed() {
    assert_eq!(Instruction::Jump { address: 0x234 }.to_text(), "jump 0x234");
    assert_eq!(Instruction::Jump { address: 0x000 }.to_text(), "jump 0x00");
    assert_eq!(Instruction::Jump { address: 0x00A }.to_text(), "jump 0x0a");
    assert_eq!(Instruction::Jump { address: 0x0AB }.to_text(), "jump 0xab");
    assert_eq!(Instruction::Jump { address: 0xFFFF }.to_text(), "jump 0xffff");
    assert_eq!(Instruction::MachineLanguageRoutine { address: 0x123 }.to_text(), "mlr 0x123");
    assert_eq!(Instruction::SetIndex { value: 0xFFF }.to_text(), "set i 0xfff");
    assert_eq!(Instruction::SubroutineCall { address: 0x200 }.to_text(), "sub_call 0x200");
}

#[test]
fn counts_are_decimal() {
    assert_eq!(Instruction::Load { n: 0 }.to_text(), "load 0");
    assert_eq!(Instruction::Load { n: 15 }.to_text(), "load 15");
    assert_eq!(Instruction::Store { n: 7 }.to_text(), "store 7");
}

#[test]
fn made_up_register_numbers_are_written_out_in_full() {
    assert_eq!(Instruction::AddIndex { v: 16 }.to_text(), "add_i v16");
    assert_eq!(Instruction::AddIndex { v: 1009 }.to_text(), "add_i v1009");
    assert_eq!(
        Instruction::Add { vx: 1234567890, vy: 100 }.to_text(),
        "add v1234567890 v100"
    );
    assert_eq!(Instruction::Store { n: usize::MAX }.to_text(), format!("store {}", usize::MAX));
}

#[test]
fn the_text_agrees_with_the_formatting_of_the_standard_library() {
    for value in 0..=255u8 {
        assert_eq!(
            Instruction::SetImmediate { v: 0, value }.to_text(),
            format!("set v0 {:#04x}", value)
        );
    }
    for address in [0u16, 1, 15, 16, 255, 256, 0xFFF, 0x1000, 0xABCD, 0xFFFF] {
        assert_eq!(Instruction::Jump { address }.to_text(), format!("jump {:#04x}", address));
    }
    for v in [0usize, 9, 10, 99, 100, 12345] {
        assert_eq!(Instruction::GetKey { v }.to_text(), format!("get_key v{}", v));
    }
}
