use chip8emu::error::EmuError;
use chip8emu::instruction::AddV;
use chip8emu::instruction::Call;
use chip8emu::instruction::ClearScreen;
use chip8emu::instruction::CondEq;
use chip8emu::instruction::CondNeq;
use chip8emu::instruction::CondVEq;
use chip8emu::instruction::Decoded;
use chip8emu::instruction::Instruction;
use chip8emu::instruction::Jump;
use chip8emu::instruction::Return;
use chip8emu::instruction::SetV;
use chip8emu::instruction::VAddV;
use chip8emu::instruction::VAndV;
use chip8emu::instruction::VMinV;
use chip8emu::instruction::VOrV;
use chip8emu::instruction::VSetV;
use chip8emu::instruction::VXorV;
use chip8emu::instruction::decode;
use chip8emu::instruction::dispatch;
use chip8emu::mem::EmuState;
use chip8emu::mem::Registers;
use chip8emu::mem::SpritePos;
use chip8emu::mem::SpriteSize;
use chip8emu::mem::VideoRam;

fn fresh_state() -> EmuState {
    EmuState::new(VideoRam::new(), Vec::new(), Vec::new(), Registers::new())
}

#[test]
fn test_decode_table_yields_expected_variants() {
    assert_eq!(decode(0x00e0), Ok(Decoded::ClearScreen(ClearScreen {})));
    assert_eq!(decode(0x00ee), Ok(Decoded::Return(Return {})));
    assert_eq!(decode(0x1abc), Ok(Decoded::Jump(Jump { address: 0xabc })));
    assert_eq!(decode(0x2123), Ok(Decoded::Call(Call { address: 0x123 })));
    assert_eq!(
        decode(0x3a55),
        Ok(Decoded::CondEq(CondEq { register_num: 0xa, compare: 0x55 }))
    );
    assert_eq!(
        decode(0x4b66),
        Ok(Decoded::CondNeq(CondNeq { register_num: 0xb, compare: 0x66 }))
    );
    assert_eq!(
        decode(0x5ab0),
        Ok(Decoded::CondVEq(CondVEq { register_num1: 0xa, register_num2: 0xb }))
    );
    assert_eq!(decode(0x6c07), Ok(Decoded::SetV(SetV { register_num: 0xc, value: 0x07 })));
    assert_eq!(decode(0x7dff), Ok(Decoded::AddV(AddV { register_num: 0xd, value: 0xff })));
    assert_eq!(
        decode(0x8120),
        Ok(Decoded::VSetV(VSetV { register_num1: 1, register_num2: 2 }))
    );
    assert_eq!(
        decode(0x8341),
        Ok(Decoded::VOrV(VOrV { register_num1: 3, register_num2: 4 }))
    );
    assert_eq!(
        decode(0x8562),
        Ok(Decoded::VAndV(VAndV { register_num1: 5, register_num2: 6 }))
    );
    assert_eq!(
        decode(0x8783),
        Ok(Decoded::VXorV(VXorV { register_num1: 7, register_num2: 8 }))
    );
    assert_eq!(
        decode(0x89a4),
        Ok(Decoded::VAddV(VAddV { register_num1: 9, register_num2: 0xa }))
    );
    assert_eq!(
        decode(0x8bc5),
        Ok(Decoded::VMinV(VMinV { register_num1: 0xb, register_num2: 0xc }))
    );
}

#[test]
fn test_decode_outside_table_is_unimplemented() {
    for &w in &[0x0000u16, 0x0123, 0x00e1, 0x00ef, 0x5ab1, 0x8126, 0x812f, 0x9000, 0xabcd, 0xffff]
    {
        assert_eq!(decode(w), Err(EmuError::UnimplementedOpcode(w)));
    }
}

#[test]
fn test_extract_data_matches_decode() {
    let mut j = Jump::new();
    assert_eq!(j, Jump { address: 0 });
    j.extract_data(0x1fff);
    assert_eq!(j, Jump { address: 0xfff });

    let mut c = CondEq::new();
    c.extract_data(0x3f12);
    assert_eq!(c, CondEq { register_num: 0xf, compare: 0x12 });
}

#[test]
fn test_clear_screen_instruction() {
    let mut s = fresh_state();
    s.screen.draw(SpritePos { x: 0, y: 0 }, SpriteSize { width: 4, height: 4 }).unwrap();
    assert!(s.screen.get_matrx()[0][0]);

    dispatch(0x00e0, &mut s).unwrap();

    let m = s.screen.get_matrx();
    for x in 0..64 {
        for y in 0..32 {
            assert!(!m[x][y]);
        }
    }
}

#[test]
fn test_jump_call_return_round_trip() {
    let mut s = fresh_state();

    let mut j = Jump::new();
    j.extract_data(0x1abc);
    j.execute(&mut s).unwrap();
    assert_eq!(s.registers.instruction_pointer, 0xabc);

    let mut c = Call::new();
    c.extract_data(0x2123);
    c.execute(&mut s).unwrap();
    assert_eq!(s.stack, vec![0xabc]);
    assert_eq!(s.registers.instruction_pointer, 0x123);

    let r = Return::new();
    r.execute(&mut s).unwrap();
    assert_eq!(s.registers.instruction_pointer, 0xabc);
    assert!(s.stack.is_empty());
}

#[test]
fn test_return_on_empty_stack_underflows() {
    let mut s = fresh_state();
    s.registers.instruction_pointer = 77;

    let r = Return::new();
    assert_eq!(r.execute(&mut s), Err(EmuError::StackUnderflow));
    assert_eq!(s.registers.instruction_pointer, 77);

    assert_eq!(dispatch(0x00ee, &mut s), Err(EmuError::StackUnderflow));
    assert_eq!(s.registers.instruction_pointer, 77);
}

#[test]
fn test_skip_if_equal_immediate() {
    let mut s = fresh_state();
    dispatch(0x6507, &mut s).unwrap();
    assert_eq!(s.registers.variables[5], 7);

    dispatch(0x3507, &mut s).unwrap();
    assert_eq!(s.registers.instruction_pointer, 1);

    dispatch(0x3508, &mut s).unwrap();
    assert_eq!(s.registers.instruction_pointer, 1);

    dispatch(0x4508, &mut s).unwrap();
    assert_eq!(s.registers.instruction_pointer, 2);

    dispatch(0x4507, &mut s).unwrap();
    assert_eq!(s.registers.instruction_pointer, 2);
}

#[test]
fn test_skip_if_registers_equal() {
    let mut s = fresh_state();
    dispatch(0x6a21, &mut s).unwrap();
    dispatch(0x6b21, &mut s).unwrap();

    let ip = s.registers.instruction_pointer;
    dispatch(0x5ab0, &mut s).unwrap();
    assert_eq!(s.registers.instruction_pointer, ip + 1);

    dispatch(0x6b22, &mut s).unwrap();
    let ip = s.registers.instruction_pointer;
    dispatch(0x5ab0, &mut s).unwrap();
    assert_eq!(s.registers.instruction_pointer, ip);
}

#[test]
fn test_skip_wraps_at_address_space_top() {
    let mut s = fresh_state();
    s.registers.instruction_pointer = 0xffff;
    dispatch(0x3000, &mut s).unwrap();
    assert_eq!(s.registers.instruction_pointer, 0);
}

#[test]
fn test_add_immediate_wraps_without_carry() {
    let mut s = fresh_state();
    dispatch(0x63fa, &mut s).unwrap();
    dispatch(0x7304, &mut s).unwrap();
    assert_eq!(s.registers.variables[3], 254);
    assert!(!s.registers.carry_flag);

    dispatch(0x7304, &mut s).unwrap();
    assert_eq!(s.registers.variables[3], 2);
    assert!(!s.registers.carry_flag);
}

#[test]
fn test_add_registers_tracks_carry() {
    let mut s = fresh_state();
    dispatch(0x6305, &mut s).unwrap();
    dispatch(0x64fa, &mut s).unwrap();

    dispatch(0x8344, &mut s).unwrap();
    assert_eq!(s.registers.variables[3], 255);
    assert!(!s.registers.carry_flag);

    dispatch(0x8344, &mut s).unwrap();
    assert_eq!(s.registers.variables[3], 249);
    assert!(s.registers.carry_flag);
}

#[test]
fn test_subtract_registers_tracks_borrow() {
    let mut s = fresh_state();
    dispatch(0x6106, &mut s).unwrap();
    dispatch(0x620a, &mut s).unwrap();

    dispatch(0x8125, &mut s).unwrap();
    assert_eq!(s.registers.variables[1], 252);
    assert!(s.registers.carry_flag);

    dispatch(0x8125, &mut s).unwrap();
    assert_eq!(s.registers.variables[1], 242);
    assert!(!s.registers.carry_flag);
}

#[test]
fn test_dispatch_logic_family() {
    let mut s = fresh_state();
    dispatch(0x610c, &mut s).unwrap();
    dispatch(0x620a, &mut s).unwrap();

    dispatch(0x8120, &mut s).unwrap();
    assert_eq!(s.registers.variables[1], 0x0a);

    dispatch(0x610c, &mut s).unwrap();
    dispatch(0x8121, &mut s).unwrap();
    assert_eq!(s.registers.variables[1], 0x0e);

    dispatch(0x610c, &mut s).unwrap();
    dispatch(0x8122, &mut s).unwrap();
    assert_eq!(s.registers.variables[1], 0x08);

    dispatch(0x610c, &mut s).unwrap();
    dispatch(0x8123, &mut s).unwrap();
    assert_eq!(s.registers.variables[1], 0x06);

    assert!(!s.registers.carry_flag);
}

#[test]
fn test_dispatch_unimplemented_changes_nothing() {
    let mut s = fresh_state();
    dispatch(0x6305, &mut s).unwrap();
    let ip = s.registers.instruction_pointer;

    assert_eq!(dispatch(0xf123, &mut s), Err(EmuError::UnimplementedOpcode(0xf123)));
    assert_eq!(s.registers.instruction_pointer, ip);
    assert_eq!(s.registers.variables[3], 5);
    assert!(s.stack.is_empty());
}
