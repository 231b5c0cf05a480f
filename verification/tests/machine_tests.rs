use chip8emu::error::EmuError;
use chip8emu::mem::EmuState;
use chip8emu::mem::Registers;
use chip8emu::mem::VideoRam;

fn fresh_state() -> EmuState {
    EmuState::new(VideoRam::new(), Vec::new(), Vec::new(), Registers::new())
}

#[test]
fn test_registers_start_zeroed() {
    let regs = Registers::new();
    assert_eq!(regs.variables, vec![0u8; 16]);
    assert_eq!(regs.instruction_pointer, 0);
    assert!(!regs.carry_flag);
}

#[test]
fn test_set_then_get_round_trip() {
    let mut regs = Registers::new();
    for i in 0..16u8 {
        regs.set(i, i + 100).unwrap();
    }
    for i in 0..16u8 {
        assert_eq!(regs.get(i).unwrap(), i + 100);
    }
}

#[test]
fn test_out_of_range_register_index() {
    let mut regs = Registers::new();
    assert_eq!(regs.set(16, 1), Err(EmuError::RegisterIndexOutOfRange));
    assert_eq!(regs.get(16), Err(EmuError::RegisterIndexOutOfRange));
    assert_eq!(regs.get(255), Err(EmuError::RegisterIndexOutOfRange));
    assert_eq!(regs.or(0, 16), Err(EmuError::RegisterIndexOutOfRange));
    assert_eq!(regs.and(16, 0), Err(EmuError::RegisterIndexOutOfRange));
    assert_eq!(regs.xor(16, 16), Err(EmuError::RegisterIndexOutOfRange));
    assert_eq!(regs.copy(99, 0), Err(EmuError::RegisterIndexOutOfRange));
    assert_eq!(regs.variables, vec![0u8; 16]);
}

#[test]
fn test_reset_zeroes_everything() {
    let mut regs = Registers::new();
    regs.set(3, 77).unwrap();
    regs.instruction_pointer = 333;
    regs.carry_flag = true;
    regs.reset();
    for i in 0..16u8 {
        assert_eq!(regs.get(i).unwrap(), 0);
    }
    assert_eq!(regs.instruction_pointer, 0);
    assert!(!regs.carry_flag);
}

#[test]
fn test_carry_add_sets_and_clears_flag() {
    let mut regs = Registers::new();

    let r = regs.carry_add(100, 100);
    assert_eq!(r, 200);
    assert!(!regs.carry_flag);

    let r = regs.carry_add(200, 100);
    assert_eq!(r, 44);
    assert!(regs.carry_flag);

    let r = regs.carry_add(255, 1);
    assert_eq!(r, 0);
    assert!(regs.carry_flag);

    let r = regs.carry_add(1, 2);
    assert_eq!(r, 3);
    assert!(!regs.carry_flag);
}

#[test]
fn test_borrow_sub_sets_and_clears_flag() {
    let mut regs = Registers::new();

    let r = regs.borrow_sub(5, 3);
    assert_eq!(r, 2);
    assert!(!regs.carry_flag);

    let r = regs.borrow_sub(3, 5);
    assert_eq!(r, 254);
    assert!(regs.carry_flag);

    let r = regs.borrow_sub(0, 0);
    assert_eq!(r, 0);
    assert!(!regs.carry_flag);
}

#[test]
fn test_register_logic_ops() {
    let mut regs = Registers::new();
    regs.set(1, 0b1100).unwrap();
    regs.set(2, 0b1010).unwrap();

    regs.or(1, 2).unwrap();
    assert_eq!(regs.variables[1], 0b1110);

    regs.set(1, 0b1100).unwrap();
    regs.and(1, 2).unwrap();
    assert_eq!(regs.variables[1], 0b1000);

    regs.set(1, 0b1100).unwrap();
    regs.xor(1, 2).unwrap();
    assert_eq!(regs.variables[1], 0b0110);

    regs.copy(3, 2).unwrap();
    assert_eq!(regs.variables[3], 0b1010);

    assert!(!regs.carry_flag);
    assert_eq!(regs.instruction_pointer, 0);
}

#[test]
fn test_state_composes_from_parts() {
    let s = fresh_state();
    assert!(s.loaded_rom.is_empty());
    assert!(s.stack.is_empty());
    assert_eq!(s.registers.instruction_pointer, 0);
}

#[test]
fn test_load_rom_sets_base_and_keeps_the_rest() {
    let mut s = fresh_state();
    s.registers.set(0, 9).unwrap();
    s.stack.push(0x321);
    s.load_rom(vec![1, 2, 3]);
    assert_eq!(s.loaded_rom, vec![1, 2, 3]);
    assert_eq!(s.registers.instruction_pointer, 512);
    assert_eq!(s.registers.variables[0], 9);
    assert_eq!(s.stack, vec![0x321]);
}

#[test]
fn test_from_parts_with_rom() {
    let s = EmuState::from(
        VideoRam::new(),
        vec![0u8; 4],
        Vec::new(),
        Registers::new(),
        vec![0xaa, 0xbb],
    );
    assert_eq!(s.registers.instruction_pointer, 512);
    assert_eq!(s.loaded_rom, vec![0xaa, 0xbb]);
    assert_eq!(s.ram, vec![0u8; 4]);
}

#[test]
fn test_machine_reset_keeps_program_and_screen() {
    let mut s = fresh_state();
    s.load_rom(vec![7, 8]);
    s.registers.set(4, 44).unwrap();
    s.registers.carry_flag = true;
    s.stack.push(5);
    s.screen.draw(
        chip8emu::mem::SpritePos { x: 1, y: 1 },
        chip8emu::mem::SpriteSize { width: 1, height: 1 },
    )
    .unwrap();

    s.reset();

    assert_eq!(s.registers.variables, vec![0u8; 16]);
    assert_eq!(s.registers.instruction_pointer, 0);
    assert!(!s.registers.carry_flag);
    assert_eq!(s.loaded_rom, vec![7, 8]);
    assert_eq!(s.stack, vec![5]);
    assert!(s.screen.get_matrx()[1][1]);
}
