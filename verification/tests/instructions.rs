use chippers::cpu::Cpu;

#[test]
fn test_jump() {
    let mut cpu = Cpu::new();
    cpu.execute_instruction(0x1234).unwrap();
    assert_eq!(cpu.pc(), 0x234);
}

#[test]
fn test_return_sub() {
    let mut cpu = Cpu::new();
    cpu.push_return(0x222).unwrap();
    cpu.execute_instruction(0x00EE).unwrap();
    assert_eq!(cpu.pc(), 0x222);
}

#[test]
fn test_goto_sub() {
    let mut cpu = Cpu::new();
    cpu.set_pc(1);
    cpu.execute_instruction(0x2123).unwrap();
    assert_eq!(cpu.pc(), 0x123);
    assert_eq!(cpu.stack(0), 1);
}

#[test]
fn test_skip_equal() {
    let mut cpu = Cpu::new();
    cpu.set_reg(0, 0x01);
    cpu.execute_instruction(0x3001).unwrap();
    assert_eq!(cpu.pc(), 0x202);
}

#[test]
fn test_skip_not_equal() {
    let mut cpu = Cpu::new();
    cpu.set_reg(0, 0x02);
    cpu.execute_instruction(0x4001).unwrap();
    assert_eq!(cpu.pc(), 0x202);
}

#[test]
fn test_skip_vx_equal_vy() {
    let mut cpu = Cpu::new();
    cpu.set_reg(0, 1);
    cpu.set_reg(1, 1);
    cpu.execute_instruction(0x5010).unwrap();
    assert_eq!(cpu.pc(), 0x202);
}

#[test]
fn test_set_vx() {
    let mut cpu = Cpu::new();
    cpu.execute_instruction(0x6012).unwrap();
    assert_eq!(cpu.reg(0), 0x12);
}

#[test]
fn test_add_without_carry() {
    let mut cpu = Cpu::new();
    cpu.set_reg(1, 0x1);
    cpu.execute_instruction(0x7112).unwrap();
    assert_eq!(cpu.reg(1), 0x13);
    assert_eq!(cpu.reg(0xF), 0x0);
}

#[test]
fn test_set_vx_to_vy() {
    let mut cpu = Cpu::new();
    cpu.set_reg(0, 1);
    cpu.set_reg(1, 2);
    cpu.execute_instruction(0x8010).unwrap();
    assert_eq!(cpu.reg(0), 2);
}

#[test]
fn test_binary_or() {
    let mut cpu = Cpu::new();
    cpu.set_reg(0, 0b010);
    cpu.set_reg(1, 0b110);
    cpu.execute_instruction(0x8011).unwrap();
    assert_eq!(cpu.reg(0), 0b110);
}

#[test]
fn test_binary_and() {
    let mut cpu = Cpu::new();
    cpu.set_reg(0, 0b011);
    cpu.set_reg(1, 0b110);
    cpu.execute_instruction(0x8012).unwrap();
    assert_eq!(cpu.reg(0), 0b010);
}

#[test]
fn test_binary_xor() {
    let mut cpu = Cpu::new();
    cpu.set_reg(0, 0b011);
    cpu.set_reg(1, 0b111);
    cpu.execute_instruction(0x8013).unwrap();
    assert_eq!(cpu.reg(0), 0b100);
}

#[test]
fn test_add_with_carry() {
    let mut cpu = Cpu::new();
    cpu.set_reg(0, 128);
    cpu.set_reg(1, 128);
    cpu.execute_instruction(0x8014).unwrap();
    assert_eq!(cpu.reg(0), 0);
    assert_eq!(cpu.reg(0xF), 1);

    let mut cpu = Cpu::new();
    cpu.set_reg(0, 2);
    cpu.set_reg(1, 3);
    cpu.execute_instruction(0x8014).unwrap();
    assert_eq!(cpu.reg(0), 5);
    assert_eq!(cpu.reg(0xF), 0);
}

#[test]
fn test_sub_vy_from_vx() {
    let mut cpu = Cpu::new();
    cpu.set_reg(0, 4);
    cpu.set_reg(1, 2);
    cpu.execute_instruction(0x8015).unwrap();
    assert_eq!(cpu.reg(0), 2);
    assert_eq!(cpu.reg(0xF), 1);

    let mut cpu = Cpu::new();
    cpu.set_reg(0, 2);
    cpu.set_reg(1, 4);
    cpu.execute_instruction(0x8015).unwrap();
    assert_eq!(cpu.reg(0), 254);
    assert_eq!(cpu.reg(0xF), 0);
}

#[test]
fn test_shift_right() {
    let mut cpu = Cpu::new();
    cpu.set_reg(0, 0xFF);
    cpu.execute_instruction(0x8016).unwrap();
    assert_eq!(cpu.reg(0), 0x7F);
    assert_eq!(cpu.reg(0xF), 1);
}

#[test]
fn test_shift_left() {
    let mut cpu = Cpu::new();
    cpu.set_reg(0, 0xFF);
    cpu.execute_instruction(0x801E).unwrap();
    assert_eq!(cpu.reg(0), 0xFE);
    assert_eq!(cpu.reg(0xF), 1);
}

#[test]
fn test_skip_vx_not_equal_vy() {
    let mut cpu = Cpu::new();
    cpu.set_reg(0, 1);
    cpu.execute_instruction(0x9010).unwrap();
    assert_eq!(cpu.pc(), 0x202);
    cpu.set_reg(1, 1);
    cpu.execute_instruction(0x9010).unwrap();
    assert_eq!(cpu.pc(), 0x202);
}

#[test]
fn test_set_index() {
    let mut cpu = Cpu::new();
    cpu.execute_instruction(0xA123).unwrap();
    assert_eq!(cpu.index(), 0x123);
}

#[test]
fn test_jump_with_offset() {
    let mut cpu = Cpu::new();
    cpu.set_reg(0, 1);
    cpu.execute_instruction(0xB123).unwrap();
    assert_eq!(cpu.pc(), 0x124)
}

#[test]
fn test_draw() {
    let mut cpu = Cpu::new();
    cpu.load(0, &[1]).unwrap();
    assert_eq!(cpu.mem(0), 1);
}
