use riscv_emu::alu::{alu, branch_taken};
use riscv_emu::cpu::{Cpu, CpuConfig, StepEvent};
use riscv_emu::debugger::DebugConfig;
use riscv_emu::devices::DeviceConfig;
use riscv_emu::error::{DeviceFault, EmuError};
use riscv_emu::inst::{BranchOp, DecodeError, RegOp};
use riscv_emu::memory::MemoryConfig;
use riscv_emu::tools::binary_builder::BinaryBuilder;

const UART_BASE: usize = 0x8200_0000;
const TIMER_BASE: usize = 0x8200_0100;
const WAVE_BASE: usize = 0x8200_0200;
const DISPLAY_BASE: usize = 0x8200_0300;

fn devices(enabled: bool) -> DeviceConfig {
    DeviceConfig {
        uart_enabled: enabled,
        uart_base: UART_BASE,
        timer_enabled: enabled,
        timer_base: TIMER_BASE,
        timer_auto_reload: false,
        timer_interrupt: false,
        wave_enabled: enabled,
        wave_base: WAVE_BASE,
        wave_output: String::from("wave.txt"),
        wave_sample_rate: 1000,
        display_enabled: enabled,
        display_base: DISPLAY_BASE,
        display_title: String::from("display"),
    }
}

fn config(enabled: bool) -> CpuConfig {
    CpuConfig {
        memory: MemoryConfig { size: 0x0200_0000 },
        devices: devices(enabled),
        debug: DebugConfig {
            instruction_trace: true,
            memory_trace: true,
            register_trace: false,
            single_step: false,
            trace_limit: 16,
        },
    }
}

fn cpu_with(words: &[u32], enabled: bool) -> Cpu {
    let mut builder = BinaryBuilder::new();
    for w in words {
        builder.add_instruction(*w);
    }
    let mut cpu = Cpu::new(config(enabled));
    cpu.load_program(builder.bytes()).unwrap();
    cpu
}

fn run(cpu: &mut Cpu, steps: usize) {
    for _ in 0..steps {
        assert_eq!(cpu.step(), Ok(StepEvent::Continue));
    }
}

#[test]
fn test_create_simple_program() {
    let mut builder = BinaryBuilder::new();
    builder.add_instruction(0x00500093);
    builder.add_instruction(0x00300113);
    builder.add_instruction(0x002081b3);
    assert_eq!(
        builder.bytes(),
        &[0x93, 0x00, 0x50, 0x00, 0x13, 0x01, 0x30, 0x00, 0xb3, 0x81, 0x20, 0x00][..]
    );
}

#[test]
fn add_program_runs_three_steps() {
    let mut cpu = cpu_with(&[0x00500093, 0x00300113, 0x002081b3], true);
    run(&mut cpu, 3);
    assert_eq!(cpu.read_register(1), 5);
    assert_eq!(cpu.read_register(2), 3);
    assert_eq!(cpu.read_register(3), 8);
    assert_eq!(cpu.get_pc(), 0x8000_000C);
}

#[test]
fn srai_shifts_in_sign_bits() {
    let mut cpu = cpu_with(&[0xfff00293, 0x4012d313], true);
    run(&mut cpu, 2);
    assert_eq!(cpu.read_register(6), 0xFFFF_FFFF);
}

#[test]
fn srli_shifts_in_zeros() {
    let mut cpu = cpu_with(&[0xfff00293, 0x0012d313], true);
    run(&mut cpu, 2);
    assert_eq!(cpu.read_register(6), 0x7FFF_FFFF);
}

#[test]
fn lui_then_negative_addi() {
    let mut cpu = cpu_with(&[0xabcde3b7, 0xfff38393], true);
    run(&mut cpu, 2);
    assert_eq!(cpu.read_register(7), 0xABCD_DFFF);
}

#[test]
fn beq_not_taken_falls_through() {
    let mut cpu = cpu_with(&[0x00100093, 0x00008463, 0x00700113, 0x00900193], true);
    run(&mut cpu, 4);
    assert_eq!(cpu.read_register(2), 7);
    assert_eq!(cpu.read_register(3), 9);
    assert_eq!(cpu.get_pc(), 0x8000_0010);
}

#[test]
fn uart_store_byte_reaches_host() {
    // lui x2, 0x82000; addi x1, x0, 0x41; sb x1, 0(x2)
    let mut cpu = cpu_with(&[0x82000137, 0x04100093, 0x00110023], true);
    run(&mut cpu, 3);
    assert_eq!(cpu.take_uart_output(), vec![b'A']);
    assert_eq!(cpu.take_uart_output(), Vec::<u8>::new());
}

#[test]
fn x0_stays_zero() {
    // addi x0, x0, 5
    let mut cpu = cpu_with(&[0x00500013], true);
    run(&mut cpu, 1);
    assert_eq!(cpu.read_register(0), 0);
    assert_eq!(cpu.registers()[0], 0);
}

#[test]
fn beq_taken_skips() {
    // beq x0, x0, +8; addi x3, x0, 9; addi x2, x0, 7
    let mut cpu = cpu_with(&[0x00000463, 0x00900193, 0x00700113], true);
    run(&mut cpu, 1);
    assert_eq!(cpu.get_pc(), 0x8000_0008);
    run(&mut cpu, 1);
    assert_eq!(cpu.read_register(3), 0);
    assert_eq!(cpu.read_register(2), 7);
    assert_eq!(cpu.get_pc(), 0x8000_000C);
}

#[test]
fn signed_and_unsigned_branches_differ() {
    assert!(branch_taken(BranchOp::Lt, 0xFFFF_FFFF, 1));
    assert!(!branch_taken(BranchOp::Ltu, 0xFFFF_FFFF, 1));
    assert!(branch_taken(BranchOp::Geu, 0xFFFF_FFFF, 1));
    assert!(!branch_taken(BranchOp::Ge, 0xFFFF_FFFF, 1));
    assert!(branch_taken(BranchOp::Ge, 5, 5));
    assert!(branch_taken(BranchOp::Eq, 5, 5));
    assert!(!branch_taken(BranchOp::Ne, 5, 5));
    assert!(branch_taken(BranchOp::Lt, 0x8000_0000, 0x7FFF_FFFF));
}

#[test]
fn alu_table() {
    assert_eq!(alu(RegOp::Add, 0xFFFF_FFFF, 2), 1);
    assert_eq!(alu(RegOp::Sub, 1, 2), 0xFFFF_FFFF);
    assert_eq!(alu(RegOp::And, 0b1100, 0b1010), 0b1000);
    assert_eq!(alu(RegOp::Or, 0b1100, 0b1010), 0b1110);
    assert_eq!(alu(RegOp::Xor, 0b1100, 0b1010), 0b0110);
    assert_eq!(alu(RegOp::Sll, 1, 33), 2);
    assert_eq!(alu(RegOp::Srl, 0x8000_0000, 31), 1);
    assert_eq!(alu(RegOp::Sra, 0x8000_0000, 31), 0xFFFF_FFFF);
    assert_eq!(alu(RegOp::Sra, 0x4000_0000, 30), 1);
    assert_eq!(alu(RegOp::Slt, 0xFFFF_FFFF, 0), 1);
    assert_eq!(alu(RegOp::Sltu, 0xFFFF_FFFF, 0), 0);
    assert_eq!(alu(RegOp::Slti, 3, 0xFFFF_FFFD), 0);
}
