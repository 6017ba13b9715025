use riscv_emu::cpu::{Cpu, CpuConfig, StepEvent};
use riscv_emu::debugger::DebugConfig;
use riscv_emu::devices::DeviceConfig;
use riscv_emu::error::{DeviceFault, EmuError};
use riscv_emu::inst::DecodeError;
use riscv_emu::memory::MemoryConfig;
use riscv_emu::tools::binary_builder::BinaryBuilder;

fn devices(enabled: bool) -> DeviceConfig {
    DeviceConfig {
        uart_enabled: enabled,
        uart_base: 0x8200_0000,
        timer_enabled: enabled,
        timer_base: 0x8200_0100,
        timer_auto_reload: false,
        timer_interrupt: true,
        wave_enabled: enabled,
        wave_base: 0x8200_0200,
        wave_output: String::from("wave.txt"),
        wave_sample_rate: 1000,
        display_enabled: enabled,
        display_base: 0x8200_0300,
        display_title: String::from("display"),
    }
}

fn machine(words: &[u32], enabled: bool) -> Cpu {
    let mut builder = BinaryBuilder::new();
    for w in words {
        builder.add_instruction(*w);
    }
    let mut cpu = Cpu::new(CpuConfig {
        memory: MemoryConfig { size: 0x0200_0000 },
        devices: devices(enabled),
        debug: DebugConfig {
            instruction_trace: false,
            memory_trace: false,
            register_trace: false,
            single_step: false,
            trace_limit: 16,
        },
    });
    assert_eq!(cpu.load_program(builder.bytes()), Ok(()));
    assert_eq!(cpu.get_pc(), 0x8000_0000);
    cpu
}

fn steps(cpu: &mut Cpu, n: usize) {
    for _ in 0..n {
        assert_eq!(cpu.step(), Ok(StepEvent::Continue));
    }
}

#[test]
fn signed_and_unsigned_loads() {
    // lui x2,0x81000; addi x1,x0,-128; sw x1,0(x2); lb x4; lh x5; lbu x6; lhu x7
    let mut cpu = machine(
        &[0x81000137, 0xf8000093, 0x00112023, 0x00010203, 0x00011283, 0x00014303, 0x00015383],
        true,
    );
    steps(&mut cpu, 7);
    assert_eq!(cpu.read_register(1), 0xFFFF_FF80);
    assert_eq!(cpu.read_register(4), 0xFFFF_FF80);
    assert_eq!(cpu.read_register(5), 0xFFFF_FF80);
    assert_eq!(cpu.read_register(6), 0x80);
    assert_eq!(cpu.read_register(7), 0xFF80);
    assert_eq!(cpu.dump_memory(0x8100_0000, 4), vec![0x80, 0xFF, 0xFF, 0xFF]);
}

#[test]
fn store_word_then_load_word() {
    // lui x2,0x81000; lui x1,0x12348; sw x1,0(x2); lw x3,0(x2)
    let mut cpu = machine(&[0x81000137, 0x123480b7, 0x00112023, 0x00012183], true);
    steps(&mut cpu, 4);
    assert_eq!(cpu.read_register(3), 0x1234_8000);
}

#[test]
fn misaligned_load_faults_without_change() {
    // lw x1, 2(x0)
    let mut cpu = machine(&[0x00202083], true);
    assert_eq!(cpu.step(), Err(EmuError::MisalignedAccess));
    assert_eq!(cpu.get_pc(), 0x8000_0000);
    assert_eq!(cpu.read_register(1), 0);
}

#[test]
fn misaligned_halfword_store_faults() {
    // lui x2,0x81000; sh x1,3(x2)
    let mut cpu = machine(&[0x81000137, 0x001111a3], true);
    steps(&mut cpu, 1);
    assert_eq!(cpu.step(), Err(EmuError::MisalignedAccess));
    assert_eq!(cpu.get_pc(), 0x8000_0004);
}

#[test]
fn misaligned_jump_target_faults() {
    // jal x0, +2
    let mut cpu = machine(&[0x0020006f], true);
    assert_eq!(cpu.step(), Err(EmuError::UnalignedPc));
    assert_eq!(cpu.get_pc(), 0x8000_0000);
}

#[test]
fn exit_syscall_reports_code() {
    // addi x10,x0,7; addi x17,x0,93; ecall
    let mut cpu = machine(&[0x00700513, 0x05d00893, 0x00000073], true);
    steps(&mut cpu, 2);
    let r = cpu.step();
    assert_eq!(r, Err(EmuError::ProgramExit { code: 7 }));
    assert_eq!(r.unwrap_err().exit_code(), 7);
}

#[test]
fn write_and_unknown_syscalls_continue() {
    // addi x10,x0,7; addi x17,x0,64; ecall; ecall with a7 = 0 after addi x17,x0,0
    let mut cpu = machine(&[0x00700513, 0x04000893, 0x00000073, 0x00000893, 0x00000073], true);
    steps(&mut cpu, 2);
    assert_eq!(cpu.step(), Ok(StepEvent::WriteSyscall { value: 7 }));
    steps(&mut cpu, 1);
    assert_eq!(cpu.step(), Ok(StepEvent::UnknownSyscall { number: 0 }));
    assert_eq!(cpu.get_pc(), 0x8000_0014);
}

#[test]
fn ebreak_stops_cleanly() {
    let mut cpu = machine(&[0x00100073], true);
    let r = cpu.step();
    assert_eq!(r, Err(EmuError::BreakpointHit));
    assert_eq!(r.unwrap_err().exit_code(), 0);
    assert_eq!(EmuError::OutOfBounds.exit_code(), 1);
}

#[test]
fn unknown_word_is_a_decode_error() {
    let mut cpu = machine(&[0x0000_0000], true);
    assert_eq!(cpu.step(), Err(EmuError::DecodeError(DecodeError::UnknownOpcode)));
}

#[test]
fn fetch_outside_memory_faults() {
    let mut cpu = machine(&[], true);
    assert_eq!(cpu.set_pc(0x0000_1000), Ok(()));
    assert_eq!(cpu.step(), Err(EmuError::OutOfBounds));
    assert_eq!(cpu.set_pc(0x8000_0002), Err(EmuError::UnalignedPc));
    assert_eq!(cpu.get_pc(), 0x0000_1000);
}

#[test]
fn disabled_device_refuses_access() {
    let mut cpu = machine(&[0x82000137, 0x04100093, 0x00110023], false);
    steps(&mut cpu, 2);
    assert_eq!(cpu.step(), Err(EmuError::DeviceDisabled));
    assert_eq!(cpu.take_uart_output(), Vec::<u8>::new());
}

#[test]
fn unclaimed_device_address_faults() {
    // lui x2,0x83000; sw x1,0(x2)
    let mut cpu = machine(&[0x83000137, 0x00112023], true);
    steps(&mut cpu, 1);
    assert_eq!(cpu.step(), Err(EmuError::DeviceError(DeviceFault::Unmapped)));
}

#[test]
fn uart_refuses_word_access() {
    // lui x2,0x82000; sw x1,0(x2)
    let mut cpu = machine(&[0x82000137, 0x00112023], true);
    steps(&mut cpu, 1);
    assert_eq!(cpu.step(), Err(EmuError::DeviceError(DeviceFault::UnsupportedWidth)));
}

#[test]
fn auipc_adds_pc() {
    let mut cpu = machine(&[0x00001297], true);
    steps(&mut cpu, 1);
    assert_eq!(cpu.read_register(5), 0x8000_1000);
}

#[test]
fn jal_and_jalr_link_and_jump() {
    // lui x5,0x80000; jalr x1,12(x5); (skipped); jal x3,-8
    let mut cpu = machine(&[0x800002b7, 0x00c280e7, 0x00000013, 0xff9ff1ef], true);
    steps(&mut cpu, 2);
    assert_eq!(cpu.read_register(1), 0x8000_0008);
    assert_eq!(cpu.get_pc(), 0x8000_000C);
    steps(&mut cpu, 1);
    assert_eq!(cpu.read_register(3), 0x8000_0010);
    assert_eq!(cpu.get_pc(), 0x8000_0004);
}

#[test]
fn timer_ticks_once_per_step_and_raises_interrupt() {
    // lui x2,0x82000; addi x1,x0,3; sw x1,0x108(x2) (compare=3); addi x1,x0,1|2; sw x1,0x104(x2)
    let mut cpu = machine(
        &[0x82000137, 0x00300093, 0x10112423, 0x00300093, 0x10112223, 0x00000013, 0x00000013],
        true,
    );
    steps(&mut cpu, 5);
    assert_eq!(cpu.check_interrupts(), 0);
    steps(&mut cpu, 1);
    assert_eq!(cpu.check_interrupts(), 0);
    steps(&mut cpu, 1);
    assert_eq!(cpu.check_interrupts(), 1);
    let mut more = machine(&[0x00000013; 4], true);
    steps(&mut more, 4);
    assert_eq!(more.check_interrupts(), 0);
}

#[test]
fn tracer_records_fetches_and_instructions() {
    let mut builder = BinaryBuilder::new();
    builder.add_instruction(0x00500093);
    builder.add_instruction(0x00300113);
    builder.add_instruction(0x002081b3);
    let mut cpu = Cpu::new(CpuConfig {
        memory: MemoryConfig { size: 0x0100_0000 },
        devices: devices(false),
        debug: DebugConfig {
            instruction_trace: true,
            memory_trace: true,
            register_trace: true,
            single_step: false,
            trace_limit: 2,
        },
    });
    cpu.load_program(builder.bytes()).unwrap();
    steps(&mut cpu, 3);
    let history = cpu.debugger().instruction_history();
    assert_eq!(history.len(), 2);
    assert_eq!(history[0].pc, 0x8000_0004);
    assert_eq!(history[1].inst, 0x002081b3);
    assert_eq!(cpu.debugger().memory_history().len(), 2);
    assert_eq!(cpu.take_trace_events().len(), 6);
    assert_eq!(cpu.take_trace_events().len(), 0);
    cpu.set_itrace(false);
    cpu.set_mtrace(false);
    cpu.set_regtrace(false);
    cpu.set_single_step(true);
    assert!(cpu.debugger().single_step);
    assert!(!cpu.debugger().regtrace_enabled);
}

#[test]
fn jalr_clears_the_low_bit() {
    // lui x5,0x80000; addi x5,x5,13; jalr x0,0(x5)
    let mut cpu = machine(&[0x800002b7, 0x00d28293, 0x00028067, 0x00000013], true);
    steps(&mut cpu, 3);
    assert_eq!(cpu.get_pc(), 0x8000_000C);
    assert_eq!(cpu.get_pc() % 4, 0);
}

#[test]
fn jalr_to_halfword_target_faults() {
    // lui x5,0x80000; addi x5,x5,14; jalr x0,0(x5)
    let mut cpu = machine(&[0x800002b7, 0x00e28293, 0x00028067], true);
    steps(&mut cpu, 2);
    assert_eq!(cpu.step(), Err(EmuError::UnalignedPc));
    assert_eq!(cpu.get_pc(), 0x8000_0008);
}

#[test]
fn pc_stays_word_aligned_across_jumps_and_branches() {
    // addi x1,x0,1; bne x1,x0,+8; (skipped); jal x0,-8 loops back to the bne
    let mut cpu = machine(&[0x00100093, 0x00009463, 0x00000013, 0xff9ff06f], true);
    for _ in 0..9 {
        assert_eq!(cpu.step(), Ok(StepEvent::Continue));
        assert_eq!(cpu.get_pc() % 4, 0);
    }
    assert_eq!(cpu.get_pc(), 0x8000_0004);
}

#[test]
fn branch_moves_pc_when_aligned() {
    let mut cpu = machine(&[], true);
    assert_eq!(cpu.branch(-8), Ok(()));
    assert_eq!(cpu.get_pc(), 0x7FFF_FFF8);
    assert_eq!(cpu.branch(6), Err(EmuError::UnalignedPc));
    assert_eq!(cpu.get_pc(), 0x7FFF_FFF8);
}
