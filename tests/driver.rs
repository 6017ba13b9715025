use riscv_emu::cli::{parse_args, UsageError};
use riscv_emu::config::{
    Config, DebugConfig, DisplayConfig, MemoryConfig, ProgramConfig, TimerConfig, UartConfig,
    WaveConfig,
};
use riscv_emu::debugger::Debugger;
use riscv_emu::loader::Loader;
use riscv_emu::register::RegisterFile;

fn args(items: &[&str]) -> Vec<String> {
    items.iter().map(|s| s.to_string()).collect()
}

#[test]
fn cli_defaults_and_flags() {
    let o = parse_args(&args(&["prog.toml"])).unwrap();
    assert_eq!(o.path, "prog.toml");
    assert!(o.itrace && o.mtrace && o.regtrace && !o.single_step);
    let o = parse_args(&args(&["--step", "--no-itrace", "x.toml", "--no-mtrace", "--no-regtrace"]))
        .unwrap();
    assert_eq!(o.path, "x.toml");
    assert!(!o.itrace && !o.mtrace && !o.regtrace && o.single_step);
}

#[test]
fn cli_usage_errors() {
    assert_eq!(parse_args(&args(&[])).unwrap_err(), UsageError::MissingPath);
    assert_eq!(parse_args(&args(&["--step"])).unwrap_err(), UsageError::MissingPath);
    assert_eq!(parse_args(&args(&["a", "b"])).unwrap_err(), UsageError::ExtraArgument);
}

#[test]
fn config_maps_to_processor_settings() {
    let c = Config {
        program: ProgramConfig { binary: String::from("prog.bin") },
        memory: MemoryConfig { size: 4096 },
        debug: DebugConfig {
            instruction_trace: false,
            memory_trace: true,
            register_trace: false,
            single_step: true,
            trace_limit: 8,
        },
        uart: UartConfig { enabled: true, base_addr: 0x8200_0000 },
        timer: TimerConfig {
            enabled: true,
            base_addr: 0x8200_0010,
            auto_reload: true,
            interrupt_enabled: false,
        },
        wave: WaveConfig {
            enabled: false,
            base_addr: 0x8200_0020,
            output_file: String::from("out.txt"),
            sample_rate: 44100,
        },
        display: DisplayConfig {
            enabled: false,
            base_addr: 0x8200_0040,
            title: String::from("screen"),
        },
    };
    let (cpu, binary) = c.into_cpu_config();
    assert_eq!(binary, "prog.bin");
    assert_eq!(cpu.memory.size, 4096);
    assert_eq!(cpu.debug.trace_limit, 8);
    assert!(cpu.devices.timer_auto_reload && !cpu.devices.timer_interrupt);
    assert_eq!(cpu.devices.timer_base, 0x8200_0010);
    assert_eq!(cpu.devices.wave_output, "out.txt");
    assert_eq!(cpu.devices.wave_sample_rate, 44100);
    assert_eq!(cpu.devices.display_title, "screen");
}

#[test]
fn register_file_discards_x0_writes() {
    let mut r = RegisterFile::new();
    r.write(0, 5);
    r.write(31, 9);
    assert_eq!(r.read(0), 0);
    assert_eq!(r.read(31), 9);
    assert_eq!(r.values()[0], 0);
    assert_eq!(r.values().len(), 32);
}

#[test]
fn loader_entry_point() {
    assert_eq!(Loader::new().get_entry_point(), 0x8000_0000);
}

#[test]
fn debugger_history_is_bounded() {
    let mut d = Debugger::new();
    for i in 0..20u32 {
        d.trace_instruction(0x8000_0000 + 4 * i, i);
    }
    let h = d.instruction_history();
    assert_eq!(h.len(), 16);
    assert_eq!(h[0].inst, 4);
    assert_eq!(h[15].inst, 19);
    d.trace_memory_write(0x8100_0000, 4, 7);
    d.trace_memory_read(0x8100_0000, 4, 7);
    assert_eq!(d.memory_history().len(), 2);
    assert_eq!(d.take_pending().len(), 22);
    d.itrace_enabled = false;
    d.trace_instruction(0, 0);
    assert_eq!(d.instruction_history().len(), 16);
    assert_eq!(d.take_pending().len(), 0);
}
