use vstd::prelude::*;
use crate::cpu::CpuConfig;
use crate::devices::DeviceConfig;
pub use crate::debugger::DebugConfig;
pub use crate::memory::MemoryConfig;

verus! {

/// The `[program]` table: the image to run.
#[derive(Debug)]
pub struct ProgramConfig {
    pub binary: String,
}

/// The `[uart]` table.
#[derive(Debug)]
pub struct UartConfig {
    pub enabled: bool,
    pub base_addr: usize,
}

/// The `[timer]` table.
#[derive(Debug)]
pub struct TimerConfig {
    pub enabled: bool,
    pub base_addr: usize,
    pub auto_reload: bool,
    pub interrupt_enabled: bool,
}

/// The `[wave]` table.
#[derive(Debug)]
pub struct WaveConfig {
    pub enabled: bool,
    pub base_addr: usize,
    pub output_file: String,
    pub sample_rate: u32,
}

/// The `[display]` table.
#[derive(Debug)]
pub struct DisplayConfig {
    pub enabled: bool,
    pub base_addr: usize,
    pub title: String,
}

/// A whole configuration file.
#[derive(Debug)]
pub struct Config {
    pub program: ProgramConfig,
    pub memory: MemoryConfig,
    pub debug: DebugConfig,
    pub uart: UartConfig,
    pub timer: TimerConfig,
    pub wave: WaveConfig,
    pub display: DisplayConfig,
}

impl Config {
    /// The processor settings this file describes; the program path is left
    /// for the caller.
    pub fn into_cpu_config(self) -> (r: (CpuConfig, String))
        ensures
            r.0.memory == self.memory,
            r.0.debug == self.debug,
            r.0.devices == (DeviceConfig {
                uart_enabled: self.uart.enabled,
                uart_base: self.uart.base_addr,
                timer_enabled: self.timer.enabled,
                timer_base: self.timer.base_addr,
                timer_auto_reload: self.timer.auto_reload,
                timer_interrupt: self.timer.interrupt_enabled,
                wave_enabled: self.wave.enabled,
                wave_base: self.wave.base_addr,
                wave_output: self.wave.output_file,
                wave_sample_rate: self.wave.sample_rate,
                display_enabled: self.display.enabled,
                display_base: self.display.base_addr,
                display_title: self.display.title,
            }),
            r.1 == self.program.binary,
    {
        let devices = DeviceConfig {
            uart_enabled: self.uart.enabled,
            uart_base: self.uart.base_addr,
            timer_enabled: self.timer.enabled,
            timer_base: self.timer.base_addr,
            timer_auto_reload: self.timer.auto_reload,
            timer_interrupt: self.timer.interrupt_enabled,
            wave_enabled: self.wave.enabled,
            wave_base: self.wave.base_addr,
            wave_output: self.wave.output_file,
            wave_sample_rate: self.wave.sample_rate,
            display_enabled: self.display.enabled,
            display_base: self.display.base_addr,
            display_title: self.display.title,
        };
        (CpuConfig { memory: self.memory, devices, debug: self.debug }, self.program.binary)
    }
}

} // verus!
