pub mod uart;
pub mod timer;
pub mod gpio;
pub mod simple_device;
pub mod wave;
pub mod display;

use vstd::prelude::*;
use crate::error::{DeviceFault, EmuError};
use uart::{Uart, UartView};
use timer::Timer;
use wave::{Wave, WaveView};
use display::{Display, DisplayView};

verus! {

/// Address span of the UART's and the timer's register windows.
pub const SMALL_SPAN: usize = 0x10;
/// Address span of the wave generator's and the display's register windows.
pub const LARGE_SPAN: usize = 0x20;

/// Which devices exist, where they sit, and how they start.
#[derive(Debug)]
pub struct DeviceConfig {
    pub uart_enabled: bool,
    pub uart_base: usize,
    pub timer_enabled: bool,
    pub timer_base: usize,
    pub timer_auto_reload: bool,
    pub timer_interrupt: bool,
    pub wave_enabled: bool,
    pub wave_base: usize,
    pub wave_output: String,
    pub wave_sample_rate: u32,
    pub display_enabled: bool,
    pub display_base: usize,
    pub display_title: String,
}

/// The devices on the bus.
#[derive(Debug, Clone, Copy, PartialEq, Eq, Structural)]
pub enum DeviceKind {
    Uart,
    Timer,
    Wave,
    Display,
}

pub open spec fn in_window(addr: u32, base: usize, span: usize) -> bool {
    base <= addr && addr < base + span
}

/// The device whose window `[base, base + span)` holds `addr`, checked in the
/// order UART, timer, wave generator, display.
pub open spec fn route(cfg: DeviceConfig, addr: u32) -> Option<(DeviceKind, usize)> {
    if in_window(addr, cfg.uart_base, SMALL_SPAN) {
        Some((DeviceKind::Uart, (addr - cfg.uart_base) as usize))
    } else if in_window(addr, cfg.timer_base, SMALL_SPAN) {
        Some((DeviceKind::Timer, (addr - cfg.timer_base) as usize))
    } else if in_window(addr, cfg.wave_base, LARGE_SPAN) {
        Some((DeviceKind::Wave, (addr - cfg.wave_base) as usize))
    } else if in_window(addr, cfg.display_base, LARGE_SPAN) {
        Some((DeviceKind::Display, (addr - cfg.display_base) as usize))
    } else {
        None
    }
}

pub open spec fn kind_enabled(cfg: DeviceConfig, k: DeviceKind) -> bool {
    match k {
        DeviceKind::Uart => cfg.uart_enabled,
        DeviceKind::Timer => cfg.timer_enabled,
        DeviceKind::Wave => cfg.wave_enabled,
        DeviceKind::Display => cfg.display_enabled,
    }
}

/// The memory-mapped devices and the map that places them.
pub struct Devices {
    uart: Uart,
    timer: Timer,
    wave: Wave,
    display: Display,
    config: DeviceConfig,
}

pub struct DevicesView {
    pub uart: UartView,
    pub timer: Timer,
    pub wave: WaveView,
    pub display: DisplayView,
    pub config: DeviceConfig,
}

impl View for Devices {
    type V = DevicesView;

    closed spec fn view(&self) -> DevicesView {
        DevicesView {
            uart: self.uart@,
            timer: self.timer,
            wave: self.wave@,
            display: self.display@,
            config: self.config,
        }
    }
}

impl DevicesView {
    /// The devices as `config` builds them: an enabled timer takes its preset
    /// bits, an enabled display starts switched on.
    pub open spec fn initial(config: DeviceConfig) -> DevicesView {
        DevicesView {
            uart: UartView::initial(),
            timer: if config.timer_enabled {
                Timer::preset(config.timer_auto_reload, config.timer_interrupt)
            } else {
                Timer::preset(false, false)
            },
            wave: WaveView::initial(config.wave_sample_rate),
            display: DisplayView::initial(
                if config.display_enabled {
                    display::CTRL_ENABLE
                } else {
                    0
                },
            ),
            config,
        }
    }

    pub open spec fn wf(self) -> bool {
        self.display.wf()
    }

    /// A read routed to the one device whose window holds `addr`.
    pub open spec fn read_spec(self, addr: u32, size: usize) -> Result<u32, EmuError> {
        match route(self.config, addr) {
            None => Err(EmuError::DeviceError(DeviceFault::Unmapped)),
            Some((k, off)) => if !kind_enabled(self.config, k) {
                Err(EmuError::DeviceDisabled)
            } else {
                match k {
                    DeviceKind::Uart => self.uart.read_spec(off, size),
                    DeviceKind::Timer => self.timer.read_spec(off, size),
                    DeviceKind::Wave => self.wave.read_spec(off, size),
                    DeviceKind::Display => self.display.read_spec(off, size),
                }
            },
        }
    }

    /// A write routed to the one device whose window holds `addr`.
    pub open spec fn write_spec(self, addr: u32, value: u32, size: usize) -> Result<
        DevicesView,
        EmuError,
    > {
        match route(self.config, addr) {
            None => Err(EmuError::DeviceError(DeviceFault::Unmapped)),
            Some((k, off)) => if !kind_enabled(self.config, k) {
                Err(EmuError::DeviceDisabled)
            } else {
                match k {
                    DeviceKind::Uart => match self.uart.write_spec(off, value, size) {
                        Ok(u) => Ok(DevicesView { uart: u, ..self }),
                        Err(e) => Err(e),
                    },
                    DeviceKind::Timer => match self.timer.write_spec(off, value, size) {
                        Ok(t) => Ok(DevicesView { timer: t, ..self }),
                        Err(e) => Err(e),
                    },
                    DeviceKind::Wave => match self.wave.write_spec(off, value, size) {
                        Ok(w) => Ok(DevicesView { wave: w, ..self }),
                        Err(e) => Err(e),
                    },
                    DeviceKind::Display => match self.display.write_spec(off, value, size) {
                        Ok(d) => Ok(DevicesView { display: d, ..self }),
                        Err(e) => Err(e),
                    },
                }
            },
        }
    }

    /// One tick of every enabled device that keeps time.
    pub open spec fn tick_spec(self) -> DevicesView {
        DevicesView {
            timer: if self.config.timer_enabled {
                self.timer.tick_spec()
            } else {
                self.timer
            },
            wave: if self.config.wave_enabled {
                self.wave.tick_spec()
            } else {
                self.wave
            },
            ..self
        }
    }

    /// The devices once the host has taken the UART's output.
    pub open spec fn uart_drained(self) -> DevicesView {
        DevicesView { uart: UartView { tx: Seq::empty(), ..self.uart }, ..self }
    }

    /// The devices once the host has taken the wave samples.
    pub open spec fn wave_drained(self) -> DevicesView {
        DevicesView { wave: WaveView { samples: Seq::empty(), ..self.wave }, ..self }
    }

    /// The devices once the host has taken the display's redraw request.
    pub open spec fn frame_taken(self) -> DevicesView {
        DevicesView { display: DisplayView { frame_pending: false, ..self.display }, ..self }
    }

    /// The devices once the host has closed the display window.
    pub open spec fn display_closed(self) -> DevicesView {
        DevicesView {
            display: DisplayView {
                control: self.display.control & !display::CTRL_ENABLE,
                ..self.display
            },
            ..self
        }
    }

    /// Pending interrupt lines: bit 0 is the timer.
    pub open spec fn interrupts_spec(self) -> u32 {
        if self.config.timer_enabled && self.timer.interrupt_spec() {
            1
        } else {
            0
        }
    }
}

fn in_window_exec(addr: u32, base: usize, span: usize) -> (r: bool)
    ensures
        r == in_window(addr, base, span),
{
    let a = addr as usize;
    a >= base && a - base < span
}

fn route_exec(cfg: &DeviceConfig, addr: u32) -> (r: Option<(DeviceKind, usize)>)
    ensures
        r == route(*cfg, addr),
{
    let a = addr as usize;
    if in_window_exec(addr, cfg.uart_base, SMALL_SPAN) {
        Some((DeviceKind::Uart, a - cfg.uart_base))
    } else if in_window_exec(addr, cfg.timer_base, SMALL_SPAN) {
        Some((DeviceKind::Timer, a - cfg.timer_base))
    } else if in_window_exec(addr, cfg.wave_base, LARGE_SPAN) {
        Some((DeviceKind::Wave, a - cfg.wave_base))
    } else if in_window_exec(addr, cfg.display_base, LARGE_SPAN) {
        Some((DeviceKind::Display, a - cfg.display_base))
    } else {
        None
    }
}

impl Devices {
    /// Builds the devices named by `config`.
    pub fn new(config: DeviceConfig) -> (r: Self)
        ensures
            r@ == DevicesView::initial(config),
            r@.wf(),
    {
        let timer = if config.timer_enabled {
            Timer::new_with_config(config.timer_auto_reload, config.timer_interrupt)
        } else {
            Timer::new()
        };
        let display = if config.display_enabled {
            Display::new_enabled()
        } else {
            Display::new_disabled()
        };
        Devices {
            uart: Uart::new(),
            timer,
            wave: Wave::new_with_config(config.wave_sample_rate),
            display,
            config,
        }
    }

    pub fn config(&self) -> (r: &DeviceConfig)
        ensures
            *r == self@.config,
    {
        &self.config
    }

    /// Reads the device register at `addr`.
    pub fn read(&self, addr: u32, size: usize) -> (r: Result<u32, EmuError>)
        ensures
            r == self@.read_spec(addr, size),
    {
        match route_exec(&self.config, addr) {
            None => Err(EmuError::DeviceError(DeviceFault::Unmapped)),
            Some((k, off)) => match k {
                DeviceKind::Uart => if !self.config.uart_enabled {
                    Err(EmuError::DeviceDisabled)
                } else {
                    self.uart.read(off, size)
                },
                DeviceKind::Timer => if !self.config.timer_enabled {
                    Err(EmuError::DeviceDisabled)
                } else {
                    self.timer.read(off, size)
                },
                DeviceKind::Wave => if !self.config.wave_enabled {
                    Err(EmuError::DeviceDisabled)
                } else {
                    self.wave.read(off, size)
                },
                DeviceKind::Display => if !self.config.display_enabled {
                    Err(EmuError::DeviceDisabled)
                } else {
                    self.display.read(off, size)
                },
            },
        }
    }

    /// Writes the device register at `addr`.
    pub fn write(&mut self, addr: u32, value: u32, size: usize) -> (r: Result<(), EmuError>)
        requires
            old(self)@.wf(),
        ensures
            final(self)@.wf(),
            match old(self)@.write_spec(addr, value, size) {
                Ok(d) => r == Ok::<(), EmuError>(()) && final(self)@ == d,
                Err(e) => r == Err::<(), EmuError>(e) && final(self)@ == old(self)@,
            },
    {
        match route_exec(&self.config, addr) {
            None => Err(EmuError::DeviceError(DeviceFault::Unmapped)),
            Some((k, off)) => match k {
                DeviceKind::Uart => if !self.config.uart_enabled {
                    Err(EmuError::DeviceDisabled)
                } else {
                    self.uart.write(off, value, size)
                },
                DeviceKind::Timer => if !self.config.timer_enabled {
                    Err(EmuError::DeviceDisabled)
                } else {
                    self.timer.write(off, value, size)
                },
                DeviceKind::Wave => if !self.config.wave_enabled {
                    Err(EmuError::DeviceDisabled)
                } else {
                    self.wave.write(off, value, size)
                },
                DeviceKind::Display => if !self.config.display_enabled {
                    Err(EmuError::DeviceDisabled)
                } else {
                    self.display.write(off, value, size)
                },
            },
        }
    }

    /// Advances every enabled device by one instruction.
    pub fn tick(&mut self)
        requires
            old(self)@.wf(),
        ensures
            final(self)@ == old(self)@.tick_spec(),
    {
        if self.config.timer_enabled {
            self.timer.tick();
        }
        if self.config.wave_enabled {
            self.wave.tick();
        }
    }

    /// The pending interrupt lines as a bit mask (bit 0: timer).
    pub fn check_interrupts(&self) -> (r: u32)
        ensures
            r == self@.interrupts_spec(),
    {
        if self.config.timer_enabled && self.timer.interrupt_pending() {
            1
        } else {
            0
        }
    }

    /// Takes the bytes the UART has sent since the last call.
    pub fn take_uart_output(&mut self) -> (r: Vec<u8>)
        ensures
            r@ == old(self)@.uart.tx,
            final(self)@ == old(self)@.uart_drained(),
    {
        self.uart.take_output()
    }

    /// Takes the wave samples produced since the last call.
    pub fn take_wave_samples(&mut self) -> (r: Vec<wave::WaveSample>)
        ensures
            r@ == old(self)@.wave.samples,
            final(self)@ == old(self)@.wave_drained(),
    {
        self.wave.take_samples()
    }

    /// Whether the display asked for a redraw since the last call.
    pub fn take_frame_request(&mut self) -> (r: bool)
        ensures
            r == old(self)@.display.frame_pending,
            final(self)@ == old(self)@.frame_taken(),
    {
        self.display.take_frame_request()
    }

    /// The display's pixels, row-major.
    pub fn frame(&self) -> (r: &[u32])
        ensures
            r@ == self@.display.frame,
    {
        self.display.frame.as_slice()
    }

    /// The host closed the display window.
    pub fn close_display(&mut self)
        ensures
            final(self)@ == old(self)@.display_closed(),
    {
        self.display.close();
    }
}

} // verus!
