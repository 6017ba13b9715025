use riscv_emu::devices::display::{Display, DISPLAY_COLOR, DISPLAY_CTRL, DISPLAY_UPDATE, DISPLAY_X, DISPLAY_Y};
use riscv_emu::devices::gpio::{Gpio, GPIO_DIRECTION, GPIO_INPUT, GPIO_OUTPUT};
use riscv_emu::devices::simple_device::SimpleDevice;
use riscv_emu::devices::timer::{Timer, TIMER_CONTROL, TIMER_COMPARE, TIMER_COUNT, TIMER_STATUS};
use riscv_emu::devices::uart::{Uart, UART_CONTROL, UART_DATA, UART_STATUS};
use riscv_emu::devices::wave::{Wave, WaveType, WAVE_AMPLITUDE, WAVE_CONTROL, WAVE_DUTY, WAVE_PHASE};
use riscv_emu::devices::{DeviceConfig, Devices};
use riscv_emu::error::{DeviceFault, EmuError};

#[test]
fn uart_registers() {
    let mut u = Uart::new();
    assert_eq!(u.read(UART_STATUS, 1), Ok(1));
    assert_eq!(u.write(UART_DATA, 0x1_0048, 1), Ok(()));
    assert_eq!(u.read(UART_DATA, 1), Ok(0x48));
    assert_eq!(u.write(UART_CONTROL, 5, 1), Ok(()));
    assert_eq!(u.read(UART_CONTROL, 1), Ok(5));
    assert_eq!(u.read(UART_DATA, 4), Err(EmuError::DeviceError(DeviceFault::UnsupportedWidth)));
    assert_eq!(u.write(0xC, 1, 1), Err(EmuError::DeviceError(DeviceFault::InvalidOffset)));
    assert_eq!(u.take_output(), vec![0x48]);
}

#[test]
fn timer_counts_matches_and_reloads() {
    let mut t = Timer::new();
    assert_eq!(t.read(TIMER_COMPARE, 4), Ok(0xFFFF_FFFF));
    t.tick();
    assert_eq!(t.read(TIMER_COUNT, 4), Ok(0));
    assert_eq!(t.write(TIMER_COMPARE, 2, 4), Ok(()));
    assert_eq!(t.write(TIMER_CONTROL, 1 | 2 | 4, 4), Ok(()));
    t.tick();
    assert_eq!(t.read(TIMER_COUNT, 4), Ok(1));
    assert!(!t.interrupt_pending());
    t.tick();
    assert_eq!(t.read(TIMER_COUNT, 4), Ok(0));
    assert_eq!(t.read(TIMER_STATUS, 4), Ok(1));
    assert!(t.interrupt_pending());
    assert_eq!(t.write(TIMER_STATUS, 1, 4), Ok(()));
    assert_eq!(t.read(TIMER_STATUS, 4), Ok(0));
    assert!(!t.interrupt_pending());
    assert_eq!(t.read(TIMER_COUNT, 1), Err(EmuError::DeviceError(DeviceFault::UnsupportedWidth)));
}

#[test]
fn timer_count_wraps() {
    let mut t = Timer::new_with_config(false, true);
    assert_eq!(t.read(TIMER_CONTROL, 4), Ok(2));
    assert_eq!(t.write(TIMER_COUNT, 0xFFFF_FFFF, 4), Ok(()));
    assert_eq!(t.write(TIMER_COMPARE, 5, 4), Ok(()));
    assert_eq!(t.write(TIMER_CONTROL, 1, 4), Ok(()));
    t.tick();
    assert_eq!(t.read(TIMER_COUNT, 4), Ok(0));
}

#[test]
fn wave_clamps_and_samples() {
    let mut w = Wave::new();
    assert_eq!(w.write(WAVE_AMPLITUDE, 300, 4), Ok(()));
    assert_eq!(w.read(WAVE_AMPLITUDE, 4), Ok(255));
    assert_eq!(w.write(WAVE_PHASE, 725, 4), Ok(()));
    assert_eq!(w.read(WAVE_PHASE, 4), Ok(5));
    assert_eq!(w.write(WAVE_DUTY, 150, 4), Ok(()));
    assert_eq!(w.read(WAVE_DUTY, 4), Ok(100));
    w.tick();
    assert_eq!(w.take_samples().len(), 0);
    assert_eq!(w.write(WAVE_CONTROL, 1 | (1 << 1), 4), Ok(()));
    assert_eq!(w.get_wave_type(), WaveType::Square);
    w.tick();
    w.tick();
    let s = w.take_samples();
    assert_eq!(s.len(), 2);
    assert_eq!(s[0].waveform, WaveType::Square);
    assert_eq!(s[0].sample_count, 0);
    assert_eq!(s[1].sample_count, 1);
    assert_eq!(s[1].phase, 5);
    assert_eq!(w.write(WAVE_CONTROL, 1 | (7 << 1), 4), Ok(()));
    assert_eq!(w.get_wave_type(), WaveType::Sine);
    assert_eq!(w.read(0x14, 4), Err(EmuError::DeviceError(DeviceFault::InvalidOffset)));
}

#[test]
fn display_draws_only_when_enabled() {
    let mut d = Display::new_disabled();
    assert_eq!(d.write(DISPLAY_X, 2, 4), Ok(()));
    assert_eq!(d.write(DISPLAY_Y, 1, 4), Ok(()));
    assert_eq!(d.write(DISPLAY_COLOR, 0x12_3456, 4), Ok(()));
    assert_eq!(d.frame[302], 0);
    assert_eq!(d.write(DISPLAY_UPDATE, 1, 4), Ok(()));
    assert!(!d.take_frame_request());
    assert_eq!(d.write(DISPLAY_CTRL, 1, 4), Ok(()));
    assert_eq!(d.write(DISPLAY_COLOR, 0xFF12_3456, 4), Ok(()));
    assert_eq!(d.frame[302], 0x12_3456);
    assert_eq!(d.write(DISPLAY_UPDATE, 1, 4), Ok(()));
    assert!(d.take_frame_request());
    assert!(!d.take_frame_request());
    assert_eq!(d.write(DISPLAY_X, 300, 4), Err(EmuError::DeviceError(DeviceFault::CoordinateOutOfRange)));
    assert_eq!(d.write(DISPLAY_Y, 400, 4), Err(EmuError::DeviceError(DeviceFault::CoordinateOutOfRange)));
    assert_eq!(d.read(DISPLAY_X, 4), Ok(2));
    assert_eq!(d.read(DISPLAY_UPDATE, 4), Err(EmuError::DeviceError(DeviceFault::InvalidOffset)));
    d.close();
    assert_eq!(d.read(DISPLAY_CTRL, 4), Ok(0));
    assert_eq!(Display::new_enabled().read(DISPLAY_CTRL, 4), Ok(1));
}

#[test]
fn gpio_registers() {
    let mut g = Gpio::new();
    assert_eq!(g.write(GPIO_DIRECTION, 0xF0, 4), Ok(()));
    assert_eq!(g.write(GPIO_OUTPUT, 0x30, 4), Ok(()));
    assert_eq!(g.write(GPIO_INPUT, 1, 4), Err(EmuError::DeviceError(DeviceFault::ReadOnly)));
    g.set_input(0x5);
    assert_eq!(g.read(GPIO_INPUT, 4), Ok(0x5));
    assert_eq!(g.read(GPIO_DIRECTION, 4), Ok(0xF0));
    assert_eq!(g.read(GPIO_OUTPUT, 2), Err(EmuError::DeviceError(DeviceFault::UnsupportedWidth)));
}

#[test]
fn simple_device_echoes_address() {
    let d = SimpleDevice::new(0x9000_0000, 0x10);
    assert_eq!(d.read(0x9000_0004), 0x9000_0004);
    d.write(0x9000_0004, 1);
    assert_eq!(d.size, 0x10);
}

#[test]
fn bus_routes_by_window() {
    let mut bus = Devices::new(DeviceConfig {
        uart_enabled: true,
        uart_base: 0x8200_0000,
        timer_enabled: true,
        timer_base: 0x8200_0010,
        timer_auto_reload: false,
        timer_interrupt: false,
        wave_enabled: false,
        wave_base: 0x8200_0020,
        wave_output: String::from("wave.txt"),
        wave_sample_rate: 1000,
        display_enabled: true,
        display_base: 0x8200_0040,
        display_title: String::from("display"),
    });
    assert_eq!(bus.read(0x8200_0004, 1), Ok(1));
    assert_eq!(bus.read(0x8200_0018, 4), Ok(0xFFFF_FFFF));
    assert_eq!(bus.read(0x8200_0020, 4), Err(EmuError::DeviceDisabled));
    assert_eq!(bus.read(0x8200_0040, 4), Ok(1));
    assert_eq!(bus.read(0x8200_0060, 4), Err(EmuError::DeviceError(DeviceFault::Unmapped)));
    assert_eq!(bus.write(0x8200_0018, 1, 4), Ok(()));
    assert_eq!(bus.write(0x8200_0014, 1 | 2, 4), Ok(()));
    assert_eq!(bus.check_interrupts(), 0);
    bus.tick();
    assert_eq!(bus.check_interrupts(), 1);
    assert_eq!(bus.write(0x8200_0000, 0x41, 1), Ok(()));
    assert_eq!(bus.take_uart_output(), vec![0x41]);
    assert_eq!(bus.write(0x8200_0058, 1, 4), Ok(()));
    assert!(bus.take_frame_request());
    assert_eq!(bus.frame().len(), 120000);
}
