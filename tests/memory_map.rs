use riscv_emu::devices::DeviceConfig;
use riscv_emu::error::{DeviceFault, EmuError};
use riscv_emu::memory::{translate_address, Memory, MemoryConfig, Translation};

fn no_devices() -> DeviceConfig {
    DeviceConfig {
        uart_enabled: false,
        uart_base: 0x8200_0000,
        timer_enabled: false,
        timer_base: 0x8200_0010,
        timer_auto_reload: false,
        timer_interrupt: false,
        wave_enabled: false,
        wave_base: 0x8200_0020,
        wave_output: String::from("wave.txt"),
        wave_sample_rate: 1000,
        display_enabled: false,
        display_base: 0x8200_0040,
        display_title: String::from("display"),
    }
}

fn memory() -> Memory {
    Memory::new(MemoryConfig { size: 0x0200_0000 }, no_devices())
}

#[test]
fn translation_follows_the_address_map() {
    assert_eq!(translate_address(0x8000_0000), Some(Translation::Ram(0)));
    assert_eq!(translate_address(0x80FF_FFFF), Some(Translation::Ram(0x00FF_FFFF)));
    assert_eq!(translate_address(0x8100_0010), Some(Translation::Ram(0x0100_0010)));
    assert_eq!(translate_address(0x8200_0004), Some(Translation::Device(0x8200_0004)));
    assert_eq!(translate_address(0x7FFF_FFFC), None);
}

#[test]
fn word_store_then_narrow_loads() {
    let mut m = memory();
    assert_eq!(m.vwrite(0x8100_0000, 0x8765_43A1, 4), Ok(()));
    assert_eq!(m.vread(0x8100_0000, 4), Ok(0x8765_43A1));
    assert_eq!(m.vread(0x8100_0000, 1), Ok(0xA1));
    assert_eq!(m.vread(0x8100_0001, 1), Ok(0x43));
    assert_eq!(m.vread(0x8100_0000, 2), Ok(0x43A1));
    assert_eq!(m.vread(0x8100_0002, 2), Ok(0x8765));
}

#[test]
fn narrow_store_keeps_masked_value() {
    let mut m = memory();
    assert_eq!(m.vwrite(0x8000_0010, 0xDEAD_BEEF, 2), Ok(()));
    assert_eq!(m.vread(0x8000_0010, 2), Ok(0xBEEF));
    assert_eq!(m.vread(0x8000_0010, 4), Ok(0x0000_BEEF));
    assert_eq!(m.vwrite(0x8000_0013, 0x1234_5678, 1), Ok(()));
    assert_eq!(m.vread(0x8000_0013, 1), Ok(0x78));
}

#[test]
fn access_faults() {
    let mut m = memory();
    assert_eq!(m.vread(0x8000_0000, 3), Err(EmuError::InvalidSize));
    assert_eq!(m.vread(0x8000_0002, 4), Err(EmuError::MisalignedAccess));
    assert_eq!(m.vwrite(0x8000_0001, 7, 2), Err(EmuError::MisalignedAccess));
    assert_eq!(m.vread(0x8000_0001, 2), Err(EmuError::MisalignedAccess));
    assert_eq!(m.vread(0x0000_1000, 4), Err(EmuError::OutOfBounds));
    assert_eq!(m.vread(0x8200_0000, 1), Err(EmuError::DeviceDisabled));
    assert_eq!(m.vread(0x8300_0000, 4), Err(EmuError::DeviceError(DeviceFault::Unmapped)));
    assert_eq!(m.vread(0x8000_0000, 4), Ok(0));
}

#[test]
fn small_ram_bounds_the_data_segment() {
    let mut m = Memory::new(MemoryConfig { size: 0x0100_0000 }, no_devices());
    assert_eq!(m.vread(0x80FF_FFFC, 4), Ok(0));
    assert_eq!(m.vread(0x8100_0000, 4), Err(EmuError::OutOfBounds));
    assert_eq!(m.vwrite(0x8100_0000, 1, 4), Err(EmuError::OutOfBounds));
}

#[test]
fn bulk_transfers() {
    let mut m = memory();
    assert_eq!(m.write_bytes(0x8000_0004, &[1, 2, 3, 4, 5]), Ok(()));
    assert_eq!(m.read_bytes(0x8000_0003, 7), Ok(&[0u8, 1, 2, 3, 4, 5, 0][..]));
    assert_eq!(m.vread(0x8000_0004, 4), Ok(0x0403_0201));
    assert_eq!(
        m.write_bytes(0x8200_0000, &[1]),
        Err(EmuError::DeviceError(DeviceFault::BulkAccess))
    );
    assert_eq!(m.read_bytes(0x8200_0000, 1), Err(EmuError::DeviceError(DeviceFault::BulkAccess)));
    assert_eq!(m.write_bytes(0x10, &[1]), Err(EmuError::OutOfBounds));
    assert_eq!(m.read_bytes(0x81FF_FFFF, 0x0100_0002), Err(EmuError::OutOfBounds));
}
