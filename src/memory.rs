use vstd::prelude::*;
use crate::devices::{DeviceConfig, Devices, DevicesView};
use crate::alu::extend_spec;
use crate::error::{DeviceFault, EmuError};

verus! {

/// Size of physical RAM: 256 MiB.
pub const MEMORY_SIZE: usize = 0x1000_0000;
/// Start of the code segment, mapped to physical address 0.
pub const CODE_BASE: u32 = 0x8000_0000;
/// Start of the data segment, mapped to physical `DATA_PHYS`.
pub const DATA_BASE: u32 = 0x8100_0000;
/// Start of the device region.
pub const DEVICE_BASE: u32 = 0x8200_0000;
/// Physical address of the data segment.
pub const DATA_PHYS: usize = 0x0100_0000;

/// Physical memory settings.
#[derive(Debug, Clone, Copy, PartialEq, Eq, Structural)]
pub struct MemoryConfig {
    pub size: usize,
}

/// Where a virtual address leads.
#[derive(Debug, Clone, Copy, PartialEq, Eq, Structural)]
pub enum Translation {
    /// A physical RAM index.
    Ram(usize),
    /// The device region; the bus takes the address as it was.
    Device(u32),
}

/// The address map: code segment, data segment, device region, in that order;
/// anything below the code segment is unmapped.
pub open spec fn translate_spec(addr: u32) -> Option<Translation> {
    if CODE_BASE <= addr && addr < DATA_BASE {
        Some(Translation::Ram((addr - CODE_BASE) as usize))
    } else if DATA_BASE <= addr && addr < DEVICE_BASE {
        Some(Translation::Ram((addr - DATA_BASE + DATA_PHYS) as usize))
    } else if DEVICE_BASE <= addr {
        Some(Translation::Device(addr))
    } else {
        None
    }
}

/// Maps a virtual address to RAM or to the device region.
pub fn translate_address(addr: u32) -> (r: Option<Translation>)
    ensures
        r == translate_spec(addr),
{
    if addr >= CODE_BASE && addr < DATA_BASE {
        Some(Translation::Ram((addr - CODE_BASE) as usize))
    } else if addr >= DATA_BASE && addr < DEVICE_BASE {
        Some(Translation::Ram((addr - DATA_BASE) as usize + DATA_PHYS))
    } else if addr >= DEVICE_BASE {
        Some(Translation::Device(addr))
    } else {
        None
    }
}

pub open spec fn valid_size(len: usize) -> bool {
    len == 1 || len == 2 || len == 4
}

/// The little-endian value of the `len` bytes at `p`.
pub open spec fn load_le(ram: Seq<u8>, p: int, len: usize) -> u32 {
    if len == 1 {
        ram[p] as u32
    } else if len == 2 {
        (ram[p] + ram[p + 1] * 0x100) as u32
    } else {
        (ram[p] + ram[p + 1] * 0x100 + ram[p + 2] * 0x1_0000 + ram[p + 3] * 0x100_0000) as u32
    }
}

/// `ram` with the low `len` bytes of `v` stored little-endian at `p`.
pub open spec fn store_le(ram: Seq<u8>, p: int, v: u32, len: usize) -> Seq<u8> {
    let r1 = ram.update(p, (v & 0xff) as u8);
    if len == 1 {
        r1
    } else {
        let r2 = r1.update(p + 1, ((v >> 8) & 0xff) as u8);
        if len == 2 {
            r2
        } else {
            r2.update(p + 2, ((v >> 16) & 0xff) as u8).update(p + 3, ((v >> 24) & 0xff) as u8)
        }
    }
}

/// `ram` with `bytes` copied in at `p`.
pub open spec fn spliced(ram: Seq<u8>, p: int, bytes: Seq<u8>) -> Seq<u8> {
    Seq::new(
        ram.len(),
        |i: int|
            if p <= i < p + bytes.len() {
                bytes[i - p]
            } else {
                ram[i]
            },
    )
}

/// The bits of a word that an access of `size` bytes moves.
pub open spec fn mask_of(size: usize) -> u32 {
    if size == 1 {
        0xff
    } else if size == 2 {
        0xffff
    } else {
        0xffff_ffff
    }
}

proof fn lemma_byte_split(v: u32)
    by (bit_vector)
    ensures
        v & 0xff < 0x100,
        (v >> 8) & 0xff < 0x100,
        (v >> 16) & 0xff < 0x100,
        (v >> 24) & 0xff < 0x100,
        (v & 0xff) == v & mask_of(1),
        (v & 0xff) + ((v >> 8) & 0xff) * 0x100 == v & 0xffff,
        (v & 0xff) + ((v >> 8) & 0xff) * 0x100 + ((v >> 16) & 0xff) * 0x1_0000 + ((v >> 24)
            & 0xff) * 0x100_0000 == v,
        v & 0xffff_ffff == v,
{
}

/// Storing the low bytes of a word and loading them back gives them again.
pub proof fn lemma_store_then_load(ram: Seq<u8>, p: int, v: u32, size: usize)
    requires
        valid_size(size),
        0 <= p,
        p + size <= ram.len(),
    ensures
        store_le(ram, p, v, size).len() == ram.len(),
        load_le(store_le(ram, p, v, size), p, size) == v & mask_of(size),
        size == 4 ==> load_le(store_le(ram, p, v, size), p, size) == v,
{
    lemma_byte_split(v);
}

/// A naturally aligned store to RAM, read back at the same address and
/// width, yields the stored value cut to that width.
pub proof fn lemma_store_load_round_trip(m: MemoryView, addr: u32, v: u32, size: usize)
    requires
        valid_size(size),
        addr % (size as u32) == 0,
        translate_spec(addr) matches Some(Translation::Ram(p)) && p + size <= m.ram.len(),
    ensures
        m.write_spec(addr, v, size) is Ok,
        m.write_spec(addr, v, size)->Ok_0.read_spec(addr, size) == Ok::<u32, EmuError>(
            v & mask_of(size),
        ),
{
    if let Some(Translation::Ram(p)) = translate_spec(addr) {
        lemma_store_then_load(m.ram, p as int, v, size);
    }
}

/// `r` holds the low `size` bytes of `v`, and every bit above them equals the
/// top bit of those bytes.
pub open spec fn sign_filled(r: u32, v: u32, size: usize) -> bool {
    if size == 1 {
        r & 0xff == v & 0xff && r >> 8 == (if v & 0x80 != 0 {
            0xFF_FFFFu32
        } else {
            0u32
        })
    } else {
        r & 0xffff == v & 0xffff && r >> 16 == (if v & 0x8000 != 0 {
            0xFFFFu32
        } else {
            0u32
        })
    }
}

proof fn lemma_sign_fill(v: u32)
    by (bit_vector)
    ensures
        (v & 0xff) % 0x100 == v & 0xff,
        ((v & 0xff) >= 0x80) == (v & 0x80 != 0),
        (((v & 0xff) + 0xFFFF_FF00) as u32) >> 8 == 0xFF_FFFF,
        (((v & 0xff) + 0xFFFF_FF00) as u32) & 0xff == v & 0xff,
        (v & 0xff) >> 8 == 0,
        (v & 0xff) & 0xff == v & 0xff,
        (v & 0xffff) & 0xffff == v & 0xffff,
        (v & 0xffff) % 0x1_0000 == v & 0xffff,
        ((v & 0xffff) >= 0x8000) == (v & 0x8000 != 0),
        (((v & 0xffff) + 0xFFFF_0000) as u32) >> 16 == 0xFFFF,
        (((v & 0xffff) + 0xFFFF_0000) as u32) & 0xffff == v & 0xffff,
        (v & 0xffff) >> 16 == 0,
{
}

/// A naturally aligned byte or halfword store to RAM, read back with a
/// sign-extending load, gives the stored bits with every bit above them
/// equal to the stored value's sign bit.
pub proof fn lemma_signed_load_round_trip(m: MemoryView, addr: u32, v: u32, size: usize)
    requires
        size == 1 || size == 2,
        addr % (size as u32) == 0,
        translate_spec(addr) matches Some(Translation::Ram(p)) && p + size <= m.ram.len(),
    ensures
        m.write_spec(addr, v, size) is Ok,
        m.write_spec(addr, v, size)->Ok_0.read_spec(addr, size) is Ok,
        sign_filled(
            extend_spec(m.write_spec(addr, v, size)->Ok_0.read_spec(addr, size)->Ok_0, size, true),
            v,
            size,
        ),
{
    lemma_store_load_round_trip(m, addr, v, size);
    lemma_sign_fill(v);
    let x = m.write_spec(addr, v, size)->Ok_0.read_spec(addr, size)->Ok_0;
    let r = extend_spec(x, size, true);
    if size == 1 {
        assert(x == v & 0xff);
    } else {
        assert(x == v & 0xffff);
    }
    assert(sign_filled(r, v, size));
}

/// Physical RAM and the device bus behind the address map.
pub struct Memory {
    data: Vec<u8>,
    devices: Devices,
}

pub struct MemoryView {
    pub ram: Seq<u8>,
    pub devices: DevicesView,
}

impl View for Memory {
    type V = MemoryView;

    closed spec fn view(&self) -> MemoryView {
        MemoryView { ram: self.data@, devices: self.devices@ }
    }
}

impl MemoryView {
    pub open spec fn wf(self) -> bool {
        self.devices.wf()
    }

    /// A word, halfword or byte read: size first, then alignment, then the map.
    pub open spec fn read_spec(self, addr: u32, len: usize) -> Result<u32, EmuError> {
        if !valid_size(len) {
            Err(EmuError::InvalidSize)
        } else if addr % (len as u32) != 0 {
            Err(EmuError::MisalignedAccess)
        } else {
            match translate_spec(addr) {
                None => Err(EmuError::OutOfBounds),
                Some(Translation::Ram(p)) => if p + len > self.ram.len() {
                    Err(EmuError::OutOfBounds)
                } else {
                    Ok(load_le(self.ram, p as int, len))
                },
                Some(Translation::Device(a)) => self.devices.read_spec(a, len),
            }
        }
    }

    /// A word, halfword or byte write, checked in the same order as a read.
    pub open spec fn write_spec(self, addr: u32, value: u32, len: usize) -> Result<
        MemoryView,
        EmuError,
    > {
        if !valid_size(len) {
            Err(EmuError::InvalidSize)
        } else if addr % (len as u32) != 0 {
            Err(EmuError::MisalignedAccess)
        } else {
            match translate_spec(addr) {
                None => Err(EmuError::OutOfBounds),
                Some(Translation::Ram(p)) => if p + len > self.ram.len() {
                    Err(EmuError::OutOfBounds)
                } else {
                    Ok(MemoryView { ram: store_le(self.ram, p as int, value, len), ..self })
                },
                Some(Translation::Device(a)) => match self.devices.write_spec(a, value, len) {
                    Ok(d) => Ok(MemoryView { devices: d, ..self }),
                    Err(e) => Err(e),
                },
            }
        }
    }

    /// Where a bulk transfer of `len` bytes at `addr` lands in RAM.
    pub open spec fn bulk_spec(self, addr: u32, len: int) -> Result<usize, EmuError> {
        match translate_spec(addr) {
            None => Err(EmuError::OutOfBounds),
            Some(Translation::Device(_)) => Err(EmuError::DeviceError(DeviceFault::BulkAccess)),
            Some(Translation::Ram(p)) => if p + len > self.ram.len() {
                Err(EmuError::OutOfBounds)
            } else {
                Ok(p)
            },
        }
    }
}

impl Memory {
    /// `config.size` bytes of zeroed RAM and the devices of `dev_config`.
    pub fn new(config: MemoryConfig, dev_config: DeviceConfig) -> (r: Self)
        ensures
            r@.wf(),
            r@.ram.len() == config.size,
            forall|i: int| 0 <= i < config.size ==> #[trigger] r@.ram[i] == 0,
            r@.devices == DevicesView::initial(dev_config),
    {
        let data: Vec<u8> = vec![0u8; config.size];
        Memory { data, devices: Devices::new(dev_config) }
    }

    /// Reads `len` (1, 2 or 4) bytes at virtual address `addr`, little-endian.
    pub fn vread(&self, addr: u32, len: usize) -> (r: Result<u32, EmuError>)
        ensures
            r == self@.read_spec(addr, len),
    {
        if !(len == 1 || len == 2 || len == 4) {
            return Err(EmuError::InvalidSize);
        }
        if addr % (len as u32) != 0 {
            return Err(EmuError::MisalignedAccess);
        }
        match translate_address(addr) {
            None => Err(EmuError::OutOfBounds),
            Some(Translation::Ram(p)) => {
                if p + len > self.data.len() {
                    return Err(EmuError::OutOfBounds);
                }
                let b0 = self.data[p] as u32;
                if len == 1 {
                    return Ok(b0);
                }
                let b1 = self.data[p + 1] as u32;
                if len == 2 {
                    return Ok(b0 + b1 * 0x100);
                }
                let b2 = self.data[p + 2] as u32;
                let b3 = self.data[p + 3] as u32;
                Ok(b0 + b1 * 0x100 + b2 * 0x1_0000 + b3 * 0x100_0000)
            },
            Some(Translation::Device(a)) => self.devices.read(a, len),
        }
    }

    /// Writes the low `len` (1, 2 or 4) bytes of `value` at virtual address
    /// `addr`, little-endian.
    pub fn vwrite(&mut self, addr: u32, value: u32, len: usize) -> (r: Result<(), EmuError>)
        requires
            old(self)@.wf(),
        ensures
            final(self)@.wf(),
            match old(self)@.write_spec(addr, value, len) {
                Ok(m) => r == Ok::<(), EmuError>(()) && final(self)@ == m,
                Err(e) => r == Err::<(), EmuError>(e) && final(self)@ == old(self)@,
            },
    {
        if !(len == 1 || len == 2 || len == 4) {
            return Err(EmuError::InvalidSize);
        }
        if addr % (len as u32) != 0 {
            return Err(EmuError::MisalignedAccess);
        }
        match translate_address(addr) {
            None => Err(EmuError::OutOfBounds),
            Some(Translation::Ram(p)) => {
                if p + len > self.data.len() {
                    return Err(EmuError::OutOfBounds);
                }
                self.data.set(p, (value & 0xff) as u8);
                if len >= 2 {
                    self.data.set(p + 1, ((value >> 8) & 0xff) as u8);
                }
                if len == 4 {
                    self.data.set(p + 2, ((value >> 16) & 0xff) as u8);
                    self.data.set(p + 3, ((value >> 24) & 0xff) as u8);
                }
                Ok(())
            },
            Some(Translation::Device(a)) => self.devices.write(a, value, len),
        }
    }

    /// Copies `bytes` into RAM at virtual address `addr` (program loading);
    /// the device region is refused.
    pub fn write_bytes(&mut self, addr: u32, bytes: &[u8]) -> (r: Result<(), EmuError>)
        ensures
            match old(self)@.bulk_spec(addr, bytes@.len() as int) {
                Ok(p) => r == Ok::<(), EmuError>(()) && final(self)@ == (MemoryView {
                    ram: spliced(old(self)@.ram, p as int, bytes@),
                    ..old(self)@
                }),
                Err(e) => r == Err::<(), EmuError>(e) && final(self)@ == old(self)@,
            },
    {
        let p = match translate_address(addr) {
            None => return Err(EmuError::OutOfBounds),
            Some(Translation::Device(_)) => return Err(
                EmuError::DeviceError(DeviceFault::BulkAccess),
            ),
            Some(Translation::Ram(p)) => p,
        };
        if p > self.data.len() || bytes.len() > self.data.len() - p {
            return Err(EmuError::OutOfBounds);
        }
        let ghost old_ram = self.data@;
        assert(old_ram.len() <= usize::MAX);
        let mut i: usize = 0;
        while i < bytes.len()
            invariant
                p + bytes@.len() <= old_ram.len() <= usize::MAX,
                i <= bytes@.len(),
                self.devices == old(self).devices,
                self.data@.len() == old_ram.len(),
                old_ram == old(self)@.ram,
                forall|k: int|
                    0 <= k < old_ram.len() ==> #[trigger] self.data@[k] == if p <= k < p + i {
                        bytes@[k - p]
                    } else {
                        old_ram[k]
                    },
            decreases bytes.len() - i,
        {
            self.data.set(p + i, bytes[i]);
            i = i + 1;
        }
        proof {
            assert(self.data@ =~= spliced(old_ram, p as int, bytes@));
        }
        Ok(())
    }

    /// The `len` bytes of RAM at virtual address `addr`; the device region is
    /// refused.
    pub fn read_bytes(&self, addr: u32, len: usize) -> (r: Result<&[u8], EmuError>)
        ensures
            match self@.bulk_spec(addr, len as int) {
                Ok(p) => r is Ok && r->Ok_0@ == self@.ram.subrange(p as int, p + len),
                Err(e) => r == Err::<&[u8], EmuError>(e),
            },
    {
        let p = match translate_address(addr) {
            None => return Err(EmuError::OutOfBounds),
            Some(Translation::Device(_)) => return Err(
                EmuError::DeviceError(DeviceFault::BulkAccess),
            ),
            Some(Translation::Ram(p)) => p,
        };
        if p > self.data.len() || len > self.data.len() - p {
            return Err(EmuError::OutOfBounds);
        }
        Ok(vstd::slice::slice_subrange(self.data.as_slice(), p, p + len))
    }

    /// Advances the devices by one instruction.
    pub fn tick_devices(&mut self)
        requires
            old(self)@.wf(),
        ensures
            final(self)@ == (MemoryView { devices: old(self)@.devices.tick_spec(), ..old(self)@ }),
    {
        self.devices.tick();
    }

    pub fn devices(&self) -> (r: &Devices)
        ensures
            r@ == self@.devices,
    {
        &self.devices
    }

    /// Takes the bytes the UART has sent since the last call.
    pub fn take_uart_output(&mut self) -> (r: Vec<u8>)
        ensures
            r@ == old(self)@.devices.uart.tx,
            final(self)@ == (MemoryView { devices: old(self)@.devices.uart_drained(), ..old(self)@ }),
    {
        self.devices.take_uart_output()
    }

    /// Takes the wave samples produced since the last call.
    pub fn take_wave_samples(&mut self) -> (r: Vec<crate::devices::wave::WaveSample>)
        ensures
            r@ == old(self)@.devices.wave.samples,
            final(self)@ == (MemoryView { devices: old(self)@.devices.wave_drained(), ..old(self)@ }),
    {
        self.devices.take_wave_samples()
    }

    /// Whether the display asked for a redraw since the last call.
    pub fn take_frame_request(&mut self) -> (r: bool)
        ensures
            r == old(self)@.devices.display.frame_pending,
            final(self)@ == (MemoryView { devices: old(self)@.devices.frame_taken(), ..old(self)@ }),
    {
        self.devices.take_frame_request()
    }

    /// The host closed the display window.
    pub fn close_display(&mut self)
        ensures
            final(self)@ == (MemoryView { devices: old(self)@.devices.display_closed(), ..old(self)@ }),
    {
        self.devices.close_display();
    }
}

} // verus!
