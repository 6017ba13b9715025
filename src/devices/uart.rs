use vstd::prelude::*;
use crate::error::{DeviceFault, EmuError};

verus! {

/// Data register: writing sends a byte to the host.
pub const UART_DATA: usize = 0x0;
/// Status register: bit 0 transmit ready, bit 1 receive ready.
pub const UART_STATUS: usize = 0x4;
/// Control register (opaque).
pub const UART_CONTROL: usize = 0x8;

pub const STATUS_TX_READY: u8 = 1;
pub const STATUS_RX_READY: u8 = 2;

/// A byte-wide serial port. Bytes written to DATA queue up in `tx` until the
/// host takes them.
pub struct Uart {
    pub data: u8,
    pub status: u8,
    pub control: u8,
    pub tx: Vec<u8>,
}

pub struct UartView {
    pub data: u8,
    pub status: u8,
    pub control: u8,
    pub tx: Seq<u8>,
}

impl View for Uart {
    type V = UartView;

    open spec fn view(&self) -> UartView {
        UartView { data: self.data, status: self.status, control: self.control, tx: self.tx@ }
    }
}

impl UartView {
    /// Idle port, ready to transmit, nothing sent.
    pub open spec fn initial() -> UartView {
        UartView { data: 0, status: STATUS_TX_READY, control: 0, tx: Seq::empty() }
    }

    pub open spec fn read_spec(self, offset: usize, size: usize) -> Result<u32, EmuError> {
        if size != 1 {
            Err(EmuError::DeviceError(DeviceFault::UnsupportedWidth))
        } else if offset == UART_DATA {
            Ok(self.data as u32)
        } else if offset == UART_STATUS {
            Ok(self.status as u32)
        } else if offset == UART_CONTROL {
            Ok(self.control as u32)
        } else {
            Err(EmuError::DeviceError(DeviceFault::InvalidOffset))
        }
    }

    /// The port after a write; the low byte of `value` is what is stored.
    pub open spec fn write_spec(self, offset: usize, value: u32, size: usize) -> Result<
        UartView,
        EmuError,
    > {
        let b = (value & 0xff) as u8;
        if size != 1 {
            Err(EmuError::DeviceError(DeviceFault::UnsupportedWidth))
        } else if offset == UART_DATA {
            Ok(UartView { data: b, tx: self.tx.push(b), ..self })
        } else if offset == UART_STATUS {
            Ok(UartView { status: b, ..self })
        } else if offset == UART_CONTROL {
            Ok(UartView { control: b, ..self })
        } else {
            Err(EmuError::DeviceError(DeviceFault::InvalidOffset))
        }
    }
}

impl Uart {
    /// Idle port, ready to transmit, nothing sent.
    pub fn new() -> (r: Self)
        ensures
            r@ == UartView::initial(),
    {
        Uart { data: 0, status: STATUS_TX_READY, control: 0, tx: Vec::new() }
    }

    /// Reads a register; only byte accesses are accepted.
    pub fn read(&self, offset: usize, size: usize) -> (r: Result<u32, EmuError>)
        ensures
            r == self@.read_spec(offset, size),
    {
        if size != 1 {
            return Err(EmuError::DeviceError(DeviceFault::UnsupportedWidth));
        }
        match offset {
            UART_DATA => Ok(self.data as u32),
            UART_STATUS => Ok(self.status as u32),
            UART_CONTROL => Ok(self.control as u32),
            _ => Err(EmuError::DeviceError(DeviceFault::InvalidOffset)),
        }
    }

    /// Writes a register; a write to DATA also queues the byte for the host.
    pub fn write(&mut self, offset: usize, value: u32, size: usize) -> (r: Result<(), EmuError>)
        ensures
            match old(self)@.write_spec(offset, value, size) {
                Ok(u) => r == Ok::<(), EmuError>(()) && final(self)@ == u,
                Err(e) => r == Err::<(), EmuError>(e) && final(self)@ == old(self)@,
            },
    {
        if size != 1 {
            return Err(EmuError::DeviceError(DeviceFault::UnsupportedWidth));
        }
        let b = (value & 0xff) as u8;
        match offset {
            UART_DATA => {
                self.data = b;
                self.tx.push(b);
                Ok(())
            },
            UART_STATUS => {
                self.status = b;
                Ok(())
            },
            UART_CONTROL => {
                self.control = b;
                Ok(())
            },
            _ => Err(EmuError::DeviceError(DeviceFault::InvalidOffset)),
        }
    }

    /// Hands the queued bytes to the host, oldest first, and empties the queue.
    pub fn take_output(&mut self) -> (r: Vec<u8>)
        ensures
            r@ == old(self)@.tx,
            final(self)@ == (UartView { tx: Seq::empty(), ..old(self)@ }),
    {
        let mut out: Vec<u8> = Vec::new();
        std::mem::swap(&mut out, &mut self.tx);
        out
    }
}

} // verus!
