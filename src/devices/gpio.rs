use vstd::prelude::*;
use crate::error::{DeviceFault, EmuError};

verus! {

pub const GPIO_DIRECTION: usize = 0x0;
pub const GPIO_OUTPUT: usize = 0x4;
pub const GPIO_INPUT: usize = 0x8;

/// General-purpose pins: a direction mask, driven outputs and sampled inputs.
#[derive(Debug, Clone, Copy, PartialEq, Eq, Structural)]
pub struct Gpio {
    pub direction: u32,
    pub output: u32,
    pub input: u32,
}

impl Gpio {
    pub open spec fn read_spec(self, offset: usize, size: usize) -> Result<u32, EmuError> {
        if size != 4 {
            Err(EmuError::DeviceError(DeviceFault::UnsupportedWidth))
        } else if offset == GPIO_DIRECTION {
            Ok(self.direction)
        } else if offset == GPIO_OUTPUT {
            Ok(self.output)
        } else if offset == GPIO_INPUT {
            Ok(self.input)
        } else {
            Err(EmuError::DeviceError(DeviceFault::InvalidOffset))
        }
    }

    /// The pins after a write; INPUT is read-only.
    pub open spec fn write_spec(self, offset: usize, value: u32, size: usize) -> Result<
        Gpio,
        EmuError,
    > {
        if size != 4 {
            Err(EmuError::DeviceError(DeviceFault::UnsupportedWidth))
        } else if offset == GPIO_DIRECTION {
            Ok(Gpio { direction: value, ..self })
        } else if offset == GPIO_OUTPUT {
            Ok(Gpio { output: value, ..self })
        } else if offset == GPIO_INPUT {
            Err(EmuError::DeviceError(DeviceFault::ReadOnly))
        } else {
            Err(EmuError::DeviceError(DeviceFault::InvalidOffset))
        }
    }

    /// All pins inputs, all levels low.
    pub fn new() -> (r: Self)
        ensures
            r == (Gpio { direction: 0, output: 0, input: 0 }),
    {
        Gpio { direction: 0, output: 0, input: 0 }
    }

    /// Reads a register; only word accesses are accepted.
    pub fn read(&self, offset: usize, size: usize) -> (r: Result<u32, EmuError>)
        ensures
            r == self.read_spec(offset, size),
    {
        if size != 4 {
            return Err(EmuError::DeviceError(DeviceFault::UnsupportedWidth));
        }
        match offset {
            GPIO_DIRECTION => Ok(self.direction),
            GPIO_OUTPUT => Ok(self.output),
            GPIO_INPUT => Ok(self.input),
            _ => Err(EmuError::DeviceError(DeviceFault::InvalidOffset)),
        }
    }

    /// Writes a register; only word accesses are accepted.
    pub fn write(&mut self, offset: usize, value: u32, size: usize) -> (r: Result<(), EmuError>)
        ensures
            match old(self).write_spec(offset, value, size) {
                Ok(g) => r == Ok::<(), EmuError>(()) && *final(self) == g,
                Err(e) => r == Err::<(), EmuError>(e) && *final(self) == *old(self),
            },
    {
        if size != 4 {
            return Err(EmuError::DeviceError(DeviceFault::UnsupportedWidth));
        }
        match offset {
            GPIO_DIRECTION => {
                self.direction = value;
                Ok(())
            },
            GPIO_OUTPUT => {
                self.output = value;
                Ok(())
            },
            GPIO_INPUT => Err(EmuError::DeviceError(DeviceFault::ReadOnly)),
            _ => Err(EmuError::DeviceError(DeviceFault::InvalidOffset)),
        }
    }

    /// Sets the levels seen on the input pins (the host side of the port).
    pub fn set_input(&mut self, value: u32)
        ensures
            *final(self) == (Gpio { input: value, ..*old(self) }),
    {
        self.input = value;
    }
}

} // verus!
