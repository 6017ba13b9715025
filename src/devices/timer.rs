use vstd::prelude::*;
use crate::error::{DeviceFault, EmuError};

verus! {

pub const TIMER_COUNT: usize = 0x0;
pub const TIMER_CONTROL: usize = 0x4;
pub const TIMER_COMPARE: usize = 0x8;
pub const TIMER_STATUS: usize = 0xC;

/// CONTROL bit 0: count on each tick.
pub const CONTROL_ENABLE: u32 = 1;
/// CONTROL bit 1: a match raises the interrupt line.
pub const CONTROL_INTERRUPT: u32 = 2;
/// CONTROL bit 2: a match resets COUNT to zero.
pub const CONTROL_RELOAD: u32 = 4;
/// STATUS bit 0: COUNT reached COMPARE.
pub const STATUS_MATCH: u32 = 1;

/// A free-running counter with a compare register.
#[derive(Debug, Clone, Copy, PartialEq, Eq, Structural)]
pub struct Timer {
    pub count: u32,
    pub control: u32,
    pub compare: u32,
    pub status: u32,
}

impl Timer {
    /// Stopped, counting from zero, compare at the largest count, with the
    /// auto-reload and interrupt bits as given.
    pub open spec fn preset(auto_reload: bool, interrupt: bool) -> Timer {
        Timer {
            count: 0,
            control: ((if auto_reload {
                CONTROL_RELOAD
            } else {
                0
            }) + (if interrupt {
                CONTROL_INTERRUPT
            } else {
                0
            })) as u32,
            compare: 0xFFFF_FFFF,
            status: 0,
        }
    }

    pub open spec fn read_spec(self, offset: usize, size: usize) -> Result<u32, EmuError> {
        if size != 4 {
            Err(EmuError::DeviceError(DeviceFault::UnsupportedWidth))
        } else if offset == TIMER_COUNT {
            Ok(self.count)
        } else if offset == TIMER_CONTROL {
            Ok(self.control)
        } else if offset == TIMER_COMPARE {
            Ok(self.compare)
        } else if offset == TIMER_STATUS {
            Ok(self.status)
        } else {
            Err(EmuError::DeviceError(DeviceFault::InvalidOffset))
        }
    }

    /// The timer after a write; STATUS is write-1-to-clear.
    pub open spec fn write_spec(self, offset: usize, value: u32, size: usize) -> Result<
        Timer,
        EmuError,
    > {
        if size != 4 {
            Err(EmuError::DeviceError(DeviceFault::UnsupportedWidth))
        } else if offset == TIMER_COUNT {
            Ok(Timer { count: value, ..self })
        } else if offset == TIMER_CONTROL {
            Ok(Timer { control: value, ..self })
        } else if offset == TIMER_COMPARE {
            Ok(Timer { compare: value, ..self })
        } else if offset == TIMER_STATUS {
            Ok(Timer { status: self.status & !value, ..self })
        } else {
            Err(EmuError::DeviceError(DeviceFault::InvalidOffset))
        }
    }

    /// One tick: when enabled, COUNT advances (wrapping); on reaching COMPARE
    /// the match bit is set and, with auto-reload, COUNT restarts at zero.
    pub open spec fn tick_spec(self) -> Timer {
        if self.control & CONTROL_ENABLE == 0 {
            self
        } else {
            let c = if self.count == u32::MAX {
                0
            } else {
                (self.count + 1) as u32
            };
            if c == self.compare {
                Timer {
                    count: if self.control & CONTROL_RELOAD != 0 {
                        0
                    } else {
                        c
                    },
                    status: self.status | STATUS_MATCH,
                    ..self
                }
            } else {
                Timer { count: c, ..self }
            }
        }
    }

    pub open spec fn interrupt_spec(self) -> bool {
        self.control & CONTROL_INTERRUPT != 0 && self.status & STATUS_MATCH != 0
    }

    /// Stopped, counting from zero, compare at the largest count.
    pub fn new() -> (r: Self)
        ensures
            r == Timer::preset(false, false),
    {
        Timer { count: 0, control: 0, compare: 0xFFFF_FFFF, status: 0 }
    }

    /// A stopped timer whose auto-reload and interrupt bits are preset.
    pub fn new_with_config(auto_reload: bool, interrupt: bool) -> (r: Self)
        ensures
            r == Timer::preset(auto_reload, interrupt),
    {
        let mut control: u32 = 0;
        if auto_reload {
            control = control + CONTROL_RELOAD;
        }
        if interrupt {
            control = control + CONTROL_INTERRUPT;
        }
        Timer { count: 0, control, compare: 0xFFFF_FFFF, status: 0 }
    }

    /// Reads a register; only word accesses are accepted.
    pub fn read(&self, offset: usize, size: usize) -> (r: Result<u32, EmuError>)
        ensures
            r == self.read_spec(offset, size),
    {
        if size != 4 {
            return Err(EmuError::DeviceError(DeviceFault::UnsupportedWidth));
        }
        match offset {
            TIMER_COUNT => Ok(self.count),
            TIMER_CONTROL => Ok(self.control),
            TIMER_COMPARE => Ok(self.compare),
            TIMER_STATUS => Ok(self.status),
            _ => Err(EmuError::DeviceError(DeviceFault::InvalidOffset)),
        }
    }

    /// Writes a register; only word accesses are accepted.
    pub fn write(&mut self, offset: usize, value: u32, size: usize) -> (r: Result<(), EmuError>)
        ensures
            match old(self).write_spec(offset, value, size) {
                Ok(t) => r == Ok::<(), EmuError>(()) && *final(self) == t,
                Err(e) => r == Err::<(), EmuError>(e) && *final(self) == *old(self),
            },
    {
        if size != 4 {
            return Err(EmuError::DeviceError(DeviceFault::UnsupportedWidth));
        }
        match offset {
            TIMER_COUNT => {
                self.count = value;
                Ok(())
            },
            TIMER_CONTROL => {
                self.control = value;
                Ok(())
            },
            TIMER_COMPARE => {
                self.compare = value;
                Ok(())
            },
            TIMER_STATUS => {
                self.status = self.status & !value;
                Ok(())
            },
            _ => Err(EmuError::DeviceError(DeviceFault::InvalidOffset)),
        }
    }

    /// Advances the timer by one instruction.
    pub fn tick(&mut self)
        ensures
            *final(self) == old(self).tick_spec(),
    {
        if self.control & CONTROL_ENABLE != 0 {
            self.count = self.count.wrapping_add(1);
            if self.count == self.compare {
                self.status = self.status | STATUS_MATCH;
                if self.control & CONTROL_RELOAD != 0 {
                    self.count = 0;
                }
            }
        }
    }

    /// Whether the timer requests an interrupt: interrupt enabled and matched.
    pub fn interrupt_pending(&self) -> (r: bool)
        ensures
            r == self.interrupt_spec(),
    {
        (self.control & CONTROL_INTERRUPT != 0) && (self.status & STATUS_MATCH != 0)
    }
}

} // verus!
