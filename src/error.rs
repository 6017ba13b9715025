use vstd::prelude::*;
use crate::inst::DecodeError;

verus! {

/// Why a device refused an access.
#[derive(Debug, Clone, Copy, PartialEq, Eq, Structural)]
pub enum DeviceFault {
    /// The access width is not the one the device accepts.
    UnsupportedWidth,
    /// No register at this offset (or not in this direction).
    InvalidOffset,
    /// A write to a read-only register.
    ReadOnly,
    /// A display coordinate beyond the frame.
    CoordinateOutOfRange,
    /// An address in the device region that no device claims.
    Unmapped,
    /// A bulk transfer aimed at the device region.
    BulkAccess,
}

/// The faults that end execution.
#[derive(Debug, Clone, Copy, PartialEq, Eq, Structural)]
pub enum EmuError {
    DecodeError(DecodeError),
    MisalignedAccess,
    OutOfBounds,
    InvalidSize,
    DeviceError(DeviceFault),
    DeviceDisabled,
    UnalignedPc,
    ProgramExit { code: u32 },
    BreakpointHit,
}

impl EmuError {
    /// The process exit status that the driver ends with on this fault.
    pub fn exit_code(&self) -> (r: i32)
        ensures
            r == match *self {
                EmuError::BreakpointHit => 0i32,
                EmuError::ProgramExit { code } => #[verifier::truncate] (code as i32),
                _ => 1i32,
            },
    {
        match self {
            EmuError::BreakpointHit => 0,
            EmuError::ProgramExit { code } => #[verifier::truncate] (*code as i32),
            _ => 1,
        }
    }
}

} // verus!
