use vstd::prelude::*;
use crate::error::{DeviceFault, EmuError};

verus! {

pub const DISPLAY_CTRL: usize = 0x0;
pub const DISPLAY_STATUS: usize = 0x4;
pub const DISPLAY_X: usize = 0xC;
pub const DISPLAY_Y: usize = 0x10;
pub const DISPLAY_COLOR: usize = 0x14;
pub const DISPLAY_UPDATE: usize = 0x18;

/// CTRL bit 0: the display is on.
pub const CTRL_ENABLE: u32 = 1;
/// STATUS bit 0: ready.
pub const STATUS_READY: u32 = 1;

pub const DISPLAY_WIDTH: u32 = 300;
pub const DISPLAY_HEIGHT: u32 = 400;
pub const FRAME_PIXELS: usize = 120000;

/// A framebuffer display. Pixels are `0xRRGGBB`, row-major. Writing UPDATE
/// while enabled asks the host to show the frame (`frame_pending`).
pub struct Display {
    pub control: u32,
    pub status: u32,
    pub x: u32,
    pub y: u32,
    pub color: u32,
    pub frame: Vec<u32>,
    pub frame_pending: bool,
}

pub struct DisplayView {
    pub control: u32,
    pub status: u32,
    pub x: u32,
    pub y: u32,
    pub color: u32,
    pub frame: Seq<u32>,
    pub frame_pending: bool,
}

impl View for Display {
    type V = DisplayView;

    open spec fn view(&self) -> DisplayView {
        DisplayView {
            control: self.control,
            status: self.status,
            x: self.x,
            y: self.y,
            color: self.color,
            frame: self.frame@,
            frame_pending: self.frame_pending,
        }
    }
}

pub open spec fn pixel_index(x: u32, y: u32) -> int {
    y * DISPLAY_WIDTH + x
}

impl DisplayView {
    /// The frame has its full size and the cursor lies on it.
    pub open spec fn wf(self) -> bool {
        self.frame.len() == FRAME_PIXELS && self.x < DISPLAY_WIDTH && self.y < DISPLAY_HEIGHT
    }

    pub open spec fn enabled(self) -> bool {
        self.control & CTRL_ENABLE != 0
    }

    pub open spec fn initial(control: u32) -> DisplayView {
        DisplayView {
            control,
            status: STATUS_READY,
            x: 0,
            y: 0,
            color: 0,
            frame: Seq::new(FRAME_PIXELS as nat, |i: int| 0u32),
            frame_pending: false,
        }
    }

    pub open spec fn read_spec(self, offset: usize, size: usize) -> Result<u32, EmuError> {
        if size != 4 {
            Err(EmuError::DeviceError(DeviceFault::UnsupportedWidth))
        } else if offset == DISPLAY_CTRL {
            Ok(self.control)
        } else if offset == DISPLAY_STATUS {
            Ok(self.status)
        } else if offset == DISPLAY_X {
            Ok(self.x)
        } else if offset == DISPLAY_Y {
            Ok(self.y)
        } else if offset == DISPLAY_COLOR {
            Ok(self.color)
        } else {
            Err(EmuError::DeviceError(DeviceFault::InvalidOffset))
        }
    }

    /// The display after a write. COLOR sets the pixel under the cursor when
    /// enabled; UPDATE requests a redraw when enabled; coordinates beyond the
    /// frame are refused.
    pub open spec fn write_spec(self, offset: usize, value: u32, size: usize) -> Result<
        DisplayView,
        EmuError,
    > {
        if size != 4 {
            Err(EmuError::DeviceError(DeviceFault::UnsupportedWidth))
        } else if offset == DISPLAY_CTRL {
            Ok(DisplayView { control: value, ..self })
        } else if offset == DISPLAY_X {
            if value >= DISPLAY_WIDTH {
                Err(EmuError::DeviceError(DeviceFault::CoordinateOutOfRange))
            } else {
                Ok(DisplayView { x: value, ..self })
            }
        } else if offset == DISPLAY_Y {
            if value >= DISPLAY_HEIGHT {
                Err(EmuError::DeviceError(DeviceFault::CoordinateOutOfRange))
            } else {
                Ok(DisplayView { y: value, ..self })
            }
        } else if offset == DISPLAY_COLOR {
            if self.enabled() {
                Ok(
                    DisplayView {
                        color: value,
                        frame: self.frame.update(pixel_index(self.x, self.y), value & 0xff_ffff),
                        ..self
                    },
                )
            } else {
                Ok(DisplayView { color: value, ..self })
            }
        } else if offset == DISPLAY_UPDATE {
            if self.enabled() {
                Ok(DisplayView { frame_pending: true, ..self })
            } else {
                Ok(self)
            }
        } else {
            Err(EmuError::DeviceError(DeviceFault::InvalidOffset))
        }
    }
}

impl Display {
    /// Switched off, ready, black frame.
    pub fn new() -> (r: Self)
        ensures
            r@ == DisplayView::initial(0),
    {
        let frame: Vec<u32> = vec![0u32; FRAME_PIXELS];
        proof {
            assert(frame@ =~= DisplayView::initial(0).frame);
        }
        Display { control: 0, status: STATUS_READY, x: 0, y: 0, color: 0, frame, frame_pending: false }
    }

    /// Switched on, ready, black frame.
    pub fn new_enabled() -> (r: Self)
        ensures
            r@ == DisplayView::initial(CTRL_ENABLE),
    {
        let mut d = Display::new();
        d.control = CTRL_ENABLE;
        d
    }

    /// Switched off: the bus does not route to it.
    pub fn new_disabled() -> (r: Self)
        ensures
            r@ == DisplayView::initial(0),
    {
        Display::new()
    }

    /// Reads a register; only word accesses are accepted.
    pub fn read(&self, offset: usize, size: usize) -> (r: Result<u32, EmuError>)
        ensures
            r == self@.read_spec(offset, size),
    {
        if size != 4 {
            return Err(EmuError::DeviceError(DeviceFault::UnsupportedWidth));
        }
        match offset {
            DISPLAY_CTRL => Ok(self.control),
            DISPLAY_STATUS => Ok(self.status),
            DISPLAY_X => Ok(self.x),
            DISPLAY_Y => Ok(self.y),
            DISPLAY_COLOR => Ok(self.color),
            _ => Err(EmuError::DeviceError(DeviceFault::InvalidOffset)),
        }
    }

    /// Writes a register; only word accesses are accepted.
    pub fn write(&mut self, offset: usize, value: u32, size: usize) -> (r: Result<(), EmuError>)
        requires
            old(self)@.wf(),
        ensures
            final(self)@.wf(),
            match old(self)@.write_spec(offset, value, size) {
                Ok(d) => r == Ok::<(), EmuError>(()) && final(self)@ == d,
                Err(e) => r == Err::<(), EmuError>(e) && final(self)@ == old(self)@,
            },
    {
        if size != 4 {
            return Err(EmuError::DeviceError(DeviceFault::UnsupportedWidth));
        }
        match offset {
            DISPLAY_CTRL => {
                self.control = value;
                Ok(())
            },
            DISPLAY_X => {
                if value >= DISPLAY_WIDTH {
                    return Err(EmuError::DeviceError(DeviceFault::CoordinateOutOfRange));
                }
                self.x = value;
                Ok(())
            },
            DISPLAY_Y => {
                if value >= DISPLAY_HEIGHT {
                    return Err(EmuError::DeviceError(DeviceFault::CoordinateOutOfRange));
                }
                self.y = value;
                Ok(())
            },
            DISPLAY_COLOR => {
                self.color = value;
                if self.control & CTRL_ENABLE != 0 {
                    proof {
                        assert(self.y * DISPLAY_WIDTH + self.x < FRAME_PIXELS) by (nonlinear_arith)
                            requires
                                self.x < DISPLAY_WIDTH,
                                self.y < DISPLAY_HEIGHT,
                        ;
                    }
                    let i = (self.y * DISPLAY_WIDTH + self.x) as usize;
                    self.frame.set(i, value & 0xff_ffff);
                }
                Ok(())
            },
            DISPLAY_UPDATE => {
                if self.control & CTRL_ENABLE != 0 {
                    self.frame_pending = true;
                }
                Ok(())
            },
            _ => Err(EmuError::DeviceError(DeviceFault::InvalidOffset)),
        }
    }

    /// The host closed the window: the display switches off.
    pub fn close(&mut self)
        ensures
            final(self)@ == (DisplayView { control: old(self)@.control & !CTRL_ENABLE, ..old(self)@ }),
    {
        self.control = self.control & !CTRL_ENABLE;
    }

    /// Whether a redraw was requested since the last call; clears the request.
    pub fn take_frame_request(&mut self) -> (r: bool)
        ensures
            r == old(self)@.frame_pending,
            final(self)@ == (DisplayView { frame_pending: false, ..old(self)@ }),
    {
        let r = self.frame_pending;
        self.frame_pending = false;
        r
    }
}

} // verus!
