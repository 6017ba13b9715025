use vstd::prelude::*;
use crate::error::{DeviceFault, EmuError};

verus! {

pub const WAVE_CONTROL: usize = 0x0;
pub const WAVE_FREQUENCY: usize = 0x4;
pub const WAVE_AMPLITUDE: usize = 0x8;
pub const WAVE_PHASE: usize = 0xC;
pub const WAVE_DUTY: usize = 0x10;

pub const MAX_AMPLITUDE: u32 = 255;
pub const MAX_DUTY: u32 = 100;
pub const FULL_TURN: u32 = 360;

/// Waveform selected by CONTROL bits 3:1.
#[derive(Debug, Clone, Copy, PartialEq, Eq, Structural)]
pub enum WaveType {
    Sine,
    Square,
    Triangle,
    Sawtooth,
}

/// Everything needed to compute one output sample: the generator's settings
/// at the tick and the index of the sample.
#[derive(Debug, Clone, Copy, PartialEq, Eq, Structural)]
pub struct WaveSample {
    pub waveform: WaveType,
    pub frequency: u32,
    pub amplitude: u32,
    pub phase: u32,
    pub duty: u32,
    pub sample_count: u32,
}

/// A waveform generator. Each tick while enabled produces one sample, queued
/// in `samples` until the host writes it out. Its clock is the instruction
/// count (one sample per executed instruction); `sample_rate` is the
/// configured rate, kept for the host.
pub struct Wave {
    pub control: u32,
    pub frequency: u32,
    pub amplitude: u32,
    pub phase: u32,
    pub duty: u32,
    pub sample_count: u32,
    pub sample_rate: u32,
    pub samples: Vec<WaveSample>,
}

pub struct WaveView {
    pub control: u32,
    pub frequency: u32,
    pub amplitude: u32,
    pub phase: u32,
    pub duty: u32,
    pub sample_count: u32,
    pub sample_rate: u32,
    pub samples: Seq<WaveSample>,
}

impl View for Wave {
    type V = WaveView;

    open spec fn view(&self) -> WaveView {
        WaveView {
            control: self.control,
            frequency: self.frequency,
            amplitude: self.amplitude,
            phase: self.phase,
            duty: self.duty,
            sample_count: self.sample_count,
            sample_rate: self.sample_rate,
            samples: self.samples@,
        }
    }
}

pub open spec fn wave_type_of(control: u32) -> WaveType {
    let sel = (control >> 1) & 0x7;
    if sel == 1 {
        WaveType::Square
    } else if sel == 2 {
        WaveType::Triangle
    } else if sel == 3 {
        WaveType::Sawtooth
    } else {
        WaveType::Sine
    }
}

pub open spec fn min_spec(a: u32, b: u32) -> u32 {
    if a < b {
        a
    } else {
        b
    }
}

impl WaveView {
    /// Disabled; 1 kHz sine at full amplitude, zero phase, 50% duty.
    pub open spec fn initial(sample_rate: u32) -> WaveView {
        WaveView {
            control: 0,
            frequency: 1000,
            amplitude: 255,
            phase: 0,
            duty: 50,
            sample_count: 0,
            sample_rate,
            samples: Seq::empty(),
        }
    }

    pub open spec fn enabled(self) -> bool {
        self.control & 1 != 0
    }

    pub open spec fn read_spec(self, offset: usize, size: usize) -> Result<u32, EmuError> {
        if size != 4 {
            Err(EmuError::DeviceError(DeviceFault::UnsupportedWidth))
        } else if offset == WAVE_CONTROL {
            Ok(self.control)
        } else if offset == WAVE_FREQUENCY {
            Ok(self.frequency)
        } else if offset == WAVE_AMPLITUDE {
            Ok(self.amplitude)
        } else if offset == WAVE_PHASE {
            Ok(self.phase)
        } else if offset == WAVE_DUTY {
            Ok(self.duty)
        } else {
            Err(EmuError::DeviceError(DeviceFault::InvalidOffset))
        }
    }

    /// The generator after a write: amplitude is clamped to 255, duty to 100,
    /// and phase taken modulo 360 degrees.
    pub open spec fn write_spec(self, offset: usize, value: u32, size: usize) -> Result<
        WaveView,
        EmuError,
    > {
        if size != 4 {
            Err(EmuError::DeviceError(DeviceFault::UnsupportedWidth))
        } else if offset == WAVE_CONTROL {
            Ok(WaveView { control: value, ..self })
        } else if offset == WAVE_FREQUENCY {
            Ok(WaveView { frequency: value, ..self })
        } else if offset == WAVE_AMPLITUDE {
            Ok(WaveView { amplitude: min_spec(value, MAX_AMPLITUDE), ..self })
        } else if offset == WAVE_PHASE {
            Ok(WaveView { phase: value % FULL_TURN, ..self })
        } else if offset == WAVE_DUTY {
            Ok(WaveView { duty: min_spec(value, MAX_DUTY), ..self })
        } else {
            Err(EmuError::DeviceError(DeviceFault::InvalidOffset))
        }
    }

    pub open spec fn current_sample(self) -> WaveSample {
        WaveSample {
            waveform: wave_type_of(self.control),
            frequency: self.frequency,
            amplitude: self.amplitude,
            phase: self.phase,
            duty: self.duty,
            sample_count: self.sample_count,
        }
    }

    /// One tick: when enabled, queue the current sample and advance the
    /// sample counter (wrapping).
    pub open spec fn tick_spec(self) -> WaveView {
        if self.enabled() {
            WaveView {
                samples: self.samples.push(self.current_sample()),
                sample_count: if self.sample_count == u32::MAX {
                    0
                } else {
                    (self.sample_count + 1) as u32
                },
                ..self
            }
        } else {
            self
        }
    }
}

impl Wave {
    /// Disabled; 1 kHz sine at full amplitude, zero phase, 50% duty.
    pub fn new() -> (r: Self)
        ensures
            r@ == WaveView::initial(1000),
    {
        Wave::new_with_config(1000)
    }

    /// As `new`, with the configured sample rate.
    pub fn new_with_config(sample_rate: u32) -> (r: Self)
        ensures
            r@ == WaveView::initial(sample_rate),
    {
        Wave {
            control: 0,
            frequency: 1000,
            amplitude: 255,
            phase: 0,
            duty: 50,
            sample_count: 0,
            sample_rate,
            samples: Vec::new(),
        }
    }

    pub fn get_wave_type(&self) -> (r: WaveType)
        ensures
            r == wave_type_of(self.control),
    {
        match (self.control >> 1) & 0x7 {
            1 => WaveType::Square,
            2 => WaveType::Triangle,
            3 => WaveType::Sawtooth,
            _ => WaveType::Sine,
        }
    }

    pub fn is_enabled(&self) -> (r: bool)
        ensures
            r == self@.enabled(),
    {
        self.control & 1 != 0
    }

    /// Reads a register; only word accesses are accepted.
    pub fn read(&self, offset: usize, size: usize) -> (r: Result<u32, EmuError>)
        ensures
            r == self@.read_spec(offset, size),
    {
        if size != 4 {
            return Err(EmuError::DeviceError(DeviceFault::UnsupportedWidth));
        }
        match offset {
            WAVE_CONTROL => Ok(self.control),
            WAVE_FREQUENCY => Ok(self.frequency),
            WAVE_AMPLITUDE => Ok(self.amplitude),
            WAVE_PHASE => Ok(self.phase),
            WAVE_DUTY => Ok(self.duty),
            _ => Err(EmuError::DeviceError(DeviceFault::InvalidOffset)),
        }
    }

    /// Writes a register; only word accesses are accepted.
    pub fn write(&mut self, offset: usize, value: u32, size: usize) -> (r: Result<(), EmuError>)
        ensures
            match old(self)@.write_spec(offset, value, size) {
                Ok(w) => r == Ok::<(), EmuError>(()) && final(self)@ == w,
                Err(e) => r == Err::<(), EmuError>(e) && final(self)@ == old(self)@,
            },
    {
        if size != 4 {
            return Err(EmuError::DeviceError(DeviceFault::UnsupportedWidth));
        }
        match offset {
            WAVE_CONTROL => {
                self.control = value;
                Ok(())
            },
            WAVE_FREQUENCY => {
                self.frequency = value;
                Ok(())
            },
            WAVE_AMPLITUDE => {
                self.amplitude = if value < MAX_AMPLITUDE {
                    value
                } else {
                    MAX_AMPLITUDE
                };
                Ok(())
            },
            WAVE_PHASE => {
                self.phase = value % FULL_TURN;
                Ok(())
            },
            WAVE_DUTY => {
                self.duty = if value < MAX_DUTY {
                    value
                } else {
                    MAX_DUTY
                };
                Ok(())
            },
            _ => Err(EmuError::DeviceError(DeviceFault::InvalidOffset)),
        }
    }

    /// Advances the generator by one instruction.
    pub fn tick(&mut self)
        ensures
            final(self)@ == old(self)@.tick_spec(),
    {
        if self.is_enabled() {
            let s = WaveSample {
                waveform: self.get_wave_type(),
                frequency: self.frequency,
                amplitude: self.amplitude,
                phase: self.phase,
                duty: self.duty,
                sample_count: self.sample_count,
            };
            self.samples.push(s);
            self.sample_count = self.sample_count.wrapping_add(1);
        }
    }

    /// Hands the queued samples to the host, oldest first, and empties the queue.
    pub fn take_samples(&mut self) -> (r: Vec<WaveSample>)
        ensures
            r@ == old(self)@.samples,
            final(self)@ == (WaveView { samples: Seq::empty(), ..old(self)@ }),
    {
        let mut out: Vec<WaveSample> = Vec::new();
        std::mem::swap(&mut out, &mut self.samples);
        out
    }
}

} // verus!
