use vstd::prelude::*;
use crate::alu::{
    add_offset, alu, alu_spec, branch_taken, branch_taken_spec, extend_load, extend_spec, imm_word,
    word_of, wrap,
};
use crate::debugger::{bounded_push, DebugConfig, Debugger, InstrTrace, MemAccess, MemTrace};
use crate::devices::DeviceConfig;
use crate::error::EmuError;
use crate::inst::{
    decode_instruction, decode_spec, lemma_decode_wf, DecodedInst, NextPc, Operation, SystemCallType,
};
use crate::loader::Loader;
use crate::memory::{spliced, Memory, MemoryConfig, MemoryView, CODE_BASE};
use crate::register::RegisterFile;

verus! {

/// System-call number (in `a7`) that ends the program with status `a0`.
pub const SYS_EXIT: u32 = 93;
/// System-call number (in `a7`) that reports `a0` to the host.
pub const SYS_WRITE: u32 = 64;
/// Register `a0`: first argument and exit status.
pub const REG_A0: usize = 10;
/// Register `a7`: system-call number.
pub const REG_A7: usize = 17;

/// Everything the processor is built from.
#[derive(Debug)]
pub struct CpuConfig {
    pub memory: MemoryConfig,
    pub devices: DeviceConfig,
    pub debug: DebugConfig,
}

/// What a successful step asks the host to report.
#[derive(Debug, Clone, Copy, PartialEq, Eq, Structural)]
pub enum StepEvent {
    /// Nothing to report.
    Continue,
    /// The write system call, with its argument.
    WriteSyscall { value: u32 },
    /// A system-call number without an implementation.
    UnknownSyscall { number: u32 },
}

/// The architectural state: registers, program counter, memory and devices.
pub struct CpuView {
    pub regs: Seq<u32>,
    pub pc: u32,
    pub mem: MemoryView,
}

/// The program counter after an instruction with update `next`, at `pc`,
/// with registers `regs` as they were before the instruction.
pub open spec fn next_pc_spec(next: NextPc, pc: u32, regs: Seq<u32>) -> u32 {
    match next {
        NextPc::Plus4 => wrap(pc + 4),
        NextPc::Jump(off) => wrap(pc + off),
        NextPc::JumpReg { rs1, offset } => wrap(regs[rs1 as int] + offset) & !1u32,
        NextPc::Branch { cond, rs1, rs2, offset } => if branch_taken_spec(
            cond,
            regs[rs1 as int],
            regs[rs2 as int],
        ) {
            wrap(pc + offset)
        } else {
            wrap(pc + 4)
        },
    }
}

/// The register and memory effect of `op` executed at `s.pc`, with what the
/// host should report; or the fault that stops it.
pub open spec fn effect_spec(s: CpuView, op: Operation) -> Result<
    (Seq<u32>, MemoryView, StepEvent),
    EmuError,
> {
    let regs = s.regs;
    match op {
        Operation::RegWrite { rd, value } => Ok(
            (RegisterFile::written(regs, rd as int, value), s.mem, StepEvent::Continue),
        ),
        Operation::AddUpperPc { rd, imm } => Ok(
            (RegisterFile::written(regs, rd as int, wrap(s.pc + imm)), s.mem, StepEvent::Continue),
        ),
        Operation::RegImmOp { rd, rs1, imm, op } => Ok(
            (
                RegisterFile::written(regs, rd as int, alu_spec(op, regs[rs1 as int], word_of(imm))),
                s.mem,
                StepEvent::Continue,
            ),
        ),
        Operation::RegRegOp { rd, rs1, rs2, op } => Ok(
            (
                RegisterFile::written(
                    regs,
                    rd as int,
                    alu_spec(op, regs[rs1 as int], regs[rs2 as int]),
                ),
                s.mem,
                StepEvent::Continue,
            ),
        ),
        Operation::Load { rd, rs1, offset, size, signed } => match s.mem.read_spec(
            wrap(regs[rs1 as int] + offset),
            size,
        ) {
            Ok(v) => Ok(
                (
                    RegisterFile::written(regs, rd as int, extend_spec(v, size, signed)),
                    s.mem,
                    StepEvent::Continue,
                ),
            ),
            Err(e) => Err(e),
        },
        Operation::Store { rs1, rs2, offset, size } => match s.mem.write_spec(
            wrap(regs[rs1 as int] + offset),
            regs[rs2 as int],
            size,
        ) {
            Ok(m) => Ok((regs, m, StepEvent::Continue)),
            Err(e) => Err(e),
        },
        Operation::Jump { rd, offset } => Ok(
            (RegisterFile::written(regs, rd as int, wrap(s.pc + 4)), s.mem, StepEvent::Continue),
        ),
        Operation::Branch { .. } => Ok((regs, s.mem, StepEvent::Continue)),
        Operation::SystemCall(SystemCallType::Ebreak) => Err(EmuError::BreakpointHit),
        Operation::SystemCall(SystemCallType::Ecall) => {
            let number = regs[REG_A7 as int];
            if number == SYS_EXIT {
                Err(EmuError::ProgramExit { code: regs[REG_A0 as int] })
            } else if number == SYS_WRITE {
                Ok((regs, s.mem, StepEvent::WriteSyscall { value: regs[REG_A0 as int] }))
            } else {
                Ok((regs, s.mem, StepEvent::UnknownSyscall { number }))
            }
        },
    }
}

/// One step: fetch the word at `pc`, decode it, refuse a misaligned next
/// `pc`, apply the effect, advance `pc`, tick the devices. A fault leaves the
/// state as it was.
pub open spec fn step_spec(s: CpuView) -> Result<(CpuView, StepEvent), EmuError> {
    match s.mem.read_spec(s.pc, 4) {
        Err(e) => Err(e),
        Ok(w) => match decode_spec(w) {
            Err(d) => Err(EmuError::DecodeError(d)),
            Ok(d) => {
                let npc = next_pc_spec(d.next_pc, s.pc, s.regs);
                if npc % 4 != 0 {
                    Err(EmuError::UnalignedPc)
                } else {
                    match effect_spec(s, d.op) {
                        Err(e) => Err(e),
                        Ok((regs, mem, ev)) => Ok(
                            (
                                CpuView {
                                    regs,
                                    pc: npc,
                                    mem: MemoryView { devices: mem.devices.tick_spec(), ..mem },
                                },
                                ev,
                            ),
                        ),
                    }
                }
            },
        },
    }
}

/// `x0` stays zero: a step from a state whose `x0` is zero, when it
/// succeeds, leaves `x0` zero (a failed step leaves the state as it was).
pub proof fn lemma_step_keeps_zero_register(s: CpuView)
    requires
        s.regs.len() == 32,
        s.regs[0] == 0,
    ensures
        step_spec(s) matches Ok((t, _)) ==> t.regs.len() == 32 && t.regs[0] == 0,
{
    if let Ok(w) = s.mem.read_spec(s.pc, 4) {
        lemma_decode_wf(w);
    }
}

/// A successful step leaves the program counter 4-byte aligned.
pub proof fn lemma_step_aligns_pc(s: CpuView)
    ensures
        step_spec(s) matches Ok((t, _)) ==> t.pc % 4 == 0,
{
}

/// A load or store whose effective address is not a multiple of its width
/// makes the step fail with `MisalignedAccess`.
pub proof fn lemma_misaligned_access_fails(s: CpuView)
    requires
        s.regs.len() == 32,
        s.mem.read_spec(s.pc, 4) is Ok,
        decode_spec(s.mem.read_spec(s.pc, 4)->Ok_0) is Ok,
    ensures
        ({
            let op = decode_spec(s.mem.read_spec(s.pc, 4)->Ok_0)->Ok_0.op;
            &&& op matches Operation::Load { rs1, offset, size, .. } ==> wrap(s.regs[rs1 as int] + offset)
                % (size as u32) != 0 ==> step_spec(s) == Err::<(CpuView, StepEvent), EmuError>(
                EmuError::MisalignedAccess,
            )
            &&& op matches Operation::Store { rs1, offset, size, .. } ==> wrap(s.regs[rs1 as int] + offset)
                % (size as u32) != 0 ==> step_spec(s) == Err::<(CpuView, StepEvent), EmuError>(
                EmuError::MisalignedAccess,
            )
        }),
{
    let w = s.mem.read_spec(s.pc, 4)->Ok_0;
    lemma_decode_wf(w);
    assert(s.pc % 4 == 0);
    assert(wrap(s.pc + 4) % 4 == 0);
}

/// A conditional branch goes to `pc + offset` exactly when its condition
/// holds of the two registers, and to `pc + 4` otherwise.
pub proof fn lemma_branch_resolution(s: CpuView)
    requires
        s.regs.len() == 32,
        s.mem.read_spec(s.pc, 4) is Ok,
        decode_spec(s.mem.read_spec(s.pc, 4)->Ok_0) is Ok,
    ensures
        decode_spec(s.mem.read_spec(s.pc, 4)->Ok_0)->Ok_0.next_pc matches NextPc::Branch {
            cond,
            rs1,
            rs2,
            offset,
        } ==> ({
            let target = if branch_taken_spec(cond, s.regs[rs1 as int], s.regs[rs2 as int]) {
                wrap(s.pc + offset)
            } else {
                wrap(s.pc + 4)
            };
            &&& target % 4 == 0 ==> step_spec(s) is Ok && step_spec(s)->Ok_0.0.pc == target
            &&& target % 4 != 0 ==> step_spec(s) == Err::<(CpuView, StepEvent), EmuError>(
                EmuError::UnalignedPc,
            )
        }),
{
    let w = s.mem.read_spec(s.pc, 4)->Ok_0;
    lemma_decode_wf(w);
}

/// The processor: register file, program counter, memory with its devices,
/// and the tracer.
pub struct Cpu {
    registers: RegisterFile,
    pc: u32,
    memory: Memory,
    debugger: Debugger,
}

impl View for Cpu {
    type V = CpuView;

    closed spec fn view(&self) -> CpuView {
        CpuView { regs: self.registers@, pc: self.pc, mem: self.memory@ }
    }
}

impl Cpu {
    pub closed spec fn tracer(&self) -> Debugger {
        self.debugger
    }

    pub closed spec fn wf(&self) -> bool {
        self.registers.wf() && self.memory@.wf() && self.debugger.wf()
    }

    /// Registers zero, `pc` at the entry point, memory and devices as configured.
    pub fn new(config: CpuConfig) -> (r: Self)
        ensures
            r.wf(),
            r@.pc == CODE_BASE,
            forall|i: int| 0 <= i < 32 ==> #[trigger] r@.regs[i] == 0,
            r@.mem.ram.len() == config.memory.size,
            forall|i: int| 0 <= i < config.memory.size ==> #[trigger] r@.mem.ram[i] == 0,
            r@.mem.devices == crate::devices::DevicesView::initial(config.devices),
            r.tracer().itrace_enabled == config.debug.instruction_trace,
            r.tracer().mtrace_enabled == config.debug.memory_trace,
            r.tracer().regtrace_enabled == config.debug.register_trace,
            r.tracer().single_step == config.debug.single_step,
    {
        Cpu {
            registers: RegisterFile::new(),
            pc: CODE_BASE,
            memory: Memory::new(config.memory, config.devices),
            debugger: Debugger::new_with_config(config.debug),
        }
    }

    pub fn get_pc(&self) -> (r: u32)
        ensures
            r == self@.pc,
    {
        self.pc
    }

    /// Moves `pc`; a target that is not 4-byte aligned is refused.
    pub fn set_pc(&mut self, new_pc: u32) -> (r: Result<(), EmuError>)
        ensures
            new_pc % 4 == 0 ==> r == Ok::<(), EmuError>(()) && final(self)@ == (CpuView {
                pc: new_pc,
                ..old(self)@
            }),
            new_pc % 4 != 0 ==> r == Err::<(), EmuError>(EmuError::UnalignedPc) && final(self)@
                == old(self)@,
            final(self).wf() == old(self).wf(),
            final(self).tracer() == old(self).tracer(),
    {
        if new_pc % 4 != 0 {
            return Err(EmuError::UnalignedPc);
        }
        self.pc = new_pc;
        Ok(())
    }

    /// Moves `pc` by `offset` bytes (wrapping); a misaligned target is refused.
    pub fn branch(&mut self, offset: i32) -> (r: Result<(), EmuError>)
        ensures
            wrap(old(self)@.pc + offset) % 4 == 0 ==> r == Ok::<(), EmuError>(()) && final(self)@
                == (CpuView { pc: wrap(old(self)@.pc + offset), ..old(self)@ }),
            wrap(old(self)@.pc + offset) % 4 != 0 ==> r == Err::<(), EmuError>(
                EmuError::UnalignedPc,
            ) && final(self)@ == old(self)@,
            final(self).wf() == old(self).wf(),
            final(self).tracer() == old(self).tracer(),
    {
        let target = add_offset(self.pc, offset);
        self.set_pc(target)
    }

    /// Register `index` (`x0` reads zero).
    pub fn read_register(&self, index: usize) -> (r: u32)
        requires
            self.wf(),
            index < 32,
        ensures
            r == self@.regs[index as int],
    {
        self.registers.read(index)
    }

    /// All 32 registers, `x0` first.
    pub fn registers(&self) -> (r: Vec<u32>)
        requires
            self.wf(),
        ensures
            r@ == self@.regs,
    {
        self.registers.values()
    }

    /// Reads memory at `addr`, recording the access when memory tracing is on.
    pub fn read_memory(&mut self, addr: u32, len: usize) -> (r: Result<u32, EmuError>)
        requires
            old(self).wf(),
        ensures
            final(self).wf(),
            r == old(self)@.mem.read_spec(addr, len),
            final(self)@ == old(self)@,
            final(self).tracer().same_settings(&old(self).tracer()),
            final(self).tracer().instructions() == old(self).tracer().instructions(),
            old(self).tracer().mtrace_enabled && r is Ok ==> final(self).tracer().accesses()
                == bounded_push(
                old(self).tracer().accesses(),
                MemTrace { kind: MemAccess::Read, addr, size: len, value: r->Ok_0 },
                old(self).tracer().limit(),
            ),
            !old(self).tracer().mtrace_enabled || r is Err ==> final(self).tracer().accesses()
                == old(self).tracer().accesses(),
    {
        let r = self.memory.vread(addr, len);
        match r {
            Ok(v) => self.debugger.trace_memory_read(addr, len, v),
            Err(_) => {},
        }
        r
    }

    /// Writes memory at `addr`, recording the access when memory tracing is on.
    pub fn write_memory(&mut self, addr: u32, value: u32, len: usize) -> (r: Result<(), EmuError>)
        requires
            old(self).wf(),
        ensures
            final(self).wf(),
            match old(self)@.mem.write_spec(addr, value, len) {
                Ok(m) => r == Ok::<(), EmuError>(()) && final(self)@ == (CpuView {
                    mem: m,
                    ..old(self)@
                }),
                Err(e) => r == Err::<(), EmuError>(e) && final(self)@ == old(self)@,
            },
            final(self).tracer().same_settings(&old(self).tracer()),
            final(self).tracer().instructions() == old(self).tracer().instructions(),
            old(self).tracer().mtrace_enabled ==> final(self).tracer().accesses() == bounded_push(
                old(self).tracer().accesses(),
                MemTrace { kind: MemAccess::Write, addr, size: len, value },
                old(self).tracer().limit(),
            ),
            !old(self).tracer().mtrace_enabled ==> final(self).tracer().accesses() == old(
                self,
            ).tracer().accesses(),
    {
        self.debugger.trace_memory_write(addr, len, value);
        self.memory.vwrite(addr, value, len)
    }

    /// Applies the effect of `d.op` at the current `pc`; a fault changes nothing.
    fn execute(&mut self, d: &DecodedInst) -> (r: Result<StepEvent, EmuError>)
        requires
            old(self).wf(),
            d.wf(),
        ensures
            final(self).wf(),
            final(self).tracer().same_settings(&old(self).tracer()),
            final(self).tracer().instructions() == old(self).tracer().instructions(),
            match effect_spec(old(self)@, d.op) {
                Ok((regs, mem, ev)) => r == Ok::<StepEvent, EmuError>(ev) && final(self)@ == (
                CpuView { regs, mem, pc: old(self)@.pc }),
                Err(e) => r == Err::<StepEvent, EmuError>(e) && final(self)@ == old(self)@,
            },
    {
        match d.op {
            Operation::RegWrite { rd, value } => {
                self.registers.write(rd, value);
                Ok(StepEvent::Continue)
            },
            Operation::AddUpperPc { rd, imm } => {
                self.registers.write(rd, self.pc.wrapping_add(imm));
                Ok(StepEvent::Continue)
            },
            Operation::RegImmOp { rd, rs1, imm, op } => {
                let a = self.registers.read(rs1);
                self.registers.write(rd, alu(op, a, imm_word(imm)));
                Ok(StepEvent::Continue)
            },
            Operation::RegRegOp { rd, rs1, rs2, op } => {
                let a = self.registers.read(rs1);
                let b = self.registers.read(rs2);
                self.registers.write(rd, alu(op, a, b));
                Ok(StepEvent::Continue)
            },
            Operation::Load { rd, rs1, offset, size, signed } => {
                let addr = add_offset(self.registers.read(rs1), offset);
                match self.read_memory(addr, size) {
                    Ok(v) => {
                        self.registers.write(rd, extend_load(v, size, signed));
                        Ok(StepEvent::Continue)
                    },
                    Err(e) => Err(e),
                }
            },
            Operation::Store { rs1, rs2, offset, size } => {
                let addr = add_offset(self.registers.read(rs1), offset);
                let value = self.registers.read(rs2);
                match self.write_memory(addr, value, size) {
                    Ok(()) => Ok(StepEvent::Continue),
                    Err(e) => Err(e),
                }
            },
            Operation::Jump { rd, .. } => {
                self.registers.write(rd, self.pc.wrapping_add(4));
                Ok(StepEvent::Continue)
            },
            Operation::Branch { .. } => Ok(StepEvent::Continue),
            Operation::SystemCall(SystemCallType::Ebreak) => Err(EmuError::BreakpointHit),
            Operation::SystemCall(SystemCallType::Ecall) => {
                let number = self.registers.read(REG_A7);
                let a0 = self.registers.read(REG_A0);
                if number == SYS_EXIT {
                    Err(EmuError::ProgramExit { code: a0 })
                } else if number == SYS_WRITE {
                    Ok(StepEvent::WriteSyscall { value: a0 })
                } else {
                    Ok(StepEvent::UnknownSyscall { number })
                }
            },
        }
    }

    /// Executes one instruction. On success the state is `step_spec`'s; on a
    /// fault it is unchanged (only the tracer may have recorded the attempt).
    pub fn step(&mut self) -> (r: Result<StepEvent, EmuError>)
        requires
            old(self).wf(),
        ensures
            final(self).wf(),
            final(self).tracer().same_settings(&old(self).tracer()),
            final(self)@.regs.len() == 32,
            final(self)@.regs[0] == 0,
            match step_spec(old(self)@) {
                Ok((s, ev)) => r == Ok::<StepEvent, EmuError>(ev) && final(self)@ == s,
                Err(e) => r == Err::<StepEvent, EmuError>(e) && final(self)@ == old(self)@,
            },
            old(self)@.mem.read_spec(old(self)@.pc, 4) matches Ok(w) ==> final(self).tracer().instructions() == if old(self).tracer().itrace_enabled {
                bounded_push(
                    old(self).tracer().instructions(),
                    InstrTrace { pc: old(self)@.pc, inst: w },
                    old(self).tracer().limit(),
                )
            } else {
                old(self).tracer().instructions()
            },
    {
        let word = match self.read_memory(self.pc, 4) {
            Ok(w) => w,
            Err(e) => return Err(e),
        };
        self.debugger.trace_instruction(self.pc, word);
        let d = match decode_instruction(word) {
            Ok(d) => d,
            Err(e) => return Err(EmuError::DecodeError(e)),
        };
        proof {
            lemma_decode_wf(word);
        }
        let npc = self.next_pc(&d.next_pc);
        if npc % 4 != 0 {
            return Err(EmuError::UnalignedPc);
        }
        let ev = match self.execute(&d) {
            Ok(ev) => ev,
            Err(e) => return Err(e),
        };
        self.pc = npc;
        self.memory.tick_devices();
        Ok(ev)
    }

    /// Loads a program image at the entry point and moves `pc` there.
    pub fn load_program(&mut self, image: &[u8]) -> (r: Result<(), EmuError>)
        requires
            old(self).wf(),
        ensures
            final(self).wf(),
            final(self).tracer() == old(self).tracer(),
            match old(self)@.mem.bulk_spec(CODE_BASE, image@.len() as int) {
                Ok(p) => r == Ok::<(), EmuError>(()) && final(self)@ == (CpuView {
                    pc: CODE_BASE,
                    mem: MemoryView { ram: spliced(old(self)@.mem.ram, p as int, image@), ..old(self)@.mem },
                    ..old(self)@
                }),
                Err(e) => r == Err::<(), EmuError>(e) && final(self)@ == old(self)@,
            },
    {
        let loader = Loader::new();
        match loader.load_program(&mut self.memory, image) {
            Ok(()) => {},
            Err(e) => return Err(e),
        }
        self.pc = loader.get_entry_point();
        Ok(())
    }

    /// The `length` bytes of RAM at `start`, or nothing when that range is
    /// not all RAM.
    pub fn dump_memory(&self, start: u32, length: usize) -> (r: Vec<u8>)
        ensures
            match self@.mem.bulk_spec(start, length as int) {
                Ok(p) => r@ == self@.mem.ram.subrange(p as int, p + length),
                Err(_) => r@.len() == 0,
            },
    {
        match self.memory.read_bytes(start, length) {
            Ok(bytes) => vstd::slice::slice_to_vec(bytes),
            Err(_) => Vec::new(),
        }
    }

    pub fn set_itrace(&mut self, enabled: bool)
        ensures
            final(self)@ == old(self)@,
            final(self).wf() == old(self).wf(),
            final(self).tracer() == (Debugger { itrace_enabled: enabled, ..old(self).tracer() }),
    {
        self.debugger.itrace_enabled = enabled;
    }

    pub fn set_mtrace(&mut self, enabled: bool)
        ensures
            final(self)@ == old(self)@,
            final(self).wf() == old(self).wf(),
            final(self).tracer() == (Debugger { mtrace_enabled: enabled, ..old(self).tracer() }),
    {
        self.debugger.mtrace_enabled = enabled;
    }

    pub fn set_regtrace(&mut self, enabled: bool)
        ensures
            final(self)@ == old(self)@,
            final(self).wf() == old(self).wf(),
            final(self).tracer() == (Debugger { regtrace_enabled: enabled, ..old(self).tracer() }),
    {
        self.debugger.regtrace_enabled = enabled;
    }

    pub fn set_single_step(&mut self, enabled: bool)
        ensures
            final(self)@ == old(self)@,
            final(self).wf() == old(self).wf(),
            final(self).tracer() == (Debugger { single_step: enabled, ..old(self).tracer() }),
    {
        self.debugger.single_step = enabled;
    }

    pub fn debugger(&self) -> (r: &Debugger)
        ensures
            *r == self.tracer(),
    {
        &self.debugger
    }

    /// The trace events recorded since the last call, oldest first.
    pub fn take_trace_events(&mut self) -> (r: Vec<crate::debugger::TraceEvent>)
        requires
            old(self).wf(),
        ensures
            final(self).wf(),
            final(self)@ == old(self)@,
            r@ == old(self).tracer().pending_events(),
            final(self).tracer().same_settings(&old(self).tracer()),
    {
        self.debugger.take_pending()
    }

    /// The bytes the UART has sent since the last call.
    pub fn take_uart_output(&mut self) -> (r: Vec<u8>)
        requires
            old(self).wf(),
        ensures
            final(self).wf(),
            final(self).tracer() == old(self).tracer(),
            r@ == old(self)@.mem.devices.uart.tx,
            final(self)@ == (CpuView {
                mem: MemoryView { devices: old(self)@.mem.devices.uart_drained(), ..old(self)@.mem },
                ..old(self)@
            }),
    {
        self.memory.take_uart_output()
    }

    /// The wave samples produced since the last call.
    pub fn take_wave_samples(&mut self) -> (r: Vec<crate::devices::wave::WaveSample>)
        requires
            old(self).wf(),
        ensures
            final(self).wf(),
            final(self).tracer() == old(self).tracer(),
            r@ == old(self)@.mem.devices.wave.samples,
            final(self)@ == (CpuView {
                mem: MemoryView { devices: old(self)@.mem.devices.wave_drained(), ..old(self)@.mem },
                ..old(self)@
            }),
    {
        self.memory.take_wave_samples()
    }

    /// Whether the display asked for a redraw since the last call.
    pub fn take_frame_request(&mut self) -> (r: bool)
        requires
            old(self).wf(),
        ensures
            final(self).wf(),
            final(self).tracer() == old(self).tracer(),
            r == old(self)@.mem.devices.display.frame_pending,
            final(self)@ == (CpuView {
                mem: MemoryView { devices: old(self)@.mem.devices.frame_taken(), ..old(self)@.mem },
                ..old(self)@
            }),
    {
        self.memory.take_frame_request()
    }

    /// The display's pixels, row-major, `0xRRGGBB`.
    pub fn frame(&self) -> (r: &[u32])
        ensures
            r@ == self@.mem.devices.display.frame,
    {
        self.memory.devices().frame()
    }

    /// The host closed the display window.
    pub fn close_display(&mut self)
        requires
            old(self).wf(),
        ensures
            final(self).wf(),
            final(self).tracer() == old(self).tracer(),
            final(self)@ == (CpuView {
                mem: MemoryView { devices: old(self)@.mem.devices.display_closed(), ..old(self)@.mem },
                ..old(self)@
            }),
    {
        self.memory.close_display();
    }

    /// Pending interrupt lines (bit 0: timer).
    pub fn check_interrupts(&self) -> (r: u32)
        ensures
            r == self@.mem.devices.interrupts_spec(),
    {
        self.memory.devices().check_interrupts()
    }

    fn next_pc(&self, next: &NextPc) -> (r: u32)
        requires
            self.wf(),
            match *next {
                NextPc::JumpReg { rs1, .. } => rs1 < 32,
                NextPc::Branch { rs1, rs2, .. } => rs1 < 32 && rs2 < 32,
                _ => true,
            },
        ensures
            r == next_pc_spec(*next, self@.pc, self@.regs),
    {
        match *next {
            NextPc::Plus4 => self.pc.wrapping_add(4),
            NextPc::Jump(off) => add_offset(self.pc, off),
            NextPc::JumpReg { rs1, offset } => add_offset(self.registers.read(rs1), offset)
                & !1u32,
            NextPc::Branch { cond, rs1, rs2, offset } => {
                if branch_taken(cond, self.registers.read(rs1), self.registers.read(rs2)) {
                    add_offset(self.pc, offset)
                } else {
                    self.pc.wrapping_add(4)
                }
            },
        }
    }
}

} // verus!
