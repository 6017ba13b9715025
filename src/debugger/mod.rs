use vstd::prelude::*;
use std::collections::VecDeque;

verus! {

/// Default capacity of each trace buffer.
pub const DEFAULT_TRACE_LIMIT: usize = 16;

/// Tracer settings.
#[derive(Debug, Clone, Copy, PartialEq, Eq, Structural)]
pub struct DebugConfig {
    pub instruction_trace: bool,
    pub memory_trace: bool,
    pub register_trace: bool,
    pub single_step: bool,
    pub trace_limit: usize,
}

/// An executed instruction: where it was fetched and its raw word.
#[derive(Debug, Clone, Copy, PartialEq, Eq, Structural)]
pub struct InstrTrace {
    pub pc: u32,
    pub inst: u32,
}

#[derive(Debug, Clone, Copy, PartialEq, Eq, Structural)]
pub enum MemAccess {
    Read,
    Write,
}

/// A memory access: direction, address, width and the value moved.
#[derive(Debug, Clone, Copy, PartialEq, Eq, Structural)]
pub struct MemTrace {
    pub kind: MemAccess,
    pub addr: u32,
    pub size: usize,
    pub value: u32,
}

/// A recorded event, as the host shows it.
#[derive(Debug, Clone, Copy, PartialEq, Eq, Structural)]
pub enum TraceEvent {
    Instruction(InstrTrace),
    Memory(MemTrace),
}

/// `s` with `x` appended, keeping only the newest `limit` entries.
pub open spec fn bounded_push<T>(s: Seq<T>, x: T, limit: usize) -> Seq<T> {
    let t = s.push(x);
    if t.len() > limit {
        t.subrange(t.len() - limit, t.len() as int)
    } else {
        t
    }
}

/// The tracer: four switches, two bounded FIFO histories (instructions and
/// memory accesses), and the events recorded but not yet shown.
pub struct Debugger {
    pub itrace_enabled: bool,
    pub mtrace_enabled: bool,
    pub regtrace_enabled: bool,
    pub single_step: bool,
    pub instruction_trace: VecDeque<InstrTrace>,
    pub memory_trace: VecDeque<MemTrace>,
    pub pending: Vec<TraceEvent>,
    pub trace_limit: usize,
}

impl Debugger {
    pub open spec fn instructions(&self) -> Seq<InstrTrace> {
        self.instruction_trace@
    }

    pub open spec fn accesses(&self) -> Seq<MemTrace> {
        self.memory_trace@
    }

    pub open spec fn pending_events(&self) -> Seq<TraceEvent> {
        self.pending@
    }

    pub open spec fn limit(&self) -> usize {
        self.trace_limit
    }

    /// The four switches and the limit agree.
    pub open spec fn same_settings(&self, other: &Debugger) -> bool {
        &&& self.itrace_enabled == other.itrace_enabled
        &&& self.mtrace_enabled == other.mtrace_enabled
        &&& self.regtrace_enabled == other.regtrace_enabled
        &&& self.single_step == other.single_step
        &&& self.trace_limit == other.trace_limit
    }

    /// Neither history holds more than the limit.
    pub open spec fn wf(&self) -> bool {
        self.instructions().len() <= self.limit() && self.accesses().len() <= self.limit()
    }

    /// Traces on, single-step off, 16 entries per history.
    pub fn new() -> (r: Self)
        ensures
            r.wf(),
            r.itrace_enabled && r.mtrace_enabled && r.regtrace_enabled && !r.single_step,
            r.limit() == DEFAULT_TRACE_LIMIT,
            r.instructions().len() == 0 && r.accesses().len() == 0 && r.pending_events().len()
                == 0,
    {
        Debugger::new_with_config(
            DebugConfig {
                instruction_trace: true,
                memory_trace: true,
                register_trace: true,
                single_step: false,
                trace_limit: DEFAULT_TRACE_LIMIT,
            },
        )
    }

    /// Switches and history limit as configured.
    pub fn new_with_config(config: DebugConfig) -> (r: Self)
        ensures
            r.wf(),
            r.itrace_enabled == config.instruction_trace,
            r.mtrace_enabled == config.memory_trace,
            r.regtrace_enabled == config.register_trace,
            r.single_step == config.single_step,
            r.limit() == config.trace_limit,
            r.instructions().len() == 0 && r.accesses().len() == 0 && r.pending_events().len()
                == 0,
    {
        Debugger {
            itrace_enabled: config.instruction_trace,
            mtrace_enabled: config.memory_trace,
            regtrace_enabled: config.register_trace,
            single_step: config.single_step,
            instruction_trace: VecDeque::new(),
            memory_trace: VecDeque::new(),
            pending: Vec::new(),
            trace_limit: config.trace_limit,
        }
    }

    /// Records an executed instruction when instruction tracing is on.
    pub fn trace_instruction(&mut self, pc: u32, inst: u32)
        requires
            old(self).wf(),
        ensures
            final(self).wf(),
            final(self).itrace_enabled == old(self).itrace_enabled,
            final(self).mtrace_enabled == old(self).mtrace_enabled,
            final(self).regtrace_enabled == old(self).regtrace_enabled,
            final(self).single_step == old(self).single_step,
            final(self).limit() == old(self).limit(),
            final(self).accesses() == old(self).accesses(),
            old(self).itrace_enabled ==> {
                &&& final(self).instructions() == bounded_push(
                    old(self).instructions(),
                    InstrTrace { pc, inst },
                    old(self).limit(),
                )
                &&& final(self).pending_events() == old(self).pending_events().push(
                    TraceEvent::Instruction(InstrTrace { pc, inst }),
                )
            },
            !old(self).itrace_enabled ==> final(self).instructions() == old(self).instructions()
                && final(self).pending_events() == old(self).pending_events(),
    {
        if !self.itrace_enabled {
            return;
        }
        let t = InstrTrace { pc, inst };
        self.instruction_trace.push_back(t);
        self.pending.push(TraceEvent::Instruction(t));
        let ghost pushed = self.instruction_trace@;
        if self.instruction_trace.len() > self.trace_limit {
            self.instruction_trace.pop_front();
        }
        proof {
            if pushed.len() > self.trace_limit {
                assert(self.instruction_trace@ =~= pushed.subrange(
                    pushed.len() - self.trace_limit,
                    pushed.len() as int,
                ));
            }
        }
    }

    fn trace_memory(&mut self, t: MemTrace)
        requires
            old(self).wf(),
        ensures
            final(self).wf(),
            final(self).itrace_enabled == old(self).itrace_enabled,
            final(self).mtrace_enabled == old(self).mtrace_enabled,
            final(self).regtrace_enabled == old(self).regtrace_enabled,
            final(self).single_step == old(self).single_step,
            final(self).limit() == old(self).limit(),
            final(self).instructions() == old(self).instructions(),
            old(self).mtrace_enabled ==> {
                &&& final(self).accesses() == bounded_push(
                    old(self).accesses(),
                    t,
                    old(self).limit(),
                )
                &&& final(self).pending_events() == old(self).pending_events().push(
                    TraceEvent::Memory(t),
                )
            },
            !old(self).mtrace_enabled ==> final(self).accesses() == old(self).accesses()
                && final(self).pending_events() == old(self).pending_events(),
    {
        if !self.mtrace_enabled {
            return;
        }
        self.memory_trace.push_back(t);
        self.pending.push(TraceEvent::Memory(t));
        let ghost pushed = self.memory_trace@;
        if self.memory_trace.len() > self.trace_limit {
            self.memory_trace.pop_front();
        }
        proof {
            if pushed.len() > self.trace_limit {
                assert(self.memory_trace@ =~= pushed.subrange(
                    pushed.len() - self.trace_limit,
                    pushed.len() as int,
                ));
            }
        }
    }

    /// Records a memory read when memory tracing is on.
    pub fn trace_memory_read(&mut self, addr: u32, size: usize, value: u32)
        requires
            old(self).wf(),
        ensures
            final(self).wf(),
            final(self).itrace_enabled == old(self).itrace_enabled,
            final(self).mtrace_enabled == old(self).mtrace_enabled,
            final(self).regtrace_enabled == old(self).regtrace_enabled,
            final(self).single_step == old(self).single_step,
            final(self).limit() == old(self).limit(),
            final(self).instructions() == old(self).instructions(),
            old(self).mtrace_enabled ==> final(self).accesses() == bounded_push(
                old(self).accesses(),
                MemTrace { kind: MemAccess::Read, addr, size, value },
                old(self).limit(),
            ),
            !old(self).mtrace_enabled ==> final(self).accesses() == old(self).accesses(),
    {
        self.trace_memory(MemTrace { kind: MemAccess::Read, addr, size, value });
    }

    /// Records a memory write when memory tracing is on.
    pub fn trace_memory_write(&mut self, addr: u32, size: usize, value: u32)
        requires
            old(self).wf(),
        ensures
            final(self).wf(),
            final(self).itrace_enabled == old(self).itrace_enabled,
            final(self).mtrace_enabled == old(self).mtrace_enabled,
            final(self).regtrace_enabled == old(self).regtrace_enabled,
            final(self).single_step == old(self).single_step,
            final(self).limit() == old(self).limit(),
            final(self).instructions() == old(self).instructions(),
            old(self).mtrace_enabled ==> final(self).accesses() == bounded_push(
                old(self).accesses(),
                MemTrace { kind: MemAccess::Write, addr, size, value },
                old(self).limit(),
            ),
            !old(self).mtrace_enabled ==> final(self).accesses() == old(self).accesses(),
    {
        self.trace_memory(MemTrace { kind: MemAccess::Write, addr, size, value });
    }

    /// The instruction history, oldest first.
    pub fn instruction_history(&self) -> (r: Vec<InstrTrace>)
        ensures
            r@ == self.instructions(),
    {
        let mut out: Vec<InstrTrace> = Vec::new();
        let mut i: usize = 0;
        while i < self.instruction_trace.len()
            invariant
                i <= self.instructions().len(),
                out@ == self.instructions().subrange(0, i as int),
            decreases self.instructions().len() - i,
        {
            out.push(self.instruction_trace[i]);
            i = i + 1;
        }
        proof {
            assert(out@ =~= self.instructions());
        }
        out
    }

    /// The memory-access history, oldest first.
    pub fn memory_history(&self) -> (r: Vec<MemTrace>)
        ensures
            r@ == self.accesses(),
    {
        let mut out: Vec<MemTrace> = Vec::new();
        let mut i: usize = 0;
        while i < self.memory_trace.len()
            invariant
                i <= self.accesses().len(),
                out@ == self.accesses().subrange(0, i as int),
            decreases self.accesses().len() - i,
        {
            out.push(self.memory_trace[i]);
            i = i + 1;
        }
        proof {
            assert(out@ =~= self.accesses());
        }
        out
    }

    /// Hands over the events recorded since the last call, oldest first.
    pub fn take_pending(&mut self) -> (r: Vec<TraceEvent>)
        requires
            old(self).wf(),
        ensures
            final(self).wf(),
            r@ == old(self).pending_events(),
            final(self).pending_events().len() == 0,
            final(self).instructions() == old(self).instructions(),
            final(self).accesses() == old(self).accesses(),
            final(self).limit() == old(self).limit(),
            final(self).itrace_enabled == old(self).itrace_enabled,
            final(self).mtrace_enabled == old(self).mtrace_enabled,
            final(self).regtrace_enabled == old(self).regtrace_enabled,
            final(self).single_step == old(self).single_step,
    {
        let mut out: Vec<TraceEvent> = Vec::new();
        std::mem::swap(&mut out, &mut self.pending);
        out
    }
}

} // verus!
