use vstd::prelude::*;

verus! {

/// Number of general-purpose registers.
pub const NUM_REGS: usize = 32;

/// The 32 general-purpose registers. Register `x0` always holds zero.
pub struct RegisterFile {
    regs: [u32; 32],
}

impl View for RegisterFile {
    type V = Seq<u32>;

    closed spec fn view(&self) -> Seq<u32> {
        self.regs@
    }
}

impl RegisterFile {
    /// Well-formed: `x0` holds zero in the raw array.
    pub open spec fn wf(&self) -> bool {
        self@.len() == 32 && self@[0] == 0
    }

    /// The register file after writing `value` to register `index`
    /// (writes to `x0` are discarded).
    pub open spec fn written(regs: Seq<u32>, index: int, value: u32) -> Seq<u32> {
        if index == 0 {
            regs
        } else {
            regs.update(index, value)
        }
    }

    /// All registers zero.
    pub fn new() -> (r: Self)
        ensures
            r.wf(),
            forall|i: int| 0 <= i < 32 ==> #[trigger] r@[i] == 0,
    {
        RegisterFile { regs: [0u32; 32] }
    }

    /// Reads register `index`; `x0` reads as zero.
    pub fn read(&self, index: usize) -> (r: u32)
        requires
            self.wf(),
            index < 32,
        ensures
            r == self@[index as int],
            index == 0 ==> r == 0,
    {
        if index == 0 {
            0
        } else {
            self.regs[index]
        }
    }

    /// Writes `value` to register `index`; a write to `x0` is discarded.
    pub fn write(&mut self, index: usize, value: u32)
        requires
            old(self).wf(),
            index < 32,
        ensures
            final(self).wf(),
            final(self)@ == Self::written(old(self)@, index as int, value),
    {
        if index != 0 {
            self.regs[index] = value;
        }
    }

    /// The raw register values, `x0` first.
    pub fn values(&self) -> (r: Vec<u32>)
        requires
            self.wf(),
        ensures
            r@ == self@,
    {
        let mut out: Vec<u32> = Vec::new();
        let mut i: usize = 0;
        while i < 32
            invariant
                i <= 32,
                self.wf(),
                out@ == self@.subrange(0, i as int),
            decreases 32 - i,
        {
            out.push(self.regs[i]);
            i = i + 1;
        }
        assert(out@ =~= self@);
        out
    }
}

} // verus!
