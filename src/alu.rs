use vstd::prelude::*;
use crate::inst::{BranchOp, RegOp};

verus! {

/// A word read as a two's-complement signed number.
pub open spec fn signed_of(a: u32) -> int {
    if a < 0x8000_0000 {
        a as int
    } else {
        a - 0x1_0000_0000
    }
}

/// The word whose value is `x` modulo 2^32.
pub open spec fn wrap(x: int) -> u32 {
    (x % 0x1_0000_0000) as u32
}

/// The two's-complement word of a signed immediate.
pub open spec fn word_of(x: i32) -> u32 {
    wrap(x as int)
}

/// Arithmetic right shift: the vacated high bits take copies of the sign bit.
pub open spec fn sra_spec(a: u32, s: u32) -> u32 {
    if a < 0x8000_0000 {
        a >> s
    } else {
        !((!a) >> s)
    }
}

/// The ALU: wrapping add and subtract, bitwise logic, shifts by the low five
/// bits of `b`, and signed or unsigned set-less-than.
pub open spec fn alu_spec(op: RegOp, a: u32, b: u32) -> u32 {
    match op {
        RegOp::Add | RegOp::Addi => wrap(a + b),
        RegOp::Sub => wrap(a - b),
        RegOp::And | RegOp::Andi => a & b,
        RegOp::Or | RegOp::Ori => a | b,
        RegOp::Xor | RegOp::Xori => a ^ b,
        RegOp::Sll | RegOp::Slli => a << (b & 0x1f),
        RegOp::Srl | RegOp::Srli => a >> (b & 0x1f),
        RegOp::Sra | RegOp::Srai => sra_spec(a, b & 0x1f),
        RegOp::Slt | RegOp::Slti => if signed_of(a) < signed_of(b) {
            1
        } else {
            0
        },
        RegOp::Sltu | RegOp::Sltiu => if a < b {
            1
        } else {
            0
        },
    }
}

/// Whether a branch with condition `cond` is taken on operands `a`, `b`.
pub open spec fn branch_taken_spec(cond: BranchOp, a: u32, b: u32) -> bool {
    match cond {
        BranchOp::Eq => a == b,
        BranchOp::Ne => a != b,
        BranchOp::Lt => signed_of(a) < signed_of(b),
        BranchOp::Ge => signed_of(a) >= signed_of(b),
        BranchOp::Ltu => a < b,
        BranchOp::Geu => a >= b,
    }
}

/// The low `size` bytes of `v`, sign- or zero-extended to a word.
pub open spec fn extend_spec(v: u32, size: usize, signed: bool) -> u32 {
    if size == 1 {
        let b = v % 0x100;
        if signed && b >= 0x80 {
            (b + 0xFFFF_FF00) as u32
        } else {
            b
        }
    } else if size == 2 {
        let h = v % 0x1_0000;
        if signed && h >= 0x8000 {
            (h + 0xFFFF_0000) as u32
        } else {
            h
        }
    } else {
        v
    }
}

proof fn lemma_signed_order(a: u32, b: u32)
    by (bit_vector)
    ensures
        ((a as i32) < (b as i32)) == ((a ^ 0x8000_0000) < (b ^ 0x8000_0000)),
        a < 0x8000_0000 ==> a ^ 0x8000_0000 == a + 0x8000_0000,
        a >= 0x8000_0000 ==> a ^ 0x8000_0000 == a - 0x8000_0000,
        b < 0x8000_0000 ==> b ^ 0x8000_0000 == b + 0x8000_0000,
        b >= 0x8000_0000 ==> b ^ 0x8000_0000 == b - 0x8000_0000,
{
}

/// The branch conditions are the RV32I ones: equality, and signed (`as i32`)
/// or unsigned order of the two register values.
pub proof fn lemma_branch_reference(cond: BranchOp, a: u32, b: u32)
    ensures
        branch_taken_spec(cond, a, b) == match cond {
            BranchOp::Eq => a == b,
            BranchOp::Ne => a != b,
            BranchOp::Lt => (a as i32) < (b as i32),
            BranchOp::Ge => (a as i32) >= (b as i32),
            BranchOp::Ltu => a < b,
            BranchOp::Geu => a >= b,
        },
{
    lemma_signed_order(a, b);
}

proof fn lemma_shift_amount(b: u32)
    by (bit_vector)
    ensures
        b & 0x1f < 32,
{
}

/// The two's-complement word of a signed immediate.
pub fn imm_word(x: i32) -> (r: u32)
    ensures
        r == word_of(x),
{
    if x < 0 {
        ((x as i64) + 0x1_0000_0000) as u32
    } else {
        x as u32
    }
}

/// `a + off`, wrapping.
pub fn add_offset(a: u32, off: i32) -> (r: u32)
    ensures
        r == wrap(a + off),
{
    a.wrapping_add_signed(off)
}

/// Signed comparison `a < b` of two words.
pub fn signed_lt(a: u32, b: u32) -> (r: bool)
    ensures
        r == (signed_of(a) < signed_of(b)),
{
    let na = a >= 0x8000_0000;
    let nb = b >= 0x8000_0000;
    if na != nb {
        na
    } else {
        a < b
    }
}

/// Computes `alu_spec(op, a, b)`.
pub fn alu(op: RegOp, a: u32, b: u32) -> (r: u32)
    ensures
        r == alu_spec(op, a, b),
{
    proof {
        lemma_shift_amount(b);
    }
    match op {
        RegOp::Add | RegOp::Addi => a.wrapping_add(b),
        RegOp::Sub => a.wrapping_sub(b),
        RegOp::And | RegOp::Andi => a & b,
        RegOp::Or | RegOp::Ori => a | b,
        RegOp::Xor | RegOp::Xori => a ^ b,
        RegOp::Sll | RegOp::Slli => a << (b & 0x1f),
        RegOp::Srl | RegOp::Srli => a >> (b & 0x1f),
        RegOp::Sra | RegOp::Srai => {
            let s = b & 0x1f;
            if a < 0x8000_0000 {
                a >> s
            } else {
                !((!a) >> s)
            }
        },
        RegOp::Slt | RegOp::Slti => if signed_lt(a, b) {
            1
        } else {
            0
        },
        RegOp::Sltu | RegOp::Sltiu => if a < b {
            1
        } else {
            0
        },
    }
}

/// Decides a branch condition.
pub fn branch_taken(cond: BranchOp, a: u32, b: u32) -> (r: bool)
    ensures
        r == branch_taken_spec(cond, a, b),
{
    match cond {
        BranchOp::Eq => a == b,
        BranchOp::Ne => a != b,
        BranchOp::Lt => signed_lt(a, b),
        BranchOp::Ge => !signed_lt(a, b),
        BranchOp::Ltu => a < b,
        BranchOp::Geu => a >= b,
    }
}

/// Sign- or zero-extends the low `size` bytes of a loaded value.
pub fn extend_load(v: u32, size: usize, signed: bool) -> (r: u32)
    ensures
        r == extend_spec(v, size, signed),
{
    if size == 1 {
        let b = v % 0x100;
        if signed && b >= 0x80 {
            b + 0xFFFF_FF00
        } else {
            b
        }
    } else if size == 2 {
        let h = v % 0x1_0000;
        if signed && h >= 0x8000 {
            h + 0xFFFF_0000
        } else {
            h
        }
    } else {
        v
    }
}

} // verus!
