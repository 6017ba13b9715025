use vstd::prelude::*;

verus! {

/// Instruction encoding formats, distinguished by where the immediate lives.
#[derive(Debug, Clone, Copy, PartialEq, Eq, Structural)]
pub enum InstType {
    R,
    I,
    S,
    B,
    U,
    J,
}

/// Register indices and the sign-extended immediate of one instruction word.
#[derive(Debug, Clone, Copy, PartialEq, Eq, Structural)]
pub struct Operands {
    pub rd: usize,
    pub rs1: usize,
    pub rs2: usize,
    pub imm: i32,
}

/// ALU operations; the `-i` forms take their second operand from the immediate.
#[derive(Debug, Clone, Copy, PartialEq, Eq, Structural)]
pub enum RegOp {
    Add,
    Sub,
    And,
    Or,
    Xor,
    Slt,
    Sltu,
    Sll,
    Srl,
    Sra,
    Addi,
    Slti,
    Sltiu,
    Xori,
    Ori,
    Andi,
    Slli,
    Srli,
    Srai,
}

/// Branch conditions.
#[derive(Debug, Clone, Copy, PartialEq, Eq, Structural)]
pub enum BranchOp {
    Eq,
    Ne,
    Lt,
    Ge,
    Ltu,
    Geu,
}

/// The two environment-call instructions.
#[derive(Debug, Clone, Copy, PartialEq, Eq, Structural)]
pub enum SystemCallType {
    Ecall,
    Ebreak,
}

/// The register or memory effect of an instruction.
#[allow(inconsistent_fields)]
#[derive(Debug, Clone, Copy, PartialEq, Eq, Structural)]
pub enum Operation {
    /// Write a constant to `rd` (LUI).
    RegWrite { rd: usize, value: u32 },
    /// Write `pc + imm` to `rd` (AUIPC); the executor supplies `pc`.
    AddUpperPc { rd: usize, imm: u32 },
    RegRegOp { rd: usize, rs1: usize, rs2: usize, op: RegOp },
    RegImmOp { rd: usize, rs1: usize, imm: i32, op: RegOp },
    /// No register effect: the branch is resolved by the `NextPc`.
    Branch { rs1: usize, rs2: usize, offset: i32, op: BranchOp },
    /// Write the link `pc + 4` to `rd`; `offset` is informational.
    Jump { rd: usize, offset: i32 },
    /// Load `size` bytes, sign-extended when `signed`.
    Load { rd: usize, rs1: usize, offset: i32, size: usize, signed: bool },
    Store { rs1: usize, rs2: usize, offset: i32, size: usize },
    SystemCall(SystemCallType),
}

/// How the program counter advances after an instruction.
#[derive(Debug, Clone, Copy, PartialEq, Eq, Structural)]
pub enum NextPc {
    Plus4,
    /// `pc + offset`.
    Jump(i32),
    /// `(regs[rs1] + offset) & !1`.
    JumpReg { rs1: usize, offset: i32 },
    /// `pc + offset` when the condition holds, else `pc + 4`.
    Branch { cond: BranchOp, rs1: usize, rs2: usize, offset: i32 },
}

/// A decoded instruction: its effect and its program-counter update.
#[derive(Debug, Clone, Copy, PartialEq, Eq, Structural)]
pub struct DecodedInst {
    pub op: Operation,
    pub next_pc: NextPc,
}

/// Why a word is not a valid RV32I instruction.
#[derive(Debug, Clone, Copy, PartialEq, Eq, Structural)]
pub enum DecodeError {
    UnknownOpcode,
    InvalidSystem,
    InvalidJalr,
    InvalidBranch,
    InvalidLoad,
    InvalidStore,
    InvalidAluImm,
    InvalidAluReg,
}

pub open spec fn opcode_of(w: u32) -> u32 {
    w & 0x7f
}

pub open spec fn funct3_of(w: u32) -> u32 {
    (w >> 12) & 0x7
}

pub open spec fn funct7_of(w: u32) -> u32 {
    (w >> 25) & 0x7f
}

pub open spec fn rd_of(w: u32) -> u32 {
    (w >> 7) & 0x1f
}

pub open spec fn rs1_of(w: u32) -> u32 {
    (w >> 15) & 0x1f
}

pub open spec fn rs2_of(w: u32) -> u32 {
    (w >> 20) & 0x1f
}

/// Sign extension of `v`, a value of `2 * half` codes, whose top half is negative.
pub open spec fn sext(v: int, half: int) -> int {
    if v >= half {
        v - 2 * half
    } else {
        v
    }
}

/// I-type immediate: `sext(bits[31:20], 12)`.
pub open spec fn imm_i(w: u32) -> int {
    sext((w >> 20) as int, 0x800)
}

/// S-type immediate: `sext({bits[31:25], bits[11:7]}, 12)`.
pub open spec fn imm_s(w: u32) -> int {
    sext(funct7_of(w) * 32 + rd_of(w), 0x800)
}

/// B-type immediate: `sext({bits[31], bits[7], bits[30:25], bits[11:8], 0}, 13)`.
pub open spec fn imm_b(w: u32) -> int {
    sext(
        ((w >> 31) & 1) * 0x1000 + ((w >> 7) & 1) * 0x800 + ((w >> 25) & 0x3f) * 0x20 + ((w
            >> 8) & 0xf) * 2,
        0x1000,
    )
}

/// U-type immediate: `{bits[31:12], 12'b0}` read as a signed word.
pub open spec fn imm_u(w: u32) -> int {
    sext((w & 0xfffff000) as int, 0x8000_0000)
}

/// J-type immediate: `sext({bits[31], bits[19:12], bits[20], bits[30:21], 0}, 21)`.
pub open spec fn imm_j(w: u32) -> int {
    sext(
        ((w >> 31) & 1) * 0x10_0000 + ((w >> 12) & 0xff) * 0x1000 + ((w >> 20) & 1) * 0x800 + ((w
            >> 21) & 0x3ff) * 2,
        0x10_0000,
    )
}

pub open spec fn imm_of(w: u32, t: InstType) -> int {
    match t {
        InstType::R => 0,
        InstType::I => imm_i(w),
        InstType::S => imm_s(w),
        InstType::B => imm_b(w),
        InstType::U => imm_u(w),
        InstType::J => imm_j(w),
    }
}

/// Bounds of the bit fields that the decoder extracts.
proof fn lemma_field_bounds(w: u32)
    by (bit_vector)
    ensures
        w & 0x7f < 128,
        (w >> 7) & 0x1f < 32,
        (w >> 15) & 0x1f < 32,
        (w >> 20) & 0x1f < 32,
        (w >> 12) & 0x7 < 8,
        (w >> 25) & 0x7f < 128,
        w >> 20 < 4096,
        (w >> 31) & 1 < 2,
        (w >> 7) & 1 < 2,
        (w >> 25) & 0x3f < 64,
        (w >> 8) & 0xf < 16,
        (w >> 12) & 0xff < 256,
        (w >> 20) & 1 < 2,
        (w >> 21) & 0x3ff < 1024,
{
}

/// An R-type word.
pub open spec fn encode_r(opcode: u32, rd: u32, f3: u32, rs1: u32, rs2: u32, f7: u32) -> u32 {
    (f7 << 25) | (rs2 << 20) | (rs1 << 15) | (f3 << 12) | (rd << 7) | opcode
}

/// An I-type word; `imm` is the 12-bit immediate field.
pub open spec fn encode_i(opcode: u32, rd: u32, f3: u32, rs1: u32, imm: u32) -> u32 {
    (imm << 20) | (rs1 << 15) | (f3 << 12) | (rd << 7) | opcode
}

/// An S-type word; `imm` is the 12-bit immediate, split around `rs2`.
pub open spec fn encode_s(opcode: u32, f3: u32, rs1: u32, rs2: u32, imm: u32) -> u32 {
    ((imm >> 5) << 25) | (rs2 << 20) | (rs1 << 15) | (f3 << 12) | ((imm & 0x1f) << 7) | opcode
}

/// A B-type word; `imm` is the 13-bit even offset.
pub open spec fn encode_b(opcode: u32, f3: u32, rs1: u32, rs2: u32, imm: u32) -> u32 {
    (((imm >> 12) & 1) << 31) | (((imm >> 5) & 0x3f) << 25) | (rs2 << 20) | (rs1 << 15) | (f3
        << 12) | (((imm >> 1) & 0xf) << 8) | (((imm >> 11) & 1) << 7) | opcode
}

/// A U-type word; `imm` is the upper 20 bits.
pub open spec fn encode_u(opcode: u32, rd: u32, imm: u32) -> u32 {
    (imm << 12) | (rd << 7) | opcode
}

/// A J-type word; `imm` is the 21-bit even offset.
pub open spec fn encode_j(opcode: u32, rd: u32, imm: u32) -> u32 {
    (((imm >> 20) & 1) << 31) | (((imm >> 1) & 0x3ff) << 21) | (((imm >> 11) & 1) << 20) | (((imm
        >> 12) & 0xff) << 12) | (rd << 7) | opcode
}

proof fn lemma_r_fields(opcode: u32, rd: u32, f3: u32, rs1: u32, rs2: u32, f7: u32)
    by (bit_vector)
    requires
        opcode < 128 && rd < 32 && f3 < 8 && rs1 < 32 && rs2 < 32 && f7 < 128,
    ensures
        encode_r(opcode, rd, f3, rs1, rs2, f7) & 0x7f == opcode,
        (encode_r(opcode, rd, f3, rs1, rs2, f7) >> 7) & 0x1f == rd,
        (encode_r(opcode, rd, f3, rs1, rs2, f7) >> 12) & 0x7 == f3,
        (encode_r(opcode, rd, f3, rs1, rs2, f7) >> 15) & 0x1f == rs1,
        (encode_r(opcode, rd, f3, rs1, rs2, f7) >> 20) & 0x1f == rs2,
        (encode_r(opcode, rd, f3, rs1, rs2, f7) >> 25) & 0x7f == f7,
{
}

proof fn lemma_i_fields(opcode: u32, rd: u32, f3: u32, rs1: u32, imm: u32)
    by (bit_vector)
    requires
        opcode < 128 && rd < 32 && f3 < 8 && rs1 < 32 && imm < 4096,
    ensures
        encode_i(opcode, rd, f3, rs1, imm) & 0x7f == opcode,
        (encode_i(opcode, rd, f3, rs1, imm) >> 7) & 0x1f == rd,
        (encode_i(opcode, rd, f3, rs1, imm) >> 12) & 0x7 == f3,
        (encode_i(opcode, rd, f3, rs1, imm) >> 15) & 0x1f == rs1,
        (encode_i(opcode, rd, f3, rs1, imm) >> 20) & 0x1f == imm & 0x1f,
        (encode_i(opcode, rd, f3, rs1, imm) >> 25) & 0x7f == imm >> 5,
        encode_i(opcode, rd, f3, rs1, imm) >> 20 == imm,
{
}

proof fn lemma_s_fields(opcode: u32, f3: u32, rs1: u32, rs2: u32, imm: u32)
    by (bit_vector)
    requires
        opcode < 128 && f3 < 8 && rs1 < 32 && rs2 < 32 && imm < 4096,
    ensures
        encode_s(opcode, f3, rs1, rs2, imm) & 0x7f == opcode,
        (encode_s(opcode, f3, rs1, rs2, imm) >> 12) & 0x7 == f3,
        (encode_s(opcode, f3, rs1, rs2, imm) >> 15) & 0x1f == rs1,
        (encode_s(opcode, f3, rs1, rs2, imm) >> 20) & 0x1f == rs2,
        ((encode_s(opcode, f3, rs1, rs2, imm) >> 25) & 0x7f) * 32 + ((encode_s(
            opcode,
            f3,
            rs1,
            rs2,
            imm,
        ) >> 7) & 0x1f) == imm,
{
}

proof fn lemma_b_fields(opcode: u32, f3: u32, rs1: u32, rs2: u32, imm: u32)
    by (bit_vector)
    requires
        opcode < 128 && f3 < 8 && rs1 < 32 && rs2 < 32 && imm < 0x2000 && imm & 1 == 0,
    ensures
        encode_b(opcode, f3, rs1, rs2, imm) & 0x7f == opcode,
        (encode_b(opcode, f3, rs1, rs2, imm) >> 12) & 0x7 == f3,
        (encode_b(opcode, f3, rs1, rs2, imm) >> 15) & 0x1f == rs1,
        (encode_b(opcode, f3, rs1, rs2, imm) >> 20) & 0x1f == rs2,
        ((encode_b(opcode, f3, rs1, rs2, imm) >> 31) & 1) * 0x1000 + ((encode_b(
            opcode,
            f3,
            rs1,
            rs2,
            imm,
        ) >> 7) & 1) * 0x800 + ((encode_b(opcode, f3, rs1, rs2, imm) >> 25) & 0x3f) * 0x20 + ((
        encode_b(opcode, f3, rs1, rs2, imm) >> 8) & 0xf) * 2 == imm,
{
}

proof fn lemma_u_fields(opcode: u32, rd: u32, imm: u32)
    by (bit_vector)
    requires
        opcode < 128 && rd < 32 && imm < 0x10_0000,
    ensures
        encode_u(opcode, rd, imm) & 0x7f == opcode,
        (encode_u(opcode, rd, imm) >> 7) & 0x1f == rd,
        encode_u(opcode, rd, imm) & 0xfffff000 == imm << 12,
{
}

proof fn lemma_j_fields(opcode: u32, rd: u32, imm: u32)
    by (bit_vector)
    requires
        opcode < 128 && rd < 32 && imm < 0x20_0000 && imm & 1 == 0,
    ensures
        encode_j(opcode, rd, imm) & 0x7f == opcode,
        (encode_j(opcode, rd, imm) >> 7) & 0x1f == rd,
        ((encode_j(opcode, rd, imm) >> 31) & 1) * 0x10_0000 + ((encode_j(opcode, rd, imm) >> 12)
            & 0xff) * 0x1000 + ((encode_j(opcode, rd, imm) >> 20) & 1) * 0x800 + ((encode_j(
            opcode,
            rd,
            imm,
        ) >> 21) & 0x3ff) * 2 == imm,
{
}

/// Reads `v`, a value of `2 * half` codes, as a signed number.
fn sign_extend(v: u32, half: u32) -> (r: i32)
    requires
        0 < half <= 0x4000_0000,
        v < 2 * half,
    ensures
        r as int == sext(v as int, half as int),
{
    if v >= half {
        (v as i32) - (half as i32) - (half as i32)
    } else {
        v as i32
    }
}

impl Operands {
    /// Extracts the register fields and the immediate of format `inst_type`.
    pub fn decode(inst: u32, inst_type: InstType) -> (r: Operands)
        ensures
            r.rd == rd_of(inst),
            r.rs1 == rs1_of(inst),
            r.rs2 == rs2_of(inst),
            r.imm as int == imm_of(inst, inst_type),
    {
        proof {
            lemma_field_bounds(inst);
        }
        let rd = ((inst >> 7) & 0x1f) as usize;
        let rs1 = ((inst >> 15) & 0x1f) as usize;
        let rs2 = ((inst >> 20) & 0x1f) as usize;
        let imm: i32 = match inst_type {
            InstType::R => 0,
            InstType::I => sign_extend(inst >> 20, 0x800),
            InstType::S => sign_extend(((inst >> 25) & 0x7f) * 32 + ((inst >> 7) & 0x1f), 0x800),
            InstType::B => sign_extend(
                ((inst >> 31) & 1) * 0x1000 + ((inst >> 7) & 1) * 0x800 + ((inst >> 25) & 0x3f)
                    * 0x20 + ((inst >> 8) & 0xf) * 2,
                0x1000,
            ),
            InstType::U => {
                let v = inst & 0xfffff000;
                if v >= 0x8000_0000 {
                    ((v - 0x8000_0000) as i32) - 0x4000_0000 - 0x4000_0000
                } else {
                    v as i32
                }
            },
            InstType::J => sign_extend(
                ((inst >> 31) & 1) * 0x10_0000 + ((inst >> 12) & 0xff) * 0x1000 + ((inst >> 20)
                    & 1) * 0x800 + ((inst >> 21) & 0x3ff) * 2,
                0x10_0000,
            ),
        };
        Operands { rd, rs1, rs2, imm }
    }
}


pub open spec fn branch_op_of(f3: u32) -> Option<BranchOp> {
    if f3 == 0 {
        Some(BranchOp::Eq)
    } else if f3 == 1 {
        Some(BranchOp::Ne)
    } else if f3 == 4 {
        Some(BranchOp::Lt)
    } else if f3 == 5 {
        Some(BranchOp::Ge)
    } else if f3 == 6 {
        Some(BranchOp::Ltu)
    } else if f3 == 7 {
        Some(BranchOp::Geu)
    } else {
        None
    }
}

/// Load width and signedness by funct3: LB, LH, LW, LBU, LHU.
pub open spec fn load_kind_of(f3: u32) -> Option<(usize, bool)> {
    if f3 == 0 {
        Some((1usize, true))
    } else if f3 == 1 {
        Some((2usize, true))
    } else if f3 == 2 {
        Some((4usize, true))
    } else if f3 == 4 {
        Some((1usize, false))
    } else if f3 == 5 {
        Some((2usize, false))
    } else {
        None
    }
}

/// Store width by funct3: SB, SH, SW.
pub open spec fn store_size_of(f3: u32) -> Option<usize> {
    if f3 == 0 {
        Some(1usize)
    } else if f3 == 1 {
        Some(2usize)
    } else if f3 == 2 {
        Some(4usize)
    } else {
        None
    }
}

/// The immediate-form ALU operation by (funct3, funct7); shifts need funct7 0 or 0x20.
pub open spec fn imm_op_of(f3: u32, f7: u32) -> Option<RegOp> {
    if f3 == 0 {
        Some(RegOp::Addi)
    } else if f3 == 1 {
        if f7 == 0 || f7 == 0x20 {
            Some(RegOp::Slli)
        } else {
            None
        }
    } else if f3 == 2 {
        Some(RegOp::Slti)
    } else if f3 == 3 {
        Some(RegOp::Sltiu)
    } else if f3 == 4 {
        Some(RegOp::Xori)
    } else if f3 == 5 {
        if f7 == 0 {
            Some(RegOp::Srli)
        } else if f7 == 0x20 {
            Some(RegOp::Srai)
        } else {
            None
        }
    } else if f3 == 6 {
        Some(RegOp::Ori)
    } else {
        Some(RegOp::Andi)
    }
}

/// The register-form ALU operation by (funct3, funct7).
pub open spec fn reg_op_of(f3: u32, f7: u32) -> Option<RegOp> {
    if f7 == 0 {
        if f3 == 0 {
            Some(RegOp::Add)
        } else if f3 == 1 {
            Some(RegOp::Sll)
        } else if f3 == 2 {
            Some(RegOp::Slt)
        } else if f3 == 3 {
            Some(RegOp::Sltu)
        } else if f3 == 4 {
            Some(RegOp::Xor)
        } else if f3 == 5 {
            Some(RegOp::Srl)
        } else if f3 == 6 {
            Some(RegOp::Or)
        } else {
            Some(RegOp::And)
        }
    } else if f7 == 0x20 {
        if f3 == 0 {
            Some(RegOp::Sub)
        } else if f3 == 5 {
            Some(RegOp::Sra)
        } else {
            None
        }
    } else {
        None
    }
}

pub open spec fn is_shift_imm(op: RegOp) -> bool {
    op == RegOp::Slli || op == RegOp::Srli || op == RegOp::Srai
}

pub open spec fn plain(op: Operation) -> DecodedInst {
    DecodedInst { op, next_pc: NextPc::Plus4 }
}

/// What a 32-bit word decodes to, by the RV32I opcode table.
pub open spec fn decode_spec(w: u32) -> Result<DecodedInst, DecodeError> {
    let opcode = opcode_of(w);
    let f3 = funct3_of(w);
    let f7 = funct7_of(w);
    let rd = rd_of(w) as usize;
    let rs1 = rs1_of(w) as usize;
    let rs2 = rs2_of(w) as usize;
    if opcode == 0x33 {
        match reg_op_of(f3, f7) {
            Some(op) => Ok(plain(Operation::RegRegOp { rd, rs1, rs2, op })),
            None => Err(DecodeError::InvalidAluReg),
        }
    } else if opcode == 0x13 {
        match imm_op_of(f3, f7) {
            Some(op) => Ok(
                plain(
                    Operation::RegImmOp {
                        rd,
                        rs1,
                        imm: if is_shift_imm(op) {
                            rs2_of(w) as i32
                        } else {
                            imm_i(w) as i32
                        },
                        op,
                    },
                ),
            ),
            None => Err(DecodeError::InvalidAluImm),
        }
    } else if opcode == 0x03 {
        match load_kind_of(f3) {
            Some((size, signed)) => Ok(
                plain(Operation::Load { rd, rs1, offset: imm_i(w) as i32, size, signed }),
            ),
            None => Err(DecodeError::InvalidLoad),
        }
    } else if opcode == 0x23 {
        match store_size_of(f3) {
            Some(size) => Ok(plain(Operation::Store { rs1, rs2, offset: imm_s(w) as i32, size })),
            None => Err(DecodeError::InvalidStore),
        }
    } else if opcode == 0x63 {
        match branch_op_of(f3) {
            Some(op) => Ok(
                DecodedInst {
                    op: Operation::Branch { rs1, rs2, offset: imm_b(w) as i32, op },
                    next_pc: NextPc::Branch { cond: op, rs1, rs2, offset: imm_b(w) as i32 },
                },
            ),
            None => Err(DecodeError::InvalidBranch),
        }
    } else if opcode == 0x67 {
        if f3 == 0 {
            Ok(
                DecodedInst {
                    op: Operation::Jump { rd, offset: imm_i(w) as i32 },
                    next_pc: NextPc::JumpReg { rs1, offset: imm_i(w) as i32 },
                },
            )
        } else {
            Err(DecodeError::InvalidJalr)
        }
    } else if opcode == 0x6f {
        Ok(
            DecodedInst {
                op: Operation::Jump { rd, offset: imm_j(w) as i32 },
                next_pc: NextPc::Jump(imm_j(w) as i32),
            },
        )
    } else if opcode == 0x37 {
        Ok(plain(Operation::RegWrite { rd, value: w & 0xfffff000 }))
    } else if opcode == 0x17 {
        Ok(plain(Operation::AddUpperPc { rd, imm: w & 0xfffff000 }))
    } else if opcode == 0x73 {
        if w == 0x0000_0073 {
            Ok(plain(Operation::SystemCall(SystemCallType::Ecall)))
        } else if w == 0x0010_0073 {
            Ok(plain(Operation::SystemCall(SystemCallType::Ebreak)))
        } else {
            Err(DecodeError::InvalidSystem)
        }
    } else {
        Err(DecodeError::UnknownOpcode)
    }
}

impl DecodedInst {
    /// Every register index names one of the 32 registers.
    pub open spec fn wf(self) -> bool {
        &&& match self.op {
            Operation::RegWrite { rd, .. } => rd < 32,
            Operation::AddUpperPc { rd, .. } => rd < 32,
            Operation::RegRegOp { rd, rs1, rs2, .. } => rd < 32 && rs1 < 32 && rs2 < 32,
            Operation::RegImmOp { rd, rs1, .. } => rd < 32 && rs1 < 32,
            Operation::Branch { rs1, rs2, .. } => rs1 < 32 && rs2 < 32,
            Operation::Jump { rd, .. } => rd < 32,
            Operation::Load { rd, rs1, .. } => rd < 32 && rs1 < 32,
            Operation::Store { rs1, rs2, .. } => rs1 < 32 && rs2 < 32,
            Operation::SystemCall(_) => true,
        }
        &&& match self.next_pc {
            NextPc::JumpReg { rs1, .. } => rs1 < 32,
            NextPc::Branch { rs1, rs2, .. } => rs1 < 32 && rs2 < 32,
            _ => true,
        }
    }
}

/// A decoded instruction names only existing registers.
pub proof fn lemma_decode_wf(w: u32)
    ensures
        decode_spec(w) is Ok ==> decode_spec(w)->Ok_0.wf(),
{
    lemma_field_bounds(w);
}

/// Decoding inverts encoding for register-register ALU instructions.
pub proof fn lemma_decode_alu_reg(rd: u32, f3: u32, rs1: u32, rs2: u32, f7: u32)
    requires
        rd < 32 && f3 < 8 && rs1 < 32 && rs2 < 32 && f7 < 128,
        reg_op_of(f3, f7) is Some,
    ensures
        decode_spec(encode_r(0x33, rd, f3, rs1, rs2, f7)) == Ok::<DecodedInst, DecodeError>(
            plain(
                Operation::RegRegOp {
                    rd: rd as usize,
                    rs1: rs1 as usize,
                    rs2: rs2 as usize,
                    op: reg_op_of(f3, f7)->Some_0,
                },
            ),
        ),
{
    lemma_r_fields(0x33, rd, f3, rs1, rs2, f7);
}

/// Decoding inverts encoding for ALU-immediate instructions: the immediate
/// comes back sign-extended, or as the shift amount for shifts.
pub proof fn lemma_decode_alu_imm(rd: u32, f3: u32, rs1: u32, imm: u32)
    requires
        rd < 32 && f3 < 8 && rs1 < 32 && imm < 4096,
        imm_op_of(f3, imm >> 5) is Some,
    ensures
        decode_spec(encode_i(0x13, rd, f3, rs1, imm)) == Ok::<DecodedInst, DecodeError>(
            plain(
                Operation::RegImmOp {
                    rd: rd as usize,
                    rs1: rs1 as usize,
                    imm: if is_shift_imm(imm_op_of(f3, imm >> 5)->Some_0) {
                        (imm & 0x1f) as i32
                    } else {
                        sext(imm as int, 0x800) as i32
                    },
                    op: imm_op_of(f3, imm >> 5)->Some_0,
                },
            ),
        ),
{
    lemma_i_fields(0x13, rd, f3, rs1, imm);
}

/// Decoding inverts encoding for loads: width and signedness follow funct3,
/// the offset comes back sign-extended.
pub proof fn lemma_decode_load(rd: u32, f3: u32, rs1: u32, imm: u32)
    requires
        rd < 32 && f3 < 8 && rs1 < 32 && imm < 4096,
        load_kind_of(f3) is Some,
    ensures
        decode_spec(encode_i(0x03, rd, f3, rs1, imm)) == Ok::<DecodedInst, DecodeError>(
            plain(
                Operation::Load {
                    rd: rd as usize,
                    rs1: rs1 as usize,
                    offset: sext(imm as int, 0x800) as i32,
                    size: load_kind_of(f3)->Some_0.0,
                    signed: load_kind_of(f3)->Some_0.1,
                },
            ),
        ),
{
    lemma_i_fields(0x03, rd, f3, rs1, imm);
}

/// Decoding inverts encoding for stores.
pub proof fn lemma_decode_store(f3: u32, rs1: u32, rs2: u32, imm: u32)
    requires
        f3 < 8 && rs1 < 32 && rs2 < 32 && imm < 4096,
        store_size_of(f3) is Some,
    ensures
        decode_spec(encode_s(0x23, f3, rs1, rs2, imm)) == Ok::<DecodedInst, DecodeError>(
            plain(
                Operation::Store {
                    rs1: rs1 as usize,
                    rs2: rs2 as usize,
                    offset: sext(imm as int, 0x800) as i32,
                    size: store_size_of(f3)->Some_0,
                },
            ),
        ),
{
    lemma_s_fields(0x23, f3, rs1, rs2, imm);
}

/// Decoding inverts encoding for conditional branches; the effect and the
/// program-counter update carry the same operands.
pub proof fn lemma_decode_branch(f3: u32, rs1: u32, rs2: u32, imm: u32)
    requires
        f3 < 8 && rs1 < 32 && rs2 < 32 && imm < 0x2000 && imm & 1 == 0,
        branch_op_of(f3) is Some,
    ensures
        decode_spec(encode_b(0x63, f3, rs1, rs2, imm)) == Ok::<DecodedInst, DecodeError>(
            DecodedInst {
                op: Operation::Branch {
                    rs1: rs1 as usize,
                    rs2: rs2 as usize,
                    offset: sext(imm as int, 0x1000) as i32,
                    op: branch_op_of(f3)->Some_0,
                },
                next_pc: NextPc::Branch {
                    cond: branch_op_of(f3)->Some_0,
                    rs1: rs1 as usize,
                    rs2: rs2 as usize,
                    offset: sext(imm as int, 0x1000) as i32,
                },
            },
        ),
{
    lemma_b_fields(0x63, f3, rs1, rs2, imm);
}

/// Decoding inverts encoding for JAL and JALR: both link into `rd`; JAL
/// moves relative to `pc`, JALR relative to `rs1`.
pub proof fn lemma_decode_jumps(rd: u32, rs1: u32, imm12: u32, imm21: u32)
    requires
        rd < 32 && rs1 < 32 && imm12 < 4096 && imm21 < 0x20_0000 && imm21 & 1 == 0,
    ensures
        decode_spec(encode_j(0x6f, rd, imm21)) == Ok::<DecodedInst, DecodeError>(
            DecodedInst {
                op: Operation::Jump { rd: rd as usize, offset: sext(imm21 as int, 0x10_0000) as i32 },
                next_pc: NextPc::Jump(sext(imm21 as int, 0x10_0000) as i32),
            },
        ),
        decode_spec(encode_i(0x67, rd, 0, rs1, imm12)) == Ok::<DecodedInst, DecodeError>(
            DecodedInst {
                op: Operation::Jump { rd: rd as usize, offset: sext(imm12 as int, 0x800) as i32 },
                next_pc: NextPc::JumpReg {
                    rs1: rs1 as usize,
                    offset: sext(imm12 as int, 0x800) as i32,
                },
            },
        ),
{
    lemma_j_fields(0x6f, rd, imm21);
    lemma_i_fields(0x67, rd, 0, rs1, imm12);
}

/// Decoding inverts encoding for LUI and AUIPC: the upper immediate comes
/// back in the top 20 bits.
pub proof fn lemma_decode_upper(rd: u32, imm: u32)
    requires
        rd < 32 && imm < 0x10_0000,
    ensures
        decode_spec(encode_u(0x37, rd, imm)) == Ok::<DecodedInst, DecodeError>(
            plain(Operation::RegWrite { rd: rd as usize, value: imm << 12 }),
        ),
        decode_spec(encode_u(0x17, rd, imm)) == Ok::<DecodedInst, DecodeError>(
            plain(Operation::AddUpperPc { rd: rd as usize, imm: imm << 12 }),
        ),
{
    lemma_u_fields(0x37, rd, imm);
    lemma_u_fields(0x17, rd, imm);
}

fn decode_branch_op(f3: u32) -> (r: Option<BranchOp>)
    ensures
        r == branch_op_of(f3),
{
    match f3 {
        0 => Some(BranchOp::Eq),
        1 => Some(BranchOp::Ne),
        4 => Some(BranchOp::Lt),
        5 => Some(BranchOp::Ge),
        6 => Some(BranchOp::Ltu),
        7 => Some(BranchOp::Geu),
        _ => None,
    }
}

fn decode_imm_op(f3: u32, f7: u32) -> (r: Option<RegOp>)
    requires
        f3 < 8,
    ensures
        r == imm_op_of(f3, f7),
{
    match f3 {
        0 => Some(RegOp::Addi),
        1 => if f7 == 0 || f7 == 0x20 {
            Some(RegOp::Slli)
        } else {
            None
        },
        2 => Some(RegOp::Slti),
        3 => Some(RegOp::Sltiu),
        4 => Some(RegOp::Xori),
        5 => if f7 == 0 {
            Some(RegOp::Srli)
        } else if f7 == 0x20 {
            Some(RegOp::Srai)
        } else {
            None
        },
        6 => Some(RegOp::Ori),
        _ => Some(RegOp::Andi),
    }
}

fn decode_reg_op(f3: u32, f7: u32) -> (r: Option<RegOp>)
    requires
        f3 < 8,
    ensures
        r == reg_op_of(f3, f7),
{
    match (f3, f7) {
        (0, 0x00) => Some(RegOp::Add),
        (0, 0x20) => Some(RegOp::Sub),
        (1, 0x00) => Some(RegOp::Sll),
        (2, 0x00) => Some(RegOp::Slt),
        (3, 0x00) => Some(RegOp::Sltu),
        (4, 0x00) => Some(RegOp::Xor),
        (5, 0x00) => Some(RegOp::Srl),
        (5, 0x20) => Some(RegOp::Sra),
        (6, 0x00) => Some(RegOp::Or),
        (7, 0x00) => Some(RegOp::And),
        _ => None,
    }
}

/// Decodes one RV32I instruction word.
pub fn decode_instruction(inst: u32) -> (r: Result<DecodedInst, DecodeError>)
    ensures
        r == decode_spec(inst),
{
    proof {
        lemma_field_bounds(inst);
    }
    let opcode = inst & 0x7f;
    let funct3 = (inst >> 12) & 0x7;
    let funct7 = (inst >> 25) & 0x7f;
    match opcode {
        0x33 => {
            let ops = Operands::decode(inst, InstType::R);
            match decode_reg_op(funct3, funct7) {
                Some(op) => Ok(
                    DecodedInst {
                        op: Operation::RegRegOp { rd: ops.rd, rs1: ops.rs1, rs2: ops.rs2, op },
                        next_pc: NextPc::Plus4,
                    },
                ),
                None => Err(DecodeError::InvalidAluReg),
            }
        },
        0x13 => {
            let ops = Operands::decode(inst, InstType::I);
            match decode_imm_op(funct3, funct7) {
                Some(op) => {
                    let imm = match op {
                        RegOp::Slli | RegOp::Srli | RegOp::Srai => ops.rs2 as i32,
                        _ => ops.imm,
                    };
                    Ok(
                        DecodedInst {
                            op: Operation::RegImmOp { rd: ops.rd, rs1: ops.rs1, imm, op },
                            next_pc: NextPc::Plus4,
                        },
                    )
                },
                None => Err(DecodeError::InvalidAluImm),
            }
        },
        0x03 => {
            let ops = Operands::decode(inst, InstType::I);
            let (size, signed): (usize, bool) = match funct3 {
                0 => (1, true),
                1 => (2, true),
                2 => (4, true),
                4 => (1, false),
                5 => (2, false),
                _ => return Err(DecodeError::InvalidLoad),
            };
            Ok(
                DecodedInst {
                    op: Operation::Load { rd: ops.rd, rs1: ops.rs1, offset: ops.imm, size, signed },
                    next_pc: NextPc::Plus4,
                },
            )
        },
        0x23 => {
            let ops = Operands::decode(inst, InstType::S);
            let size: usize = match funct3 {
                0 => 1,
                1 => 2,
                2 => 4,
                _ => return Err(DecodeError::InvalidStore),
            };
            Ok(
                DecodedInst {
                    op: Operation::Store { rs1: ops.rs1, rs2: ops.rs2, offset: ops.imm, size },
                    next_pc: NextPc::Plus4,
                },
            )
        },
        0x63 => {
            let ops = Operands::decode(inst, InstType::B);
            match decode_branch_op(funct3) {
                Some(op) => Ok(
                    DecodedInst {
                        op: Operation::Branch { rs1: ops.rs1, rs2: ops.rs2, offset: ops.imm, op },
                        next_pc: NextPc::Branch {
                            cond: op,
                            rs1: ops.rs1,
                            rs2: ops.rs2,
                            offset: ops.imm,
                        },
                    },
                ),
                None => Err(DecodeError::InvalidBranch),
            }
        },
        0x67 => {
            let ops = Operands::decode(inst, InstType::I);
            if funct3 != 0 {
                return Err(DecodeError::InvalidJalr);
            }
            Ok(
                DecodedInst {
                    op: Operation::Jump { rd: ops.rd, offset: ops.imm },
                    next_pc: NextPc::JumpReg { rs1: ops.rs1, offset: ops.imm },
                },
            )
        },
        0x6f => {
            let ops = Operands::decode(inst, InstType::J);
            Ok(
                DecodedInst {
                    op: Operation::Jump { rd: ops.rd, offset: ops.imm },
                    next_pc: NextPc::Jump(ops.imm),
                },
            )
        },
        0x37 => {
            let ops = Operands::decode(inst, InstType::U);
            Ok(
                DecodedInst {
                    op: Operation::RegWrite { rd: ops.rd, value: inst & 0xfffff000 },
                    next_pc: NextPc::Plus4,
                },
            )
        },
        0x17 => {
            let ops = Operands::decode(inst, InstType::U);
            Ok(
                DecodedInst {
                    op: Operation::AddUpperPc { rd: ops.rd, imm: inst & 0xfffff000 },
                    next_pc: NextPc::Plus4,
                },
            )
        },
        0x73 => {
            if inst == 0x0000_0073 {
                Ok(
                    DecodedInst {
                        op: Operation::SystemCall(SystemCallType::Ecall),
                        next_pc: NextPc::Plus4,
                    },
                )
            } else if inst == 0x0010_0073 {
                Ok(
                    DecodedInst {
                        op: Operation::SystemCall(SystemCallType::Ebreak),
                        next_pc: NextPc::Plus4,
                    },
                )
            } else {
                Err(DecodeError::InvalidSystem)
            }
        },
        _ => Err(DecodeError::UnknownOpcode),
    }
}

} // verus!
