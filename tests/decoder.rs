use riscv_emu::inst::{
    decode_instruction, BranchOp, DecodeError, DecodedInst, InstType, NextPc, Operands, Operation,
    RegOp, SystemCallType,
};

fn plain(op: Operation) -> Result<DecodedInst, DecodeError> {
    Ok(DecodedInst { op, next_pc: NextPc::Plus4 })
}

#[test]
fn decodes_known_encodings() {
    let table: Vec<(u32, Result<DecodedInst, DecodeError>)> = vec![
        (0x00500093, plain(Operation::RegImmOp { rd: 1, rs1: 0, imm: 5, op: RegOp::Addi })),
        (0x4012d313, plain(Operation::RegImmOp { rd: 6, rs1: 5, imm: 1, op: RegOp::Srai })),
        (0x0012d313, plain(Operation::RegImmOp { rd: 6, rs1: 5, imm: 1, op: RegOp::Srli })),
        (0x01f11093, plain(Operation::RegImmOp { rd: 1, rs1: 2, imm: 31, op: RegOp::Slli })),
        (0xffd12093, plain(Operation::RegImmOp { rd: 1, rs1: 2, imm: -3, op: RegOp::Slti })),
        (0x002081b3, plain(Operation::RegRegOp { rd: 3, rs1: 1, rs2: 2, op: RegOp::Add })),
        (0x402081b3, plain(Operation::RegRegOp { rd: 3, rs1: 1, rs2: 2, op: RegOp::Sub })),
        (0x003130b3, plain(Operation::RegRegOp { rd: 1, rs1: 2, rs2: 3, op: RegOp::Sltu })),
        (0x403150b3, plain(Operation::RegRegOp { rd: 1, rs1: 2, rs2: 3, op: RegOp::Sra })),
        (0xfe112e23, plain(Operation::Store { rs1: 2, rs2: 1, offset: -4, size: 4 })),
        (0x00110023, plain(Operation::Store { rs1: 2, rs2: 1, offset: 0, size: 1 })),
        (0x001111a3, plain(Operation::Store { rs1: 2, rs2: 1, offset: 3, size: 2 })),
        (0x0081a203, plain(Operation::Load { rd: 4, rs1: 3, offset: 8, size: 4, signed: true })),
        (0x0011c203, plain(Operation::Load { rd: 4, rs1: 3, offset: 1, size: 1, signed: false })),
        (0x00219203, plain(Operation::Load { rd: 4, rs1: 3, offset: 2, size: 2, signed: true })),
        (0x00015383, plain(Operation::Load { rd: 7, rs1: 2, offset: 0, size: 2, signed: false })),
        (0x00010203, plain(Operation::Load { rd: 4, rs1: 2, offset: 0, size: 1, signed: true })),
        (
            0xfe2098e3,
            Ok(DecodedInst {
                op: Operation::Branch { rs1: 1, rs2: 2, offset: -16, op: BranchOp::Ne },
                next_pc: NextPc::Branch { cond: BranchOp::Ne, rs1: 1, rs2: 2, offset: -16 },
            }),
        ),
        (
            0x0241e063,
            Ok(DecodedInst {
                op: Operation::Branch { rs1: 3, rs2: 4, offset: 32, op: BranchOp::Ltu },
                next_pc: NextPc::Branch { cond: BranchOp::Ltu, rs1: 3, rs2: 4, offset: 32 },
            }),
        ),
        (
            0x00008463,
            Ok(DecodedInst {
                op: Operation::Branch { rs1: 1, rs2: 0, offset: 8, op: BranchOp::Eq },
                next_pc: NextPc::Branch { cond: BranchOp::Eq, rs1: 1, rs2: 0, offset: 8 },
            }),
        ),
        (
            0x001000ef,
            Ok(DecodedInst {
                op: Operation::Jump { rd: 1, offset: 2048 },
                next_pc: NextPc::Jump(2048),
            }),
        ),
        (
            0xff9ff06f,
            Ok(DecodedInst { op: Operation::Jump { rd: 0, offset: -8 }, next_pc: NextPc::Jump(-8) }),
        ),
        (
            0x00c280e7,
            Ok(DecodedInst {
                op: Operation::Jump { rd: 1, offset: 12 },
                next_pc: NextPc::JumpReg { rs1: 5, offset: 12 },
            }),
        ),
        (0xabcde3b7, plain(Operation::RegWrite { rd: 7, value: 0xabcd_e000 })),
        (0x00001297, plain(Operation::AddUpperPc { rd: 5, imm: 0x1000 })),
        (0x00000073, plain(Operation::SystemCall(SystemCallType::Ecall))),
        (0x00100073, plain(Operation::SystemCall(SystemCallType::Ebreak))),
    ];
    for (word, expected) in table {
        assert_eq!(decode_instruction(word), expected, "word {:#010x}", word);
    }
}

#[test]
fn rejects_invalid_encodings() {
    assert_eq!(decode_instruction(0x0000_0000), Err(DecodeError::UnknownOpcode));
    assert_eq!(decode_instruction(0xffff_ffff), Err(DecodeError::UnknownOpcode));
    assert_eq!(decode_instruction(0x0020_0073), Err(DecodeError::InvalidSystem));
    assert_eq!(decode_instruction(0x0000_1073), Err(DecodeError::InvalidSystem));
    assert_eq!(decode_instruction(0x0000_3003), Err(DecodeError::InvalidLoad));
    assert_eq!(decode_instruction(0x0000_3023), Err(DecodeError::InvalidStore));
    assert_eq!(decode_instruction(0x0000_2063), Err(DecodeError::InvalidBranch));
    assert_eq!(decode_instruction(0x0000_1067), Err(DecodeError::InvalidJalr));
    assert_eq!(decode_instruction(0x0200_0033), Err(DecodeError::InvalidAluReg));
    assert_eq!(decode_instruction(0x4000_1033), Err(DecodeError::InvalidAluReg));
    assert_eq!(decode_instruction(0x0200_1013), Err(DecodeError::InvalidAluImm));
    assert_eq!(decode_instruction(0x0200_5013), Err(DecodeError::InvalidAluImm));
}

#[test]
fn operand_immediates_by_format() {
    let i = Operands::decode(0xfff00293, InstType::I);
    assert_eq!(i, Operands { rd: 5, rs1: 0, rs2: 31, imm: -1 });
    let s = Operands::decode(0xfe112e23, InstType::S);
    assert_eq!(s.imm, -4);
    let b = Operands::decode(0xfe2098e3, InstType::B);
    assert_eq!(b.imm, -16);
    let u = Operands::decode(0xabcde3b7, InstType::U);
    assert_eq!(u.imm as u32, 0xabcd_e000);
    let j = Operands::decode(0xff9ff06f, InstType::J);
    assert_eq!(j.imm, -8);
    let r = Operands::decode(0x402081b3, InstType::R);
    assert_eq!(r, Operands { rd: 3, rs1: 1, rs2: 2, imm: 0 });
}
