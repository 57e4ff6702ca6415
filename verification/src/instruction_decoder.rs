use vstd::prelude::*;
use crate::operand::Operand;
use crate::instruction::Instruction;
use crate::instruction::InstructionGroup;

verus! {

/// The dense decode table: what each 16-bit pattern means. The four nibbles
/// `c1`, `n`, `m`, `c4` and the low byte `i` are extracted once; dispatch is
/// on `c1`, then on `c4`, `n` or `m` depending on the format. Every pattern
/// with no production decodes to `Unknown`.
pub open spec fn spec_decode(code: u16) -> Instruction {
    let i = (code & 0xFF) as u8;
    let c4 = (code & 0xF) as u8;
    let m = ((code >> 4u16) & 0xF) as u8;
    let n = ((code >> 8u16) & 0xF) as u8;
    let c1 = ((code >> 12u16) & 0xF) as u8;
    let op_n = Operand::RegisterOperand(n);
    let op_m = Operand::RegisterOperand(m);
    let imm = Operand::ImmediateOperand(i);
    let disp = Operand::DisplacementOperand(i);
    if c1 == 0x0 {
        if c4 == 0x2 {
            if m == 0x1 {
                Instruction::StcGbr(op_n)
            } else if m >= 8 {
                Instruction::StcBanked(op_n, (m - 8) as u8)
            } else {
                Instruction::Unknown
            }
        } else if c4 == 0x3 {
            if m == 0x0 {
                Instruction::Bsrf(op_n)
            } else if m == 0x2 {
                Instruction::Braf(op_n)
            } else if m == 0x8 {
                Instruction::Pref(op_n)
            } else if m == 0xc {
                Instruction::MovCA(op_n)
            } else {
                Instruction::Unknown
            }
        } else if c4 == 0x4 {
            Instruction::MovDataStoreR0B(op_n, op_m)
        } else if c4 == 0x5 {
            Instruction::MovDataStoreR0W(op_n, op_m)
        } else if c4 == 0x6 {
            Instruction::MovDataStoreR0L(op_n, op_m)
        } else if c4 == 0x7 {
            Instruction::MulL(op_n, op_m)
        } else if c4 == 0x8 {
            if m == 0x0 {
                Instruction::Clrt
            } else if m == 0x1 {
                Instruction::Sett
            } else if m == 0x4 {
                Instruction::Clrs
            } else if m == 0x5 {
                Instruction::Sets
            } else {
                Instruction::Unknown
            }
        } else if c4 == 0x9 {
            if m == 0x0 {
                Instruction::Nop
            } else if m == 0x1 {
                Instruction::Div0u
            } else if m == 0x2 {
                Instruction::MovT(op_n)
            } else {
                Instruction::Unknown
            }
        } else if c4 == 0xa {
            if m == 0x0 {
                Instruction::StsMacH(op_n)
            } else if m == 0x1 {
                Instruction::StsMacL(op_n)
            } else if m == 0x2 {
                Instruction::StsPr(op_n)
            } else if m == 0xf {
                Instruction::StcDbr(op_n)
            } else {
                Instruction::Unknown
            }
        } else if c4 == 0xb {
            Instruction::Rts
        } else if c4 == 0xc {
            Instruction::MovDataLoadR0B(op_n, op_m)
        } else if c4 == 0xd {
            Instruction::MovDataLoadR0W(op_n, op_m)
        } else if c4 == 0xe {
            Instruction::MovDataLoadR0L(op_n, op_m)
        } else if c4 == 0xf {
            Instruction::MacL(op_n, op_m)
        } else {
            Instruction::Unknown
        }
    } else if c1 == 0x1 {
        Instruction::MovStructStoreL(op_n, imm)
    } else if c1 == 0x2 {
        if c4 == 0x0 {
            Instruction::MovDataBStore(op_n, op_m)
        } else if c4 == 0x1 {
            Instruction::MovDataWStore(op_n, op_m)
        } else if c4 == 0x2 {
            Instruction::MovDataLStore(op_n, op_m)
        } else if c4 == 0x4 {
            Instruction::MovDataBStore1(op_n, op_m)
        } else if c4 == 0x5 {
            Instruction::MovDataWStore2(op_n, op_m)
        } else if c4 == 0x6 {
            Instruction::MovDataLStore4(op_n, op_m)
        } else if c4 == 0x7 {
            Instruction::Div0s(op_n, op_m)
        } else if c4 == 0x8 {
            Instruction::Tst(op_n, op_m)
        } else if c4 == 0x9 {
            Instruction::And(op_n, op_m)
        } else if c4 == 0xa {
            Instruction::Xor(op_n, op_m)
        } else if c4 == 0xb {
            Instruction::Or(op_n, op_m)
        } else if c4 == 0xc {
            Instruction::CmpStr(op_n, op_m)
        } else if c4 == 0xe {
            Instruction::MulUW(op_n, op_m)
        } else if c4 == 0xf {
            Instruction::MulSW(op_n, op_m)
        } else {
            Instruction::Unknown
        }
    } else if c1 == 0x3 {
        if c4 == 0x0 {
            Instruction::CmpEq(op_n, op_m)
        } else if c4 == 0x2 {
            Instruction::CmpHs(op_n, op_m)
        } else if c4 == 0x3 {
            Instruction::CmpGe(op_n, op_m)
        } else if c4 == 0x4 {
            Instruction::Div1(op_n, op_m)
        } else if c4 == 0x6 {
            Instruction::CmpHi(op_n, op_m)
        } else if c4 == 0x7 {
            Instruction::CmpGt(op_n, op_m)
        } else if c4 == 0x8 {
            Instruction::Sub(op_n, op_m)
        } else if c4 == 0xc {
            Instruction::Add(op_n, op_m)
        } else if c4 == 0xe {
            Instruction::AddWithCarry(op_n, op_m)
        } else if c4 == 0xf {
            Instruction::AddOverflow(op_n, op_m)
        } else {
            Instruction::Unknown
        }
    } else if c1 == 0x4 {
        if c4 == 0x0 {
            if m == 0x0 {
                Instruction::Shll(op_n)
            } else if m == 0x1 {
                Instruction::Dt(op_n)
            } else {
                Instruction::Unknown
            }
        } else if c4 == 0x1 {
            if m == 0x0 {
                Instruction::Shlr(op_n)
            } else if m == 0x1 {
                Instruction::CmpPz(op_n)
            } else if m == 0x2 {
                Instruction::Shar(op_n)
            } else {
                Instruction::Unknown
            }
        } else if c4 == 0x2 {
            if m == 0x0 {
                Instruction::StsLMacH(op_n)
            } else if m == 0x1 {
                Instruction::StsLMacL(op_n)
            } else if m == 0x2 {
                Instruction::StsLPr(op_n)
            } else {
                Instruction::Unknown
            }
        } else if c4 == 0x4 {
            if m == 0x0 {
                Instruction::Rotl(op_n)
            } else if m == 0x2 {
                Instruction::RotCl(op_n)
            } else {
                Instruction::Unknown
            }
        } else if c4 == 0x5 {
            if m == 0x0 {
                Instruction::Rotr(op_n)
            } else if m == 0x1 {
                Instruction::CmpPl(op_n)
            } else if m == 0x2 {
                Instruction::RotCr(op_n)
            } else {
                Instruction::Unknown
            }
        } else if c4 == 0x6 {
            if m == 0x0 {
                Instruction::LdsLMacl(op_n)
            } else if m == 0x1 {
                Instruction::LdsLMach(op_n)
            } else if m == 0x2 {
                Instruction::LdsLPr(op_n)
            } else if m == 0x5 {
                Instruction::LdsFpulL(op_n)
            } else if m == 0x6 {
                Instruction::LdsFpscrL(op_n)
            } else {
                Instruction::Unknown
            }
        } else if c4 == 0x7 {
            if m == 0x0 {
                Instruction::LdcLSr(op_n)
            } else if m == 0x1 {
                Instruction::LdcLGbr(op_n)
            } else if m == 0x2 {
                Instruction::LdcLVbr(op_n)
            } else if m == 0x3 {
                Instruction::LdcLSsr(op_n)
            } else if m == 0x4 {
                Instruction::LdcLSpc(op_n)
            } else {
                Instruction::Unknown
            }
        } else if c4 == 0x8 {
            if m == 0x0 {
                Instruction::Shll2(op_n)
            } else if m == 0x1 {
                Instruction::Shll8(op_n)
            } else if m == 0x2 {
                Instruction::Shll16(op_n)
            } else {
                Instruction::Unknown
            }
        } else if c4 == 0x9 {
            if m == 0x0 {
                Instruction::Shlr2(op_n)
            } else if m == 0x1 {
                Instruction::Shlr8(op_n)
            } else if m == 0x2 {
                Instruction::Shlr16(op_n)
            } else {
                Instruction::Unknown
            }
        } else if c4 == 0xa {
            if m == 0x2 {
                Instruction::LdsPr(op_n)
            } else if m == 0x6 {
                Instruction::LdsFpscr(op_n)
            } else if m == 0xf {
                Instruction::LdcDbr(op_n)
            } else {
                Instruction::Unknown
            }
        } else if c4 == 0xb {
            if m == 0x0 {
                Instruction::Jsr(op_n)
            } else if m == 0x1 {
                Instruction::Tas(op_n)
            } else if m == 0x2 {
                Instruction::Jmp(op_n)
            } else {
                Instruction::Unknown
            }
        } else if c4 == 0xe {
            Instruction::LdcSr(op_n)
        } else {
            Instruction::Unknown
        }
    } else if c1 == 0x5 {
        Instruction::MovStructLoadL(op_n, imm)
    } else if c1 == 0x6 {
        if c4 == 0x0 {
            Instruction::MovDataSignBLoad(op_n, op_m)
        } else if c4 == 0x1 {
            Instruction::MovDataSignWLoad(op_n, op_m)
        } else if c4 == 0x2 {
            Instruction::MovDataSignLLoad(op_n, op_m)
        } else if c4 == 0x3 {
            Instruction::MovData(op_n, op_m)
        } else if c4 == 0x4 {
            Instruction::MovDataSignBLoad1(op_n, op_m)
        } else if c4 == 0x5 {
            Instruction::MovDataSignWLoad2(op_n, op_m)
        } else if c4 == 0x6 {
            Instruction::MovDataSignLLoad4(op_n, op_m)
        } else if c4 == 0x7 {
            Instruction::Not(op_n, op_m)
        } else if c4 == 0x8 {
            Instruction::SwapB(op_n, op_m)
        } else if c4 == 0x9 {
            Instruction::SwapW(op_n, op_m)
        } else if c4 == 0xb {
            Instruction::ExtUB(op_n, op_m)
        } else if c4 == 0xc {
            Instruction::ExtUW(op_n, op_m)
        } else if c4 == 0xe {
            Instruction::ExtSB(op_n, op_m)
        } else if c4 == 0xf {
            Instruction::ExtSW(op_n, op_m)
        } else {
            Instruction::Unknown
        }
    } else if c1 == 0x7 {
        Instruction::AddConstant(op_n, imm)
    } else if c1 == 0x8 {
        if n == 0x0 {
            Instruction::MovStructStoreB(op_m, Operand::DisplacementOperand(c4))
        } else if n == 0x1 {
            Instruction::MovStructStoreW(op_m, Operand::DisplacementOperand(c4))
        } else if n == 0x4 {
            Instruction::MovStructLoadB(op_m, Operand::DisplacementOperand(c4))
        } else if n == 0x5 {
            Instruction::MovStructLoadW(op_m, Operand::DisplacementOperand(c4))
        } else if n == 0x8 {
            Instruction::CmpEqImm(imm)
        } else if n == 0x9 {
            Instruction::Bt(disp)
        } else if n == 0xb {
            Instruction::Bf(disp)
        } else if n == 0xd {
            Instruction::Bts(disp)
        } else if n == 0xf {
            Instruction::Bfs(disp)
        } else {
            Instruction::Unknown
        }
    } else if c1 == 0x9 {
        Instruction::MovConstantLoadW(op_n, disp)
    } else if c1 == 0xa {
        Instruction::Bra(op_n, disp)
    } else if c1 == 0xb {
        Instruction::Bsr(op_n, disp)
    } else if c1 == 0xc {
        if n == 0x0 {
            Instruction::MovGlobalStoreB(disp)
        } else if n == 0x1 {
            Instruction::MovGlobalStoreW(disp)
        } else if n == 0x2 {
            Instruction::MovGlobalStoreL(disp)
        } else if n == 0x4 {
            Instruction::MovGlobalLoadB(disp)
        } else if n == 0x5 {
            Instruction::MovGlobalLoadW(disp)
        } else if n == 0x6 {
            Instruction::MovGlobalLoadL(disp)
        } else if n == 0x7 {
            Instruction::MovA(disp)
        } else if n == 0x8 {
            Instruction::TstImm(imm)
        } else if n == 0x9 {
            Instruction::AndImm(imm)
        } else if n == 0xa {
            Instruction::XorImm(imm)
        } else if n == 0xb {
            Instruction::OrImm(imm)
        } else if n == 0xc {
            Instruction::TstB(imm)
        } else if n == 0xd {
            Instruction::AndB(imm)
        } else if n == 0xe {
            Instruction::XorB(imm)
        } else if n == 0xf {
            Instruction::OrB(imm)
        } else {
            Instruction::Unknown
        }
    } else if c1 == 0xd {
        Instruction::MovConstantLoadL(op_n, disp)
    } else if c1 == 0xe {
        Instruction::MovConstantSign(op_n, imm)
    } else if  c1 == 0xf {
    if c4 == 0x0 {
        Instruction::FAdd(op_n, op_m)
    } else if c4 == 0x9 {
        if n % 2 == 0x0 {
            Instruction::FMovLoadD8(op_n, op_m)
        } else {
            Instruction::FMovLoadS4(op_n, op_m)
        }
    } else if c4 == 0xb {
        if m % 2 == 0x0 {
            Instruction::FMovStoreD8(op_n, Operand::RegisterOperand((m / 2) as u8))
        } else {
            Instruction::FMovStoreS4(op_n, op_m)
        }
    } else if c4 == 0xc {
        Instruction::FMov(op_n, op_m)
    } else if c4 == 0xd {
        if m == 0xf {
            Instruction::Frchg
        } else {
            Instruction::Unknown
        }
    } else {
        Instruction::Unknown
    }
    } else {
        Instruction::Unknown
    }
}

/// The pipeline group of each decoded operation.
pub open spec fn spec_instruction_group(inst: Instruction) -> InstructionGroup {
    match inst {
        Instruction::Clrt => InstructionGroup::MT,
        Instruction::CmpEq(_, _) => InstructionGroup::MT,
        Instruction::Add(_, _) => InstructionGroup::EX,
        Instruction::AddConstant(_, _) => InstructionGroup::EX,
        Instruction::AddWithCarry(_, _) => InstructionGroup::EX,
        Instruction::AddOverflow(_, _) => InstructionGroup::EX,
        Instruction::And(_, _) => InstructionGroup::EX,
        Instruction::Bf(_) => InstructionGroup::BR,
        Instruction::Bfs(_) => InstructionGroup::BR,
        Instruction::Bt(_) => InstructionGroup::BR,
        Instruction::Bts(_) => InstructionGroup::BR,
        Instruction::Bra(_, _) => InstructionGroup::BR,
        Instruction::Bsr(_, _) => InstructionGroup::BR,
        _ => InstructionGroup::Unknown,
    }
}

/// Whether two operations may issue together: never when the groups are
/// equal (except two MT operations), never when either side is CO.
pub open spec fn spec_parallelizable(a: InstructionGroup, b: InstructionGroup) -> bool {
    if a is MT && b is MT {
        true
    } else if a == b {
        false
    } else if a is CO || b is CO {
        false
    } else {
        true
    }
}

/// Whether executing the operation can overwrite the program counter
/// directly (conditional branches and the unconditional jump).
pub open spec fn spec_alters_pc(inst: Instruction) -> bool {
    match inst {
        Instruction::Bf(_) => true,
        Instruction::Bt(_) => true,
        Instruction::Jmp(_) => true,
        _ => false,
    }
}

/// The instruction decoder: a pure, total lookup from 16-bit opcodes to
/// tagged operations.
pub struct InstructionDecoder;

impl InstructionDecoder {
    /// Decodes a 16-bit word. Pure and total: the result is a function of
    /// `code` alone, so two invocations on the same word always agree.
    pub fn decode(code: u16) -> (r: Instruction)
        ensures
            r == spec_decode(code),
    {
        let i = (code & 0xFF) as u8;
        let c4 = (code & 0xF) as u8;
        let m = ((code >> 4u16) & 0xF) as u8;
        let n = ((code >> 8u16) & 0xF) as u8;
        let c1 = ((code >> 12u16) & 0xF) as u8;
        let op_n = Operand::RegisterOperand(n);
        let op_m = Operand::RegisterOperand(m);
        let imm = Operand::ImmediateOperand(i);
        let disp = Operand::DisplacementOperand(i);
        if c1 == 0x0 {
            if c4 == 0x2 {
                if m == 0x1 {
                    Instruction::StcGbr(op_n)
                } else if m >= 8 {
                    Instruction::StcBanked(op_n, (m - 8) as u8)
                } else {
                    Instruction::Unknown
                }
            } else if c4 == 0x3 {
                if m == 0x0 {
                    Instruction::Bsrf(op_n)
                } else if m == 0x2 {
                    Instruction::Braf(op_n)
                } else if m == 0x8 {
                    Instruction::Pref(op_n)
                } else if m == 0xc {
                    Instruction::MovCA(op_n)
                } else {
                    Instruction::Unknown
                }
            } else if c4 == 0x4 {
                Instruction::MovDataStoreR0B(op_n, op_m)
            } else if c4 == 0x5 {
                Instruction::MovDataStoreR0W(op_n, op_m)
            } else if c4 == 0x6 {
                Instruction::MovDataStoreR0L(op_n, op_m)
            } else if c4 == 0x7 {
                Instruction::MulL(op_n, op_m)
            } else if c4 == 0x8 {
                if m == 0x0 {
                    Instruction::Clrt
                } else if m == 0x1 {
                    Instruction::Sett
                } else if m == 0x4 {
                    Instruction::Clrs
                } else if m == 0x5 {
                    Instruction::Sets
                } else {
                    Instruction::Unknown
                }
            } else if c4 == 0x9 {
                if m == 0x0 {
                    Instruction::Nop
                } else if m == 0x1 {
                    Instruction::Div0u
                } else if m == 0x2 {
                    Instruction::MovT(op_n)
                } else {
                    Instruction::Unknown
                }
            } else if c4 == 0xa {
                if m == 0x0 {
                    Instruction::StsMacH(op_n)
                } else if m == 0x1 {
                    Instruction::StsMacL(op_n)
                } else if m == 0x2 {
                    Instruction::StsPr(op_n)
                } else if m == 0xf {
                    Instruction::StcDbr(op_n)
                } else {
                    Instruction::Unknown
                }
            } else if c4 == 0xb {
                Instruction::Rts
            } else if c4 == 0xc {
                Instruction::MovDataLoadR0B(op_n, op_m)
            } else if c4 == 0xd {
                Instruction::MovDataLoadR0W(op_n, op_m)
            } else if c4 == 0xe {
                Instruction::MovDataLoadR0L(op_n, op_m)
            } else if c4 == 0xf {
                Instruction::MacL(op_n, op_m)
            } else {
                Instruction::Unknown
            }
        } else if c1 == 0x1 {
            Instruction::MovStructStoreL(op_n, imm)
        } else if c1 == 0x2 {
            if c4 == 0x0 {
                Instruction::MovDataBStore(op_n, op_m)
            } else if c4 == 0x1 {
                Instruction::MovDataWStore(op_n, op_m)
            } else if c4 == 0x2 {
                Instruction::MovDataLStore(op_n, op_m)
            } else if c4 == 0x4 {
                Instruction::MovDataBStore1(op_n, op_m)
            } else if c4 == 0x5 {
                Instruction::MovDataWStore2(op_n, op_m)
            } else if c4 == 0x6 {
                Instruction::MovDataLStore4(op_n, op_m)
            } else if c4 == 0x7 {
                Instruction::Div0s(op_n, op_m)
            } else if c4 == 0x8 {
                Instruction::Tst(op_n, op_m)
            } else if c4 == 0x9 {
                Instruction::And(op_n, op_m)
            } else if c4 == 0xa {
                Instruction::Xor(op_n, op_m)
            } else if c4 == 0xb {
                Instruction::Or(op_n, op_m)
            } else if c4 == 0xc {
                Instruction::CmpStr(op_n, op_m)
            } else if c4 == 0xe {
                Instruction::MulUW(op_n, op_m)
            } else if c4 == 0xf {
                Instruction::MulSW(op_n, op_m)
            } else {
                Instruction::Unknown
            }
        } else if c1 == 0x3 {
            if c4 == 0x0 {
                Instruction::CmpEq(op_n, op_m)
            } else if c4 == 0x2 {
                Instruction::CmpHs(op_n, op_m)
            } else if c4 == 0x3 {
                Instruction::CmpGe(op_n, op_m)
            } else if c4 == 0x4 {
                Instruction::Div1(op_n, op_m)
            } else if c4 == 0x6 {
                Instruction::CmpHi(op_n, op_m)
            } else if c4 == 0x7 {
                Instruction::CmpGt(op_n, op_m)
            } else if c4 == 0x8 {
                Instruction::Sub(op_n, op_m)
            } else if c4 == 0xc {
                Instruction::Add(op_n, op_m)
            } else if c4 == 0xe {
                Instruction::AddWithCarry(op_n, op_m)
            } else if c4 == 0xf {
                Instruction::AddOverflow(op_n, op_m)
            } else {
                Instruction::Unknown
            }
        } else if c1 == 0x4 {
            if c4 == 0x0 {
                if m == 0x0 {
                    Instruction::Shll(op_n)
                } else if m == 0x1 {
                    Instruction::Dt(op_n)
                } else {
                    Instruction::Unknown
                }
            } else if c4 == 0x1 {
                if m == 0x0 {
                    Instruction::Shlr(op_n)
                } else if m == 0x1 {
                    Instruction::CmpPz(op_n)
                } else if m == 0x2 {
                    Instruction::Shar(op_n)
                } else {
                    Instruction::Unknown
                }
            } else if c4 == 0x2 {
                if m == 0x0 {
                    Instruction::StsLMacH(op_n)
                } else if m == 0x1 {
                    Instruction::StsLMacL(op_n)
                } else if m == 0x2 {
                    Instruction::StsLPr(op_n)
                } else {
                    Instruction::Unknown
                }
            } else if c4 == 0x4 {
                if m == 0x0 {
                    Instruction::Rotl(op_n)
                } else if m == 0x2 {
                    Instruction::RotCl(op_n)
                } else {
                    Instruction::Unknown
                }
            } else if c4 == 0x5 {
                if m == 0x0 {
                    Instruction::Rotr(op_n)
                } else if m == 0x1 {
                    Instruction::CmpPl(op_n)
                } else if m == 0x2 {
                    Instruction::RotCr(op_n)
                } else {
                    Instruction::Unknown
                }
            } else if c4 == 0x6 {
                if m == 0x0 {
                    Instruction::LdsLMacl(op_n)
                } else if m == 0x1 {
                    Instruction::LdsLMach(op_n)
                } else if m == 0x2 {
                    Instruction::LdsLPr(op_n)
                } else if m == 0x5 {
                    Instruction::LdsFpulL(op_n)
                } else if m == 0x6 {
                    Instruction::LdsFpscrL(op_n)
                } else {
                    Instruction::Unknown
                }
            } else if c4 == 0x7 {
                if m == 0x0 {
                    Instruction::LdcLSr(op_n)
                } else if m == 0x1 {
                    Instruction::LdcLGbr(op_n)
                } else if m == 0x2 {
                    Instruction::LdcLVbr(op_n)
                } else if m == 0x3 {
                    Instruction::LdcLSsr(op_n)
                } else if m == 0x4 {
                    Instruction::LdcLSpc(op_n)
                } else {
                    Instruction::Unknown
                }
            } else if c4 == 0x8 {
                if m == 0x0 {
                    Instruction::Shll2(op_n)
                } else if m == 0x1 {
                    Instruction::Shll8(op_n)
                } else if m == 0x2 {
                    Instruction::Shll16(op_n)
                } else {
                    Instruction::Unknown
                }
            } else if c4 == 0x9 {
                if m == 0x0 {
                    Instruction::Shlr2(op_n)
                } else if m == 0x1 {
                    Instruction::Shlr8(op_n)
                } else if m == 0x2 {
                    Instruction::Shlr16(op_n)
                } else {
                    Instruction::Unknown
                }
            } else if c4 == 0xa {
                if m == 0x2 {
                    Instruction::LdsPr(op_n)
                } else if m == 0x6 {
                    Instruction::LdsFpscr(op_n)
                } else if m == 0xf {
                    Instruction::LdcDbr(op_n)
                } else {
                    Instruction::Unknown
                }
            } else if c4 == 0xb {
                if m == 0x0 {
                    Instruction::Jsr(op_n)
                } else if m == 0x1 {
                    Instruction::Tas(op_n)
                } else if m == 0x2 {
                    Instruction::Jmp(op_n)
                } else {
                    Instruction::Unknown
                }
            } else if c4 == 0xe {
                Instruction::LdcSr(op_n)
            } else {
                Instruction::Unknown
            }
        } else if c1 == 0x5 {
            Instruction::MovStructLoadL(op_n, imm)
        } else if c1 == 0x6 {
            if c4 == 0x0 {
                Instruction::MovDataSignBLoad(op_n, op_m)
            } else if c4 == 0x1 {
                Instruction::MovDataSignWLoad(op_n, op_m)
            } else if c4 == 0x2 {
                Instruction::MovDataSignLLoad(op_n, op_m)
            } else if c4 == 0x3 {
                Instruction::MovData(op_n, op_m)
            } else if c4 == 0x4 {
                Instruction::MovDataSignBLoad1(op_n, op_m)
            } else if c4 == 0x5 {
                Instruction::MovDataSignWLoad2(op_n, op_m)
            } else if c4 == 0x6 {
                Instruction::MovDataSignLLoad4(op_n, op_m)
            } else if c4 == 0x7 {
                Instruction::Not(op_n, op_m)
            } else if c4 == 0x8 {
                Instruction::SwapB(op_n, op_m)
            } else if c4 == 0x9 {
                Instruction::SwapW(op_n, op_m)
            } else if c4 == 0xb {
                Instruction::ExtUB(op_n, op_m)
            } else if c4 == 0xc {
                Instruction::ExtUW(op_n, op_m)
            } else if c4 == 0xe {
                Instruction::ExtSB(op_n, op_m)
            } else if c4 == 0xf {
                Instruction::ExtSW(op_n, op_m)
            } else {
                Instruction::Unknown
            }
        } else if c1 == 0x7 {
            Instruction::AddConstant(op_n, imm)
        } else if c1 == 0x8 {
            if n == 0x0 {
                Instruction::MovStructStoreB(op_m, Operand::DisplacementOperand(c4))
            } else if n == 0x1 {
                Instruction::MovStructStoreW(op_m, Operand::DisplacementOperand(c4))
            } else if n == 0x4 {
                Instruction::MovStructLoadB(op_m, Operand::DisplacementOperand(c4))
            } else if n == 0x5 {
                Instruction::MovStructLoadW(op_m, Operand::DisplacementOperand(c4))
            } else if n == 0x8 {
                Instruction::CmpEqImm(imm)
            } else if n == 0x9 {
                Instruction::Bt(disp)
            } else if n == 0xb {
                Instruction::Bf(disp)
            } else if n == 0xd {
                Instruction::Bts(disp)
            } else if n == 0xf {
                Instruction::Bfs(disp)
            } else {
                Instruction::Unknown
            }
        } else if c1 == 0x9 {
            Instruction::MovConstantLoadW(op_n, disp)
        } else if c1 == 0xa {
            Instruction::Bra(op_n, disp)
        } else if c1 == 0xb {
            Instruction::Bsr(op_n, disp)
        } else if c1 == 0xc {
            if n == 0x0 {
                Instruction::MovGlobalStoreB(disp)
            } else if n == 0x1 {
                Instruction::MovGlobalStoreW(disp)
            } else if n == 0x2 {
                Instruction::MovGlobalStoreL(disp)
            } else if n == 0x4 {
                Instruction::MovGlobalLoadB(disp)
            } else if n == 0x5 {
                Instruction::MovGlobalLoadW(disp)
            } else if n == 0x6 {
                Instruction::MovGlobalLoadL(disp)
            } else if n == 0x7 {
                Instruction::MovA(disp)
            } else if n == 0x8 {
                Instruction::TstImm(imm)
            } else if n == 0x9 {
                Instruction::AndImm(imm)
            } else if n == 0xa {
                Instruction::XorImm(imm)
            } else if n == 0xb {
                Instruction::OrImm(imm)
            } else if n == 0xc {
                Instruction::TstB(imm)
            } else if n == 0xd {
                Instruction::AndB(imm)
            } else if n == 0xe {
                Instruction::XorB(imm)
            } else if n == 0xf {
                Instruction::OrB(imm)
            } else {
                Instruction::Unknown
            }
        } else if c1 == 0xd {
            Instruction::MovConstantLoadL(op_n, disp)
        } else if c1 == 0xe {
            Instruction::MovConstantSign(op_n, imm)
        } else if  c1 == 0xf {
        if c4 == 0x0 {
            Instruction::FAdd(op_n, op_m)
        } else if c4 == 0x9 {
            if n % 2 == 0x0 {
                Instruction::FMovLoadD8(op_n, op_m)
            } else {
                Instruction::FMovLoadS4(op_n, op_m)
            }
        } else if c4 == 0xb {
            if m % 2 == 0x0 {
                Instruction::FMovStoreD8(op_n, Operand::RegisterOperand((m / 2) as u8))
            } else {
                Instruction::FMovStoreS4(op_n, op_m)
            }
        } else if c4 == 0xc {
            Instruction::FMov(op_n, op_m)
        } else if c4 == 0xd {
            if m == 0xf {
                Instruction::Frchg
            } else {
                Instruction::Unknown
            }
        } else {
            Instruction::Unknown
        }
        } else {
            Instruction::Unknown
        }
    }

    pub fn instruction_group(inst: Instruction) -> (r: InstructionGroup)
        ensures
            r == spec_instruction_group(inst),
    {
        match inst {
            Instruction::Clrt => InstructionGroup::MT,
            Instruction::CmpEq(_, _) => InstructionGroup::MT,
            Instruction::Add(_, _) => InstructionGroup::EX,
            Instruction::AddConstant(_, _) => InstructionGroup::EX,
            Instruction::AddWithCarry(_, _) => InstructionGroup::EX,
            Instruction::AddOverflow(_, _) => InstructionGroup::EX,
            Instruction::And(_, _) => InstructionGroup::EX,
            Instruction::Bf(_) => InstructionGroup::BR,
            Instruction::Bfs(_) => InstructionGroup::BR,
            Instruction::Bt(_) => InstructionGroup::BR,
            Instruction::Bts(_) => InstructionGroup::BR,
            Instruction::Bra(_, _) => InstructionGroup::BR,
            Instruction::Bsr(_, _) => InstructionGroup::BR,
            _ => InstructionGroup::Unknown,
        }
    }

    pub fn parallelizable(a: InstructionGroup, b: InstructionGroup) -> (r: bool)
        ensures
            r == spec_parallelizable(a, b),
    {
        match (a, b) {
            (InstructionGroup::MT, InstructionGroup::MT) => true,
            (InstructionGroup::CO, _) => false,
            (_, InstructionGroup::CO) => false,
            _ => a != b,
        }
    }

    pub fn alters_pc(inst: Instruction) -> (r: bool)
        ensures
            r == spec_alters_pc(inst),
    {
        match inst {
            Instruction::Bf(_) => true,
            Instruction::Bt(_) => true,
            Instruction::Jmp(_) => true,
            _ => false,
        }
    }
}

/// Decoding is pure: any two results obtained for the same word are the
/// same variant with the same operands.
pub proof fn lemma_decode_pure(code: u16, r1: Instruction, r2: Instruction)
    requires
        r1 == spec_decode(code),
        r2 == spec_decode(code),
    ensures
        r1 == r2,
{
}

/// The operations that alter the program counter directly are exactly the
/// `Bf`, `Bt` and `Jmp` variants, whatever word they were decoded from.
pub proof fn lemma_alters_pc_variants(inst: Instruction)
    ensures
        spec_alters_pc(inst) <==> (inst is Bf || inst is Bt || inst is Jmp),
{
}

} // verus!
