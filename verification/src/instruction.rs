use vstd::prelude::*;
use crate::operand::Operand;

verus! {

/// A decoded SH-4 operation. Each variant carries up to three 8-bit operand
/// slots; `Unknown` stands for a 16-bit pattern with no defined production.
#[derive(Copy, Clone, PartialEq, Eq, Structural, Debug)]
pub enum Instruction {
    Add(Operand, Operand),
    AddConstant(Operand, Operand),
    AddWithCarry(Operand, Operand),
    AddOverflow(Operand, Operand),
    Sub(Operand, Operand),
    CmpEqImm(Operand),
    CmpEq(Operand, Operand),
    CmpHs(Operand, Operand),
    CmpGe(Operand, Operand),
    CmpHi(Operand, Operand),
    CmpGt(Operand, Operand),
    CmpPz(Operand),
    CmpPl(Operand),
    CmpStr(Operand, Operand),
    Div1(Operand, Operand),
    Div0s(Operand, Operand),
    Div0u,
    MulL(Operand, Operand),
    MulSW(Operand, Operand),
    MulUW(Operand, Operand),
    MacL(Operand, Operand),
    ExtUB(Operand, Operand),
    ExtUW(Operand, Operand),
    ExtSB(Operand, Operand),
    ExtSW(Operand, Operand),
    And(Operand, Operand),
    AndImm(Operand),
    AndB(Operand),
    Not(Operand, Operand),
    Or(Operand, Operand),
    OrImm(Operand),
    OrB(Operand),
    Tst(Operand, Operand),
    TstImm(Operand),
    TstB(Operand),
    Tas(Operand),
    Dt(Operand),
    Xor(Operand, Operand),
    XorImm(Operand),
    XorB(Operand),
    MovData(Operand, Operand),
    MovDataBStore(Operand, Operand),
    MovDataWStore(Operand, Operand),
    MovDataLStore(Operand, Operand),
    MovDataBLoad(Operand, Operand),
    MovDataWLoad(Operand, Operand),
    MovDataSignBLoad(Operand, Operand),
    MovDataSignWLoad(Operand, Operand),
    MovDataSignLLoad(Operand, Operand),
    MovDataBStore1(Operand, Operand),
    MovDataWStore2(Operand, Operand),
    MovDataLStore4(Operand, Operand),
    MovDataSignBLoad1(Operand, Operand),
    MovDataSignWLoad2(Operand, Operand),
    MovDataSignLLoad4(Operand, Operand),
    MovDataStoreR0B(Operand, Operand),
    MovDataStoreR0W(Operand, Operand),
    MovDataStoreR0L(Operand, Operand),
    MovDataLoadR0B(Operand, Operand),
    MovDataLoadR0W(Operand, Operand),
    MovDataLoadR0L(Operand, Operand),
    MovConstantSign(Operand, Operand),
    MovConstantLoadW(Operand, Operand),
    MovConstantLoadL(Operand, Operand),
    MovGlobalLoadB(Operand),
    MovGlobalLoadW(Operand),
    MovGlobalLoadL(Operand),
    MovGlobalStoreB(Operand),
    MovGlobalStoreW(Operand),
    MovGlobalStoreL(Operand),
    MovStructStoreB(Operand, Operand),
    MovStructStoreW(Operand, Operand),
    MovStructStoreL(Operand, Operand),
    MovStructLoadB(Operand, Operand),
    MovStructLoadW(Operand, Operand),
    MovStructLoadL(Operand, Operand),
    MovA(Operand),
    MovCA(Operand),
    MovT(Operand),
    SwapB(Operand, Operand),
    SwapW(Operand, Operand),
    Rotl(Operand),
    Rotr(Operand),
    RotCl(Operand),
    RotCr(Operand),
    Shll(Operand),
    Shll2(Operand),
    Shll8(Operand),
    Shll16(Operand),
    Shlr(Operand),
    Shlr2(Operand),
    Shlr8(Operand),
    Shlr16(Operand),
    Shar(Operand),
    Bf(Operand),
    Bt(Operand),
    Bfs(Operand),
    Bts(Operand),
    Bra(Operand, Operand),
    Braf(Operand),
    Bsr(Operand, Operand),
    Bsrf(Operand),
    Jmp(Operand),
    Jsr(Operand),
    Rts,
    Clrs,
    Clrt,
    Sets,
    Sett,
    LdcSr(Operand),
    LdcGbr(Operand),
    LdcVbr(Operand),
    LdcDbr(Operand),
    LdcLSr(Operand),
    LdcLGbr(Operand),
    LdcLVbr(Operand),
    LdcLSsr(Operand),
    LdcLSpc(Operand),
    LdsPr(Operand),
    LdsLMacl(Operand),
    LdsLMach(Operand),
    LdsLPr(Operand),
    LdsFpscr(Operand),
    LdsFpscrL(Operand),
    LdsFpulL(Operand),
    StcGbr(Operand),
    StcDbr(Operand),
    StcBanked(Operand, u8),
    StsMacH(Operand),
    StsMacL(Operand),
    StsPr(Operand),
    StsLMacH(Operand),
    StsLMacL(Operand),
    StsLPr(Operand),
    FAdd(Operand, Operand),
    FMov(Operand, Operand),
    FMovLoadS4(Operand, Operand),
    FMovLoadD8(Operand, Operand),
    FMovStoreS4(Operand, Operand),
    FMovStoreD8(Operand, Operand),
    Frchg,
    Pref(Operand),
    Nop,
    Unknown,
}

/// The pipeline group an operation issues in. Advisory: the interpreter does
/// not dual-issue, but the tag is preserved for co-issue queries.
#[derive(Copy, Clone, PartialEq, Eq, Structural, Debug)]
pub enum InstructionGroup {
    EX,
    BR,
    MT,
    CO,
    Unknown,
}

} // verus!
