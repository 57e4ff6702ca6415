//! The execution engine: per-instruction semantics over the processor and
//! memory models, including arithmetic flags, sign extension, delay-slot
//! branching, register banking, FPU bank selection and memory side effects.
//!
//! Every supported operation has its meaning written once, in `exec_post`,
//! as a relation between the machine state before and after; reads that
//! route to a peripheral are related existentially, since their value
//! depends on the peer. `exec_pre` says exactly when execution is defined:
//! it excludes the operations the engine does not define, and demands that
//! every touched memory field be in bounds and raw where a raw read is
//! required, as well as the nested step obligation of a delayed branch.

use vstd::prelude::*;
use rustc_apfloat::Float;
use crate::operand::Operand;
use crate::operand::operand_value;
use crate::instruction::Instruction;
use crate::cpu::Cpu;
use crate::cpu::CpuView;
use crate::cpu::cpu_wf;
use crate::cpu::FPSCR_MASK;
use crate::memory::Memory;
use crate::memory::MemView;
use crate::memory_field::MemoryField;
use crate::memory::spec_map;
use crate::memory::spec_widx;
use crate::memory::spec_routed;
use crate::memory::raw_word;
use crate::memory::raw_dword;
use crate::memory::spec_get_byte;
use crate::memory::spec_put_byte;
use crate::memory::can_read16;
use crate::memory::can_read32;
use crate::memory::can_write16;
use crate::memory::can_write32;
use crate::memory::can_rw8;
use crate::instruction_decoder::spec_decode;
use crate::instruction_decoder::InstructionDecoder;

verus! {

/// A value reduced to 32 bits.
pub open spec fn w32(x: int) -> u32 {
    (x % 0x1_0000_0000) as u32
}

/// An 8-bit value sign-extended to 32 bits.
pub open spec fn sx8(b: u8) -> u32 {
    if b < 0x80 {
        b as u32
    } else {
        (b + 0xFFFF_FF00) as u32
    }
}

/// A 16-bit value sign-extended to 32 bits.
pub open spec fn sx16(w: u16) -> u32 {
    if w < 0x8000 {
        w as u32
    } else {
        (w + 0xFFFF_0000) as u32
    }
}

/// The 12-bit branch displacement composed from the `n` nibble and the low
/// byte, sign-extended from bit 11.
pub open spec fn sx12(n: u8, d: u8) -> u32 {
    let v = ((n as u32) << 8u32) | (d as u32);
    if v & 0x800 == 0 {
        v & 0xFFF
    } else {
        v | 0xFFFF_F000
    }
}

/// A 32-bit value read as a signed integer.
pub open spec fn sgn32(v: u32) -> int {
    if v < 0x8000_0000 {
        v as int
    } else {
        v as int - 0x1_0000_0000
    }
}

/// An operand that names a visible general register.
pub open spec fn reg_ok(op: Operand) -> bool {
    op is RegisterOperand && operand_value(op) < 16
}

/// A value that could be the byte read at `a`: forced when the address is
/// not routed to a peripheral, arbitrary when a peripheral answers.
pub open spec fn read8_rel(m: MemView, a: int, b: u8) -> bool {
    !spec_routed(m, spec_map(a)) ==> b == spec_get_byte(raw_word(m, a), a % 2)
}

/// A value that could be the 16-bit word read at `a`.
pub open spec fn read16_rel(m: MemView, a: int, v: u16) -> bool {
    !spec_routed(m, spec_map(a)) ==> v == raw_word(m, a)
}

/// A value that could be the 32-bit value read at `a`.
pub open spec fn read32_rel(m: MemView, a: int, v: u32) -> bool {
    !spec_routed(m, spec_map(a)) ==> v == raw_dword(m, a)
}

/// The effect of a byte write at `a` on the backing store: none when the
/// address routes to a peripheral, else the byte replaced in its word.
pub open spec fn wrote8(m0: MemView, m1: MemView, a: int, b: u8) -> bool {
    m1.cells == if spec_routed(m0, spec_map(a)) {
        m0.cells
    } else {
        m0.cells.update(
            spec_widx(a),
            MemoryField::MemoryCell(spec_put_byte(raw_word(m0, a), a % 2, b)),
        )
    }
}

/// The effect of a 16-bit write at `a` on the backing store.
pub open spec fn wrote16(m0: MemView, m1: MemView, a: int, v: u16) -> bool {
    m1.cells == if spec_routed(m0, spec_map(a)) {
        m0.cells
    } else {
        m0.cells.update(spec_widx(a), MemoryField::MemoryCell(v))
    }
}

/// The effect of a 32-bit write at `a` on the backing store: the low half
/// at `a`, the high half at `a + 2`.
pub open spec fn wrote32(m0: MemView, m1: MemView, a: int, v: u32) -> bool {
    m1.cells == if spec_routed(m0, spec_map(a)) {
        m0.cells
    } else {
        m0.cells.update(spec_widx(a), MemoryField::MemoryCell((v % 0x10000) as u16)).update(
            spec_widx(a + 2),
            MemoryField::MemoryCell((v / 0x10000) as u16),
        )
    }
}

/// Two consecutive 32-bit writes.
pub open spec fn wrote32_pair(
    m0: MemView,
    m1: MemView,
    a1: int,
    v1: u32,
    a2: int,
    v2: u32,
) -> bool {
    exists|mid: Seq<MemoryField>|
        {
            let mm = MemView { cells: mid, ..m0 };
            #[trigger] trig_cells(mid) && wrote32(m0, mm, a1, v1) && wrote32(mm, m1, a2, v2)
        }
}

/// A trigger marker for intermediate cell sequences.
pub open spec fn trig_cells(s: Seq<MemoryField>) -> bool {
    true
}

/// A trigger marker for intermediate processor states.
pub open spec fn trig_cpu(c: CpuView) -> bool {
    true
}

/// What execution never changes: the I/O registry and the sizes of the
/// store and of the register files.
pub open spec fn frame(c0: CpuView, m0: MemView, c1: CpuView, m1: MemView) -> bool {
    &&& m1.ranges == m0.ranges
    &&& m1.lo == m0.lo
    &&& m1.hi == m0.hi
    &&& m1.cells.len() == m0.cells.len()
    &&& c1.regs.len() == c0.regs.len()
    &&& c1.fregs.len() == c0.fregs.len()
}

/// The bookkeeping at the top of a step: the high-water mark of the
/// program counter over user addresses.
pub open spec fn with_max(c: CpuView) -> CpuView {
    CpuView {
        max: if c.pc > c.max && c.pc < 0xA000_0000 {
            c.pc
        } else {
            c.max
        },
        ..c
    }
}

/// The name of the IEEE-754 binary32 sum: what adding the two operand bit
/// patterns yields, rounding to nearest even. The sum is a function of the
/// bit patterns alone.
pub uninterp spec fn f32_add_bits(a: u32, b: u32) -> u32;

/// Relies on `rustc_apfloat::ieee::Single`: software IEEE-754 binary32
/// addition on bit patterns, rounding to nearest even, a pure function of
/// its arguments.
#[verifier::external_body]
fn fadd_bits(a: u32, b: u32) -> (r: u32)
    ensures
        r == f32_add_bits(a, b),
{
    let x = rustc_apfloat::ieee::Single::from_bits(a as u128);
    let y = rustc_apfloat::ieee::Single::from_bits(b as u128);
    ((x + y).value).to_bits() as u32
}

/// Addition reduced to 32 bits.
pub fn wadd(a: u32, b: u32) -> (r: u32)
    ensures
        r == w32(a + b),
{
    (((a as u64) + (b as u64)) % 0x1_0000_0000) as u32
}

/// Three-way addition reduced to 32 bits.
pub fn wadd3(a: u32, b: u32, c: u32) -> (r: u32)
    ensures
        r == w32(a + b + c),
{
    (((a as u64) + (b as u64) + (c as u64)) % 0x1_0000_0000) as u32
}

/// Subtraction reduced to 32 bits.
pub fn wsub(a: u32, b: u32) -> (r: u32)
    ensures
        r == w32(a - b),
{
    (((a as u64) + 0x1_0000_0000 - (b as u64)) % 0x1_0000_0000) as u32
}

/// Multiplication reduced to 32 bits.
pub fn wmul(a: u32, b: u32) -> (r: u32)
    ensures
        r == w32(a * b),
{
    proof {
        assert((a as u64) * (b as u64) < 0x1_0000_0000_0000_0000) by (nonlinear_arith)
            requires
                a <= 0xFFFF_FFFFu32 && b <= 0xFFFF_FFFFu32,
        ;
        assert((a as u64) * (b as u64) == (a as int) * (b as int)) by (nonlinear_arith);
    }
    (((a as u64) * (b as u64)) % 0x1_0000_0000) as u32
}

/// Sign extension of a byte, as a 32-bit pattern.
pub fn sext8u(b: u8) -> (r: u32)
    ensures
        r == sx8(b),
{
    if b < 0x80 {
        b as u32
    } else {
        b as u32 + 0xFFFF_FF00
    }
}

/// Sign extension of a 16-bit word, as a 32-bit pattern.
pub fn sext16u(w: u16) -> (r: u32)
    ensures
        r == sx16(w),
{
    if w < 0x8000 {
        w as u32
    } else {
        w as u32 + 0xFFFF_0000
    }
}


/// The target of an 8-bit-displacement branch: PC + 2 plus twice the
/// sign-extended displacement, reduced to 32 bits.
pub fn disp8_target(pc: u32, d: u8) -> (r: u32)
    ensures
        r == w32(pc + 2 + 2 * sx8(d)),
{
    ((pc as u64 + 2 + 2 * (sext8u(d) as u64)) % 0x1_0000_0000) as u32
}

/// The target of a 12-bit-displacement branch: PC + 2 plus twice the
/// sign-extended composed displacement, reduced to 32 bits.
pub fn disp12_target(pc: u32, n: u8, d: u8) -> (r: u32)
    ensures
        r == w32(pc + 2 + 2 * sx12(n, d)),
{
    let v: u32 = ((n as u32) << 8u32) | (d as u32);
    let off: u32 = if v & 0x800 == 0 {
        v & 0xFFF
    } else {
        v | 0xFFFF_F000
    };
    ((pc as u64 + 2 + 2 * (off as u64)) % 0x1_0000_0000) as u32
}

/// The recursion bound of the delay-slot nesting, clamped so that the
/// measure stays non-negative for every depth.
pub open spec fn dclamp(depth: int) -> int {
    if 0 <= depth && depth <= 1 {
        1 - depth
    } else {
        0
    }
}

/// The processor state after a multiply-accumulate that read the two
/// factors `va` and `vb`: both pointer registers advanced by 4 and the
/// 64-bit accumulator updated modulo 2^64.
pub open spec fn mac_result(c0: CpuView, n: int, m_: int, va: u32, vb: u32) -> CpuView {
    let ca = c0.with_reg(n, w32(c0.reg(n) + 4));
    let cb = ca.with_reg(m_, w32(ca.reg(m_) + 4));
    let tot = (c0.mach * 0x1_0000_0000 + c0.macl + sgn32(va) * sgn32(vb))
        % 0x1_0000_0000_0000_0000;
    CpuView { mach: (tot / 0x1_0000_0000) as u32, macl: (tot % 0x1_0000_0000) as u32, ..cb }
}

/// When execution of an instruction is defined: the operands have the
/// kinds and bounds its format requires, every memory field it touches is
/// accessible, the operation is one the engine defines, and a delayed
/// branch at top level can run its delay slot.
///
/// Execution is total over the decoded variants with one deliberate
/// exception: the forms with no given semantics — `Div1`, `Div0s`,
/// `Div0u`, `Not`, `Rotl`, `RotCl`, `RotCr`, `StsPr`, `MovDataBLoad` and
/// `MovDataWLoad` — are excluded here rather than guessed at, matching
/// the policy that an undefined operation is a fatal failure, not a
/// silent one.
pub open spec fn exec_pre(i: Instruction, c: CpuView, m: MemView, depth: int) -> bool
    decreases dclamp(depth), 0int,
{
    match i {
        Instruction::Add(x, y) => reg_ok(x) && reg_ok(y),
        Instruction::Sub(x, y) => reg_ok(x) && reg_ok(y),
        Instruction::And(x, y) => reg_ok(x) && reg_ok(y),
        Instruction::Or(x, y) => reg_ok(x) && reg_ok(y),
        Instruction::Xor(x, y) => reg_ok(x) && reg_ok(y),
        Instruction::MovData(x, y) => reg_ok(x) && reg_ok(y),
        Instruction::ExtUB(x, y) => reg_ok(x) && reg_ok(y),
        Instruction::ExtUW(x, y) => reg_ok(x) && reg_ok(y),
        Instruction::ExtSB(x, y) => reg_ok(x) && reg_ok(y),
        Instruction::ExtSW(x, y) => reg_ok(x) && reg_ok(y),
        Instruction::SwapB(x, y) => reg_ok(x) && reg_ok(y),
        Instruction::SwapW(x, y) => reg_ok(x) && reg_ok(y),
        Instruction::CmpEq(x, y) => reg_ok(x) && reg_ok(y),
        Instruction::CmpHs(x, y) => reg_ok(x) && reg_ok(y),
        Instruction::CmpGe(x, y) => reg_ok(x) && reg_ok(y),
        Instruction::CmpHi(x, y) => reg_ok(x) && reg_ok(y),
        Instruction::CmpGt(x, y) => reg_ok(x) && reg_ok(y),
        Instruction::Tst(x, y) => reg_ok(x) && reg_ok(y),
        Instruction::CmpStr(x, y) => reg_ok(x) && reg_ok(y),
        Instruction::CmpPz(x) => reg_ok(x),
        Instruction::CmpPl(x) => reg_ok(x),
        Instruction::Shll(x) => reg_ok(x),
        Instruction::Shll2(x) => reg_ok(x),
        Instruction::Shll8(x) => reg_ok(x),
        Instruction::Shll16(x) => reg_ok(x),
        Instruction::Shlr(x) => reg_ok(x),
        Instruction::Shlr2(x) => reg_ok(x),
        Instruction::Shlr8(x) => reg_ok(x),
        Instruction::Shlr16(x) => reg_ok(x),
        Instruction::Shar(x) => reg_ok(x),
        Instruction::Rotr(x) => reg_ok(x),
        Instruction::AndImm(x) => x is ImmediateOperand,
        Instruction::OrImm(x) => x is ImmediateOperand,
        Instruction::XorImm(x) => x is ImmediateOperand,
        Instruction::Pref(x) => true,
        Instruction::Nop => true,
        Instruction::Unknown => true,
        Instruction::Clrs => true,
        Instruction::Sets => true,
        Instruction::Clrt => true,
        Instruction::Sett => true,
        Instruction::Frchg => true,
        Instruction::LdcSr(x) => reg_ok(x),
        Instruction::LdcDbr(x) => reg_ok(x),
        Instruction::LdcGbr(x) => reg_ok(x),
        Instruction::LdcVbr(x) => reg_ok(x),
        Instruction::LdsPr(x) => reg_ok(x),
        Instruction::LdsFpscr(x) => reg_ok(x),
        Instruction::StcGbr(x) => reg_ok(x),
        Instruction::StcDbr(x) => reg_ok(x),
        Instruction::StsMacH(x) => reg_ok(x),
        Instruction::StsMacL(x) => reg_ok(x),
        Instruction::StcBanked(x, b) => reg_ok(x) && b < 8,
        Instruction::MovT(x) => reg_ok(x),
        Instruction::MulL(x, y) => reg_ok(x) && reg_ok(y),
        Instruction::MulSW(x, y) => reg_ok(x) && reg_ok(y),
        Instruction::MulUW(x, y) => reg_ok(x) && reg_ok(y),
        Instruction::AddConstant(x, y) => reg_ok(x) && y is ImmediateOperand,
        Instruction::AddWithCarry(x, y) => reg_ok(x) && reg_ok(y),
        Instruction::AddOverflow(x, y) => reg_ok(x) && reg_ok(y),
        Instruction::Dt(x) => reg_ok(x),
        Instruction::CmpEqImm(x) => x is ImmediateOperand,
        Instruction::TstImm(x) => x is ImmediateOperand,
        Instruction::MovConstantSign(x, y) => reg_ok(x) && y is ImmediateOperand,
        Instruction::MovA(x) => x is DisplacementOperand,
        Instruction::MovDataBStore(x, y) => reg_ok(x) && reg_ok(y) && can_rw8(m, (c.reg(operand_value(x) as int)) as int),
        Instruction::MovDataWStore(x, y) => reg_ok(x) && reg_ok(y) && can_write16(m, (c.reg(operand_value(x) as int)) as int),
        Instruction::MovDataLStore(x, y) => reg_ok(x) && reg_ok(y) && can_write32(m, (c.reg(operand_value(x) as int)) as int),
        Instruction::MovDataStoreR0B(x, y) => reg_ok(x) && reg_ok(y) && can_rw8(m, (w32(c.reg(operand_value(x) as int) + c.reg(0))) as int),
        Instruction::MovDataStoreR0W(x, y) => reg_ok(x) && reg_ok(y) && can_write16(m, (w32(c.reg(operand_value(x) as int) + c.reg(0))) as int),
        Instruction::MovDataStoreR0L(x, y) => reg_ok(x) && reg_ok(y) && can_write32(m, (w32(c.reg(operand_value(x) as int) + c.reg(0))) as int),
        Instruction::MovStructStoreB(x, y) => reg_ok(x) && y is DisplacementOperand && can_rw8(m, (w32(c.reg(operand_value(x) as int) + operand_value(y))) as int),
        Instruction::MovStructStoreW(x, y) => reg_ok(x) && y is DisplacementOperand && can_write16(m, (w32(c.reg(operand_value(x) as int) + 2 * operand_value(y))) as int),
        Instruction::MovStructStoreL(x, y) => reg_ok(x) && y is ImmediateOperand && can_write32(m, (w32(c.reg(operand_value(x) as int) + 4 * (operand_value(y) & 0xFu8))) as int),
        Instruction::MovGlobalStoreB(x) => x is DisplacementOperand && can_rw8(m, (w32(c.gbr + operand_value(x))) as int),
        Instruction::MovGlobalStoreW(x) => x is DisplacementOperand && can_write16(m, (w32(c.gbr + 2 * operand_value(x))) as int),
        Instruction::MovGlobalStoreL(x) => x is DisplacementOperand && can_write32(m, (w32(c.gbr + 4 * operand_value(x))) as int),
        Instruction::MovCA(x) => reg_ok(x) && can_write32(m, (c.reg(operand_value(x) as int)) as int),
        Instruction::MovDataBStore1(x, y) => reg_ok(x) && reg_ok(y) && can_rw8(m, (w32(c.reg(operand_value(x) as int) - 1)) as int),
        Instruction::MovDataWStore2(x, y) => reg_ok(x) && reg_ok(y) && can_write16(m, (w32(c.reg(operand_value(x) as int) - 2)) as int),
        Instruction::MovDataLStore4(x, y) => reg_ok(x) && reg_ok(y) && can_write32(m, (w32(c.reg(operand_value(x) as int) - 4)) as int),
        Instruction::StsLMacH(x) => reg_ok(x) && can_write32(m, (w32(c.reg(operand_value(x) as int) - 4)) as int),
        Instruction::StsLMacL(x) => reg_ok(x) && can_write32(m, (w32(c.reg(operand_value(x) as int) - 4)) as int),
        Instruction::StsLPr(x) => reg_ok(x) && can_write32(m, (w32(c.reg(operand_value(x) as int) - 4)) as int),
        Instruction::FMovStoreS4(x, y) => reg_ok(x) && reg_ok(y) && can_write32(m, (w32(c.reg(operand_value(x) as int) - 4)) as int),
        Instruction::MovDataSignBLoad(x, y) => reg_ok(x) && reg_ok(y) && can_read16(m, (c.reg(operand_value(y) as int)) as int),
        Instruction::MovDataSignWLoad(x, y) => reg_ok(x) && reg_ok(y) && can_read16(m, (c.reg(operand_value(y) as int)) as int),
        Instruction::MovDataSignLLoad(x, y) => reg_ok(x) && reg_ok(y) && can_read32(m, (c.reg(operand_value(y) as int)) as int),
        Instruction::MovDataSignBLoad1(x, y) => reg_ok(x) && reg_ok(y) && can_read16(m, (c.reg(operand_value(y) as int)) as int),
        Instruction::MovDataSignWLoad2(x, y) => reg_ok(x) && reg_ok(y) && can_read16(m, (c.reg(operand_value(y) as int)) as int),
        Instruction::MovDataSignLLoad4(x, y) => reg_ok(x) && reg_ok(y) && can_read32(m, (c.reg(operand_value(y) as int)) as int),
        Instruction::MovDataLoadR0B(x, y) => reg_ok(x) && reg_ok(y) && can_read16(m, (w32(c.reg(operand_value(y) as int) + c.reg(0))) as int),
        Instruction::MovDataLoadR0W(x, y) => reg_ok(x) && reg_ok(y) && can_read16(m, (w32(c.reg(operand_value(y) as int) + c.reg(0))) as int),
        Instruction::MovDataLoadR0L(x, y) => reg_ok(x) && reg_ok(y) && can_read32(m, (w32(c.reg(operand_value(y) as int) + c.reg(0))) as int),
        Instruction::MovConstantLoadW(x, y) => reg_ok(x) && y is DisplacementOperand && can_read16(m, (w32(c.pc + 4 + 2 * operand_value(y))) as int),
        Instruction::MovConstantLoadL(x, y) => reg_ok(x) && y is DisplacementOperand && can_read32(m, (w32((c.pc & 0xFFFF_FFFCu32) + 4 + 4 * operand_value(y))) as int),
        Instruction::MovStructLoadB(x, y) => reg_ok(x) && y is DisplacementOperand && can_read16(m, (w32(c.reg(operand_value(x) as int) + operand_value(y))) as int),
        Instruction::MovStructLoadW(x, y) => reg_ok(x) && y is DisplacementOperand && can_read16(m, (w32(c.reg(operand_value(x) as int) + 2 * operand_value(y))) as int),
        Instruction::MovStructLoadL(x, y) => reg_ok(x) && y is ImmediateOperand && can_read32(m, (w32(c.reg((operand_value(y) >> 4u8) as int) + 4 * (operand_value(y) & 0xFu8))) as int),
        Instruction::MovGlobalLoadB(x) => x is DisplacementOperand && can_read16(m, (w32(c.gbr + operand_value(x))) as int),
        Instruction::MovGlobalLoadW(x) => x is DisplacementOperand && can_read16(m, (w32(c.gbr + 2 * operand_value(x))) as int),
        Instruction::MovGlobalLoadL(x) => x is DisplacementOperand && can_read32(m, (w32(c.gbr + 4 * operand_value(x))) as int),
        Instruction::LdcLSr(x) => reg_ok(x) && can_read32(m, (c.reg(operand_value(x) as int)) as int),
        Instruction::LdcLGbr(x) => reg_ok(x) && can_read32(m, (c.reg(operand_value(x) as int)) as int),
        Instruction::LdcLVbr(x) => reg_ok(x) && can_read32(m, (c.reg(operand_value(x) as int)) as int),
        Instruction::LdcLSsr(x) => reg_ok(x) && can_read32(m, (c.reg(operand_value(x) as int)) as int),
        Instruction::LdcLSpc(x) => reg_ok(x) && can_read32(m, (c.reg(operand_value(x) as int)) as int),
        Instruction::LdsLMacl(x) => reg_ok(x) && can_read32(m, (c.reg(operand_value(x) as int)) as int),
        Instruction::LdsLMach(x) => reg_ok(x) && can_read32(m, (c.reg(operand_value(x) as int)) as int),
        Instruction::LdsLPr(x) => reg_ok(x) && can_read32(m, (c.reg(operand_value(x) as int)) as int),
        Instruction::LdsFpscrL(x) => reg_ok(x) && can_read32(m, (c.reg(operand_value(x) as int)) as int),
        Instruction::LdsFpulL(x) => reg_ok(x) && can_read32(m, (c.reg(operand_value(x) as int)) as int),
        Instruction::FMovLoadS4(x, y) => reg_ok(x) && reg_ok(y) && can_read32(m, (c.reg(operand_value(y) as int)) as int),
        Instruction::AndB(x) => x is ImmediateOperand && can_rw8(m, (w32(c.gbr + c.reg(0))) as int),
        Instruction::OrB(x) => x is ImmediateOperand && can_rw8(m, (w32(c.gbr + c.reg(0))) as int),
        Instruction::XorB(x) => x is ImmediateOperand && can_rw8(m, (w32(c.gbr + c.reg(0))) as int),
        Instruction::TstB(x) => x is ImmediateOperand && can_read16(m, (w32(c.gbr + c.reg(0))) as int),
        Instruction::Tas(x) => reg_ok(x) && can_rw8(m, (c.reg(operand_value(x) as int)) as int),
        Instruction::FMovLoadD8(x, y) => x is RegisterOperand && operand_value(x) < 15 && reg_ok(y)
                    && can_read32(m, (c.reg(operand_value(y) as int)) as int) && can_read32(
                    m,
                    (w32(c.reg(operand_value(y) as int) + 4)) as int,
                ),
        Instruction::FMovStoreD8(x, y) => reg_ok(x) && y is RegisterOperand && operand_value(y) < 15
                    && can_write32(m, (w32(c.reg(operand_value(x) as int) - 8)) as int) && can_write32(
                    m,
                    (w32(c.reg(operand_value(x) as int) - 4)) as int,
                ),
        Instruction::FMov(x, y) => reg_ok(x) && reg_ok(y),
        Instruction::FAdd(x, y) => reg_ok(x) && reg_ok(y),
        Instruction::MacL(x, y) => reg_ok(x) && reg_ok(y) && can_read32(m, (c.reg(operand_value(x) as int)) as int),
        Instruction::Bf(x) => x is DisplacementOperand,
        Instruction::Bt(x) => x is DisplacementOperand,
        Instruction::Bfs(x) => x is DisplacementOperand && (depth == 0 ==> step_pre(CpuView { pc: w32(c.pc + 2), ..c }, m, 1)),
        Instruction::Bts(x) => x is DisplacementOperand && (depth == 0 ==> step_pre(CpuView { pc: w32(c.pc + 2), ..c }, m, 1)),
        Instruction::Bra(x, y) => x is RegisterOperand && y is DisplacementOperand && (depth == 0 ==> step_pre(CpuView { pc: w32(c.pc + 2), ..c }, m, 1)),
        Instruction::Braf(x) => reg_ok(x) && (depth == 0 ==> step_pre(CpuView { pc: w32(c.pc + 2), ..c }, m, 1)),
        Instruction::Bsr(x, y) => x is RegisterOperand && y is DisplacementOperand && (depth == 0 ==> step_pre(CpuView { pc: w32(c.pc + 2), pr: w32(c.pc + 4), ..c }, m, 1)),
        Instruction::Bsrf(x) => reg_ok(x) && (depth == 0 ==> step_pre(CpuView { pc: w32(c.pc + 2), pr: w32(c.pc + 4), ..c }, m, 1)),
        Instruction::Jmp(x) => reg_ok(x) && (depth == 0 ==> step_pre(CpuView { pc: w32(c.pc + 2), ..c }, m, 1)),
        Instruction::Jsr(x) => reg_ok(x) && (depth == 0 ==> step_pre(CpuView { pc: w32(c.pc + 2), pr: w32(c.pc + 4), ..c }, m, 1)),
        Instruction::Rts => true && (depth == 0 ==> step_pre(CpuView { pc: w32(c.pc + 2), ..c }, m, 1)),
        _ => false,
    }
}

/// What executing an instruction does: a relation between the machine
/// state before and after. Reads answered by a peripheral are related
/// existentially; everything else is pinned down exactly.
pub open spec fn exec_post(i: Instruction, c0: CpuView, m0: MemView, c1: CpuView, m1: MemView, depth: int) -> bool
    decreases dclamp(depth), 0int,
{
    frame(c0, m0, c1, m1) && match i {
        Instruction::Add(x, y) => {
                    let n = operand_value(x) as int;
                    let m = operand_value(y) as int;
                    m1.cells == m0.cells && c1 == c0.with_reg(n, w32(c0.reg(n) + c0.reg(m)))
                },
        Instruction::Sub(x, y) => {
                    let n = operand_value(x) as int;
                    let m = operand_value(y) as int;
                    m1.cells == m0.cells && c1 == c0.with_reg(n, w32(c0.reg(n) - c0.reg(m)))
                },
        Instruction::And(x, y) => {
                    let n = operand_value(x) as int;
                    let m = operand_value(y) as int;
                    m1.cells == m0.cells && c1 == c0.with_reg(n, (c0.reg(n) & c0.reg(m)))
                },
        Instruction::Or(x, y) => {
                    let n = operand_value(x) as int;
                    let m = operand_value(y) as int;
                    m1.cells == m0.cells && c1 == c0.with_reg(n, (c0.reg(n) | c0.reg(m)))
                },
        Instruction::Xor(x, y) => {
                    let n = operand_value(x) as int;
                    let m = operand_value(y) as int;
                    m1.cells == m0.cells && c1 == c0.with_reg(n, (c0.reg(n) ^ c0.reg(m)))
                },
        Instruction::MovData(x, y) => {
                    let n = operand_value(x) as int;
                    let m = operand_value(y) as int;
                    m1.cells == m0.cells && c1 == c0.with_reg(n, c0.reg(m))
                },
        Instruction::ExtUB(x, y) => {
                    let n = operand_value(x) as int;
                    let m = operand_value(y) as int;
                    m1.cells == m0.cells && c1 == c0.with_reg(n, (c0.reg(m) & 0xFFu32))
                },
        Instruction::ExtUW(x, y) => {
                    let n = operand_value(x) as int;
                    let m = operand_value(y) as int;
                    m1.cells == m0.cells && c1 == c0.with_reg(n, (c0.reg(m) & 0xFFFFu32))
                },
        Instruction::ExtSB(x, y) => {
                    let n = operand_value(x) as int;
                    let m = operand_value(y) as int;
                    m1.cells == m0.cells && c1 == c0.with_reg(n, sx8((c0.reg(m) & 0xFFu32) as u8))
                },
        Instruction::ExtSW(x, y) => {
                    let n = operand_value(x) as int;
                    let m = operand_value(y) as int;
                    m1.cells == m0.cells && c1 == c0.with_reg(n, sx16((c0.reg(m) & 0xFFFFu32) as u16))
                },
        Instruction::SwapB(x, y) => {
                    let n = operand_value(x) as int;
                    let m = operand_value(y) as int;
                    m1.cells == m0.cells && c1 == c0.with_reg(n, (((c0.reg(m) & 0xFF00u32) >> 8u32) | (c0.reg(m) & 0xFFFF_0000u32) | ((c0.reg(m) & 0xFFu32) << 8u32)))
                },
        Instruction::SwapW(x, y) => {
                    let n = operand_value(x) as int;
                    let m = operand_value(y) as int;
                    m1.cells == m0.cells && c1 == c0.with_reg(n, ((c0.reg(m) << 16u32) | ((c0.reg(m) >> 16u32) & 0xFFFFu32)))
                },
        Instruction::CmpEq(x, y) => {
                    let n = operand_value(x) as int;
                    let m = operand_value(y) as int;
                    m1.cells == m0.cells && c1 == c0.with_t((c0.reg(n) == c0.reg(m)))
                },
        Instruction::CmpHs(x, y) => {
                    let n = operand_value(x) as int;
                    let m = operand_value(y) as int;
                    m1.cells == m0.cells && c1 == c0.with_t((c0.reg(n) >= c0.reg(m)))
                },
        Instruction::CmpGe(x, y) => {
                    let n = operand_value(x) as int;
                    let m = operand_value(y) as int;
                    m1.cells == m0.cells && c1 == c0.with_t((sgn32(c0.reg(n)) >= sgn32(c0.reg(m))))
                },
        Instruction::CmpHi(x, y) => {
                    let n = operand_value(x) as int;
                    let m = operand_value(y) as int;
                    m1.cells == m0.cells && c1 == c0.with_t((c0.reg(n) > c0.reg(m)))
                },
        Instruction::CmpGt(x, y) => {
                    let n = operand_value(x) as int;
                    let m = operand_value(y) as int;
                    m1.cells == m0.cells && c1 == c0.with_t((sgn32(c0.reg(n)) > sgn32(c0.reg(m))))
                },
        Instruction::Tst(x, y) => {
                    let n = operand_value(x) as int;
                    let m = operand_value(y) as int;
                    m1.cells == m0.cells && c1 == c0.with_t(((c0.reg(n) & c0.reg(m)) == 0))
                },
        Instruction::CmpStr(x, y) => {
                    let n = operand_value(x) as int;
                    let m = operand_value(y) as int;
                    m1.cells == m0.cells && c1 == c0.with_t((((c0.reg(n) ^ c0.reg(m)) & 0xFF00_0000u32) == 0 || ((c0.reg(n) ^ c0.reg(m)) & 0x00FF_0000u32) == 0 || ((c0.reg(n) ^ c0.reg(m)) & 0xFF00u32) == 0 || ((c0.reg(n) ^ c0.reg(m)) & 0xFFu32) == 0))
                },
        Instruction::CmpPz(x) => {
                    let n = operand_value(x) as int;
                    m1.cells == m0.cells && c1 == c0.with_t((sgn32(c0.reg(n)) >= 0))
                },
        Instruction::CmpPl(x) => {
                    let n = operand_value(x) as int;
                    m1.cells == m0.cells && c1 == c0.with_t((sgn32(c0.reg(n)) > 0))
                },
        Instruction::Shll(x) => {
                    let n = operand_value(x) as int;
                    m1.cells == m0.cells && c1 == c0.with_t((c0.reg(n) & 0x8000_0000u32 != 0)).with_reg(n, (c0.reg(n) << 1u32))
                },
        Instruction::Shll2(x) => {
                    let n = operand_value(x) as int;
                    m1.cells == m0.cells && c1 == c0.with_reg(n, (c0.reg(n) << 2u32))
                },
        Instruction::Shll8(x) => {
                    let n = operand_value(x) as int;
                    m1.cells == m0.cells && c1 == c0.with_reg(n, (c0.reg(n) << 8u32))
                },
        Instruction::Shll16(x) => {
                    let n = operand_value(x) as int;
                    m1.cells == m0.cells && c1 == c0.with_reg(n, (c0.reg(n) << 16u32))
                },
        Instruction::Shlr(x) => {
                    let n = operand_value(x) as int;
                    m1.cells == m0.cells && c1 == c0.with_t((c0.reg(n) & 0x1u32 != 0)).with_reg(n, ((c0.reg(n) >> 1u32) & 0x7FFF_FFFFu32))
                },
        Instruction::Shlr2(x) => {
                    let n = operand_value(x) as int;
                    m1.cells == m0.cells && c1 == c0.with_reg(n, ((c0.reg(n) >> 2u32) & 0x3FFF_FFFFu32))
                },
        Instruction::Shlr8(x) => {
                    let n = operand_value(x) as int;
                    m1.cells == m0.cells && c1 == c0.with_reg(n, ((c0.reg(n) >> 8u32) & 0x00FF_FFFFu32))
                },
        Instruction::Shlr16(x) => {
                    let n = operand_value(x) as int;
                    m1.cells == m0.cells && c1 == c0.with_reg(n, ((c0.reg(n) >> 16u32) & 0xFFFFu32))
                },
        Instruction::Shar(x) => {
                    let n = operand_value(x) as int;
                    m1.cells == m0.cells && c1 == c0.with_t((c0.reg(n) & 0x1u32 != 0)).with_reg(n, (if c0.reg(n) & 0x8000_0000u32 == 0 { (c0.reg(n) >> 1u32) & 0x7FFF_FFFFu32 } else { (c0.reg(n) >> 1u32) | 0x8000_0000u32 }))
                },
        Instruction::Rotr(x) => {
                    let n = operand_value(x) as int;
                    m1.cells == m0.cells && c1 == c0.with_t((c0.reg(n) & 0x1u32 != 0)).with_reg(n, ((c0.reg(n) >> 1u32) | ((c0.reg(n) & 0x1u32) << 31u32)))
                },
        Instruction::AndImm(x) => {
                    m1.cells == m0.cells && c1 == c0.with_reg(0, (c0.reg(0) & (operand_value(x) as u32)))
                },
        Instruction::OrImm(x) => {
                    m1.cells == m0.cells && c1 == c0.with_reg(0, (c0.reg(0) | (operand_value(x) as u32)))
                },
        Instruction::XorImm(x) => {
                    m1.cells == m0.cells && c1 == c0.with_reg(0, (c0.reg(0) ^ (operand_value(x) as u32)))
                },
        Instruction::Pref(x) => m1.cells == m0.cells && c1 == c0,
        Instruction::Nop => m1.cells == m0.cells && c1 == c0,
        Instruction::Unknown => m1.cells == m0.cells && c1 == c0,
        Instruction::Clrs => m1.cells == m0.cells && c1 == c0.with_s(false),
        Instruction::Sets => m1.cells == m0.cells && c1 == c0.with_s(true),
        Instruction::Clrt => m1.cells == m0.cells && c1 == c0.with_t(false),
        Instruction::Sett => m1.cells == m0.cells && c1 == c0.with_t(true),
        Instruction::Frchg => m1.cells == m0.cells && c1 == (CpuView { fpscr: c0.fpscr ^ 0x0020_0000u32, ..c0 }),
        Instruction::LdcSr(x) => m1.cells == m0.cells && c1 == (CpuView { sr: (c0.reg(operand_value(x) as int) & 0x7000_83F3u32), ..c0 }),
        Instruction::LdcDbr(x) => m1.cells == m0.cells && c1 == (CpuView { dbr: c0.reg(operand_value(x) as int), ..c0 }),
        Instruction::LdcGbr(x) => m1.cells == m0.cells && c1 == (CpuView { gbr: c0.reg(operand_value(x) as int), ..c0 }),
        Instruction::LdcVbr(x) => m1.cells == m0.cells && c1 == (CpuView { vbr: c0.reg(operand_value(x) as int), ..c0 }),
        Instruction::LdsPr(x) => m1.cells == m0.cells && c1 == (CpuView { pr: c0.reg(operand_value(x) as int), ..c0 }),
        Instruction::LdsFpscr(x) => m1.cells == m0.cells && c1 == (CpuView { fpscr: (c0.reg(operand_value(x) as int) & 0x003F_FFFFu32), ..c0 }),
        Instruction::StcGbr(x) => m1.cells == m0.cells && c1 == c0.with_reg(operand_value(x) as int, c0.gbr),
        Instruction::StcDbr(x) => m1.cells == m0.cells && c1 == c0.with_reg(operand_value(x) as int, c0.dbr),
        Instruction::StsMacH(x) => m1.cells == m0.cells && c1 == c0.with_reg(operand_value(x) as int, c0.mach),
        Instruction::StsMacL(x) => m1.cells == m0.cells && c1 == c0.with_reg(operand_value(x) as int, c0.macl),
        Instruction::StcBanked(x, b) => m1.cells == m0.cells && c1 == c0.with_reg(operand_value(x) as int, c0.alt_reg(b as int)),
        Instruction::MovT(x) => m1.cells == m0.cells && c1 == c0.with_reg(operand_value(x) as int, c0.t01()),
        Instruction::MulL(x, y) => m1.cells == m0.cells && c1 == (CpuView { macl: w32(c0.reg(operand_value(x) as int) * c0.reg(operand_value(y) as int)), ..c0 }),
        Instruction::MulSW(x, y) => m1.cells == m0.cells && c1 == (CpuView { macl: w32(c0.reg(operand_value(x) as int) * c0.reg(operand_value(y) as int)), ..c0 }),
        Instruction::MulUW(x, y) => m1.cells == m0.cells && c1 == (CpuView { macl: w32((c0.reg(operand_value(x) as int) & 0xFFFFu32) * (c0.reg(operand_value(y) as int) & 0xFFFFu32)), ..c0 }),
        Instruction::AddConstant(x, y) => {
                    let n = operand_value(x) as int;
                    m1.cells == m0.cells && c1 == c0.with_reg(n, w32(c0.reg(n) + sx8(operand_value(y))))
                },
        Instruction::AddWithCarry(x, y) => {
                    let n = operand_value(x) as int;
                    let m = operand_value(y) as int;
                    m1.cells == m0.cells && c1 == c0.with_reg(
                        n,
                        w32(c0.reg(n) + c0.reg(m) + c0.t01()),
                    ).with_t(c0.reg(n) + c0.reg(m) + c0.t01() > 0xFFFF_FFFFu32)
                },
        Instruction::AddOverflow(x, y) => {
                    let n = operand_value(x) as int;
                    let m = operand_value(y) as int;
                    let res = w32(c0.reg(n) + c0.reg(m));
                    m1.cells == m0.cells && c1 == c0.with_reg(n, res).with_t(
                        ((c0.reg(n) < 0x8000_0000u32) == (c0.reg(m) < 0x8000_0000u32)) && ((res
                            < 0x8000_0000u32) != (c0.reg(n) < 0x8000_0000u32)),
                    )
                },
        Instruction::Dt(x) => {
                    let n = operand_value(x) as int;
                    m1.cells == m0.cells && c1 == c0.with_reg(n, w32(c0.reg(n) - 1)).with_t(
                        w32(c0.reg(n) - 1) == 0u32,
                    )
                },
        Instruction::CmpEqImm(x) => m1.cells == m0.cells && c1 == c0.with_t(c0.reg(0) == sx8(operand_value(x))),
        Instruction::TstImm(x) => m1.cells == m0.cells && c1 == c0.with_t((c0.reg(0) & (operand_value(x) as u32)) == 0u32),
        Instruction::MovConstantSign(x, y) => m1.cells == m0.cells && c1 == c0.with_reg(operand_value(x) as int, sx8(operand_value(y))),
        Instruction::MovA(x) => m1.cells == m0.cells && c1 == c0.with_reg(0, w32((c0.pc & 0xFFFF_FFFCu32) + 4 + 4 * operand_value(x))),
        Instruction::MovDataBStore(x, y) => {
                    c1 == c0 && wrote8(m0, m1, (c0.reg(operand_value(x) as int)) as int, ((c0.reg(operand_value(y) as int)) as u8))
                },
        Instruction::MovDataWStore(x, y) => {
                    c1 == c0 && wrote16(m0, m1, (c0.reg(operand_value(x) as int)) as int, ((c0.reg(operand_value(y) as int)) as u16))
                },
        Instruction::MovDataLStore(x, y) => {
                    c1 == c0 && wrote32(m0, m1, (c0.reg(operand_value(x) as int)) as int, c0.reg(operand_value(y) as int))
                },
        Instruction::MovDataStoreR0B(x, y) => {
                    c1 == c0 && wrote8(m0, m1, (w32(c0.reg(operand_value(x) as int) + c0.reg(0))) as int, ((c0.reg(operand_value(y) as int)) as u8))
                },
        Instruction::MovDataStoreR0W(x, y) => {
                    c1 == c0 && wrote16(m0, m1, (w32(c0.reg(operand_value(x) as int) + c0.reg(0))) as int, ((c0.reg(operand_value(y) as int)) as u16))
                },
        Instruction::MovDataStoreR0L(x, y) => {
                    c1 == c0 && wrote32(m0, m1, (w32(c0.reg(operand_value(x) as int) + c0.reg(0))) as int, c0.reg(operand_value(y) as int))
                },
        Instruction::MovStructStoreB(x, y) => {
                    c1 == c0 && wrote8(m0, m1, (w32(c0.reg(operand_value(x) as int) + operand_value(y))) as int, ((c0.reg(0)) as u8))
                },
        Instruction::MovStructStoreW(x, y) => {
                    c1 == c0 && wrote16(m0, m1, (w32(c0.reg(operand_value(x) as int) + 2 * operand_value(y))) as int, ((c0.reg(0)) as u16))
                },
        Instruction::MovStructStoreL(x, y) => {
                    c1 == c0 && wrote32(m0, m1, (w32(c0.reg(operand_value(x) as int) + 4 * (operand_value(y) & 0xFu8))) as int, c0.reg((operand_value(y) >> 4u8) as int))
                },
        Instruction::MovGlobalStoreB(x) => {
                    c1 == c0 && wrote8(m0, m1, (w32(c0.gbr + operand_value(x))) as int, ((c0.reg(0)) as u8))
                },
        Instruction::MovGlobalStoreW(x) => {
                    c1 == c0 && wrote16(m0, m1, (w32(c0.gbr + 2 * operand_value(x))) as int, ((c0.reg(0)) as u16))
                },
        Instruction::MovGlobalStoreL(x) => {
                    c1 == c0 && wrote32(m0, m1, (w32(c0.gbr + 4 * operand_value(x))) as int, c0.reg(0))
                },
        Instruction::MovCA(x) => {
                    c1 == c0 && wrote32(m0, m1, (c0.reg(operand_value(x) as int)) as int, c0.reg(0))
                },
        Instruction::MovDataBStore1(x, y) => {
                    let cmid = c0.with_reg(operand_value(x) as int, w32(c0.reg(operand_value(x) as int) - 1));
                    c1 == cmid && wrote8(m0, m1, (w32(c0.reg(operand_value(x) as int) - 1)) as int, ((cmid.reg(operand_value(y) as int)) as u8))
                },
        Instruction::MovDataWStore2(x, y) => {
                    let cmid = c0.with_reg(operand_value(x) as int, w32(c0.reg(operand_value(x) as int) - 2));
                    c1 == cmid && wrote16(m0, m1, (w32(c0.reg(operand_value(x) as int) - 2)) as int, ((cmid.reg(operand_value(y) as int)) as u16))
                },
        Instruction::MovDataLStore4(x, y) => {
                    let cmid = c0.with_reg(operand_value(x) as int, w32(c0.reg(operand_value(x) as int) - 4));
                    c1 == cmid && wrote32(m0, m1, (w32(c0.reg(operand_value(x) as int) - 4)) as int, cmid.reg(operand_value(y) as int))
                },
        Instruction::StsLMacH(x) => {
                    let cmid = c0.with_reg(operand_value(x) as int, w32(c0.reg(operand_value(x) as int) - 4));
                    c1 == cmid && wrote32(m0, m1, (w32(c0.reg(operand_value(x) as int) - 4)) as int, cmid.mach)
                },
        Instruction::StsLMacL(x) => {
                    let cmid = c0.with_reg(operand_value(x) as int, w32(c0.reg(operand_value(x) as int) - 4));
                    c1 == cmid && wrote32(m0, m1, (w32(c0.reg(operand_value(x) as int) - 4)) as int, cmid.macl)
                },
        Instruction::StsLPr(x) => {
                    let cmid = c0.with_reg(operand_value(x) as int, w32(c0.reg(operand_value(x) as int) - 4));
                    c1 == cmid && wrote32(m0, m1, (w32(c0.reg(operand_value(x) as int) - 4)) as int, cmid.pr)
                },
        Instruction::FMovStoreS4(x, y) => {
                    let cmid = c0.with_reg(operand_value(x) as int, w32(c0.reg(operand_value(x) as int) - 4));
                    c1 == cmid && wrote32(m0, m1, (w32(c0.reg(operand_value(x) as int) - 4)) as int, cmid.freg(operand_value(y) as int))
                },
        Instruction::MovDataSignBLoad(x, y) => {
                    m1.cells == m0.cells && exists|v: u8|
                        #[trigger] read8_rel(m0, (c0.reg(operand_value(y) as int)) as int, v) && c1 == c0.with_reg(operand_value(x) as int, sx8(v))
                },
        Instruction::MovDataSignWLoad(x, y) => {
                    m1.cells == m0.cells && exists|v: u16|
                        #[trigger] read16_rel(m0, (c0.reg(operand_value(y) as int)) as int, v) && c1 == c0.with_reg(operand_value(x) as int, sx16(v))
                },
        Instruction::MovDataSignLLoad(x, y) => {
                    m1.cells == m0.cells && exists|v: u32|
                        #[trigger] read32_rel(m0, (c0.reg(operand_value(y) as int)) as int, v) && c1 == c0.with_reg(operand_value(x) as int, v)
                },
        Instruction::MovDataSignBLoad1(x, y) => {
                    m1.cells == m0.cells && exists|v: u8|
                        #[trigger] read8_rel(m0, (c0.reg(operand_value(y) as int)) as int, v) && c1 == (if x == y {
                            c0.with_reg(operand_value(x) as int, sx8(v))
                        } else {
                            c0.with_reg(operand_value(x) as int, sx8(v)).with_reg(
                                operand_value(y) as int,
                                w32(c0.reg(operand_value(y) as int) + 1),
                            )
                        })
                },
        Instruction::MovDataSignWLoad2(x, y) => {
                    m1.cells == m0.cells && exists|v: u16|
                        #[trigger] read16_rel(m0, (c0.reg(operand_value(y) as int)) as int, v) && c1 == (if x == y {
                            c0.with_reg(operand_value(x) as int, sx16(v))
                        } else {
                            c0.with_reg(operand_value(x) as int, sx16(v)).with_reg(
                                operand_value(y) as int,
                                w32(c0.reg(operand_value(y) as int) + 2),
                            )
                        })
                },
        Instruction::MovDataSignLLoad4(x, y) => {
                    m1.cells == m0.cells && exists|v: u32|
                        #[trigger] read32_rel(m0, (c0.reg(operand_value(y) as int)) as int, v) && c1 == (if x == y {
                            c0.with_reg(operand_value(x) as int, v)
                        } else {
                            c0.with_reg(operand_value(x) as int, v).with_reg(
                                operand_value(y) as int,
                                w32(c0.reg(operand_value(y) as int) + 4),
                            )
                        })
                },
        Instruction::MovDataLoadR0B(x, y) => {
                    m1.cells == m0.cells && exists|v: u8|
                        #[trigger] read8_rel(m0, (w32(c0.reg(operand_value(y) as int) + c0.reg(0))) as int, v) && c1 == c0.with_reg(operand_value(x) as int, sx8(v))
                },
        Instruction::MovDataLoadR0W(x, y) => {
                    m1.cells == m0.cells && exists|v: u16|
                        #[trigger] read16_rel(m0, (w32(c0.reg(operand_value(y) as int) + c0.reg(0))) as int, v) && c1 == c0.with_reg(operand_value(x) as int, sx16(v))
                },
        Instruction::MovDataLoadR0L(x, y) => {
                    m1.cells == m0.cells && exists|v: u32|
                        #[trigger] read32_rel(m0, (w32(c0.reg(operand_value(y) as int) + c0.reg(0))) as int, v) && c1 == c0.with_reg(operand_value(x) as int, v)
                },
        Instruction::MovConstantLoadW(x, y) => {
                    m1.cells == m0.cells && exists|v: u16|
                        #[trigger] read16_rel(m0, (w32(c0.pc + 4 + 2 * operand_value(y))) as int, v) && c1 == c0.with_reg(operand_value(x) as int, sx16(v))
                },
        Instruction::MovConstantLoadL(x, y) => {
                    m1.cells == m0.cells && exists|v: u32|
                        #[trigger] read32_rel(m0, (w32((c0.pc & 0xFFFF_FFFCu32) + 4 + 4 * operand_value(y))) as int, v) && c1 == c0.with_reg(operand_value(x) as int, v)
                },
        Instruction::MovStructLoadB(x, y) => {
                    m1.cells == m0.cells && exists|v: u8|
                        #[trigger] read8_rel(m0, (w32(c0.reg(operand_value(x) as int) + operand_value(y))) as int, v) && c1 == c0.with_reg(0, sx8(v))
                },
        Instruction::MovStructLoadW(x, y) => {
                    m1.cells == m0.cells && exists|v: u16|
                        #[trigger] read16_rel(m0, (w32(c0.reg(operand_value(x) as int) + 2 * operand_value(y))) as int, v) && c1 == c0.with_reg(0, sx16(v))
                },
        Instruction::MovStructLoadL(x, y) => {
                    m1.cells == m0.cells && exists|v: u32|
                        #[trigger] read32_rel(m0, (w32(c0.reg((operand_value(y) >> 4u8) as int) + 4 * (operand_value(y) & 0xFu8))) as int, v) && c1 == c0.with_reg(operand_value(x) as int, v)
                },
        Instruction::MovGlobalLoadB(x) => {
                    m1.cells == m0.cells && exists|v: u8|
                        #[trigger] read8_rel(m0, (w32(c0.gbr + operand_value(x))) as int, v) && c1 == c0.with_reg(0, sx8(v))
                },
        Instruction::MovGlobalLoadW(x) => {
                    m1.cells == m0.cells && exists|v: u16|
                        #[trigger] read16_rel(m0, (w32(c0.gbr + 2 * operand_value(x))) as int, v) && c1 == c0.with_reg(0, sx16(v))
                },
        Instruction::MovGlobalLoadL(x) => {
                    m1.cells == m0.cells && exists|v: u32|
                        #[trigger] read32_rel(m0, (w32(c0.gbr + 4 * operand_value(x))) as int, v) && c1 == c0.with_reg(0, v)
                },
        Instruction::LdcLSr(x) => {
                    m1.cells == m0.cells && exists|v: u32|
                        #[trigger] read32_rel(m0, (c0.reg(operand_value(x) as int)) as int, v) && c1 == (CpuView { sr: (v & 0x7000_83F3u32) as u32, ..c0.with_reg(operand_value(x) as int, w32(c0.reg(operand_value(x) as int) + 4)) })
                },
        Instruction::LdcLGbr(x) => {
                    m1.cells == m0.cells && exists|v: u32|
                        #[trigger] read32_rel(m0, (c0.reg(operand_value(x) as int)) as int, v) && c1 == (CpuView { gbr: v, ..c0.with_reg(operand_value(x) as int, w32(c0.reg(operand_value(x) as int) + 4)) })
                },
        Instruction::LdcLVbr(x) => {
                    m1.cells == m0.cells && exists|v: u32|
                        #[trigger] read32_rel(m0, (c0.reg(operand_value(x) as int)) as int, v) && c1 == (CpuView { vbr: v, ..c0.with_reg(operand_value(x) as int, w32(c0.reg(operand_value(x) as int) + 4)) })
                },
        Instruction::LdcLSsr(x) => {
                    m1.cells == m0.cells && exists|v: u32|
                        #[trigger] read32_rel(m0, (c0.reg(operand_value(x) as int)) as int, v) && c1 == (CpuView { ssr: v, ..c0.with_reg(operand_value(x) as int, w32(c0.reg(operand_value(x) as int) + 4)) })
                },
        Instruction::LdcLSpc(x) => {
                    m1.cells == m0.cells && exists|v: u32|
                        #[trigger] read32_rel(m0, (c0.reg(operand_value(x) as int)) as int, v) && c1 == (CpuView { spc: v, ..c0.with_reg(operand_value(x) as int, w32(c0.reg(operand_value(x) as int) + 4)) })
                },
        Instruction::LdsLMacl(x) => {
                    m1.cells == m0.cells && exists|v: u32|
                        #[trigger] read32_rel(m0, (c0.reg(operand_value(x) as int)) as int, v) && c1 == (CpuView { macl: v, ..c0.with_reg(operand_value(x) as int, w32(c0.reg(operand_value(x) as int) + 4)) })
                },
        Instruction::LdsLMach(x) => {
                    m1.cells == m0.cells && exists|v: u32|
                        #[trigger] read32_rel(m0, (c0.reg(operand_value(x) as int)) as int, v) && c1 == (CpuView { mach: v, ..c0.with_reg(operand_value(x) as int, w32(c0.reg(operand_value(x) as int) + 4)) })
                },
        Instruction::LdsLPr(x) => {
                    m1.cells == m0.cells && exists|v: u32|
                        #[trigger] read32_rel(m0, (c0.reg(operand_value(x) as int)) as int, v) && c1 == (CpuView { pr: v, ..c0.with_reg(operand_value(x) as int, w32(c0.reg(operand_value(x) as int) + 4)) })
                },
        Instruction::LdsFpscrL(x) => {
                    m1.cells == m0.cells && exists|v: u32|
                        #[trigger] read32_rel(m0, (c0.reg(operand_value(x) as int)) as int, v) && c1 == (CpuView { fpscr: v, ..c0.with_reg(operand_value(x) as int, w32(c0.reg(operand_value(x) as int) + 4)) })
                },
        Instruction::LdsFpulL(x) => {
                    m1.cells == m0.cells && exists|v: u32|
                        #[trigger] read32_rel(m0, (c0.reg(operand_value(x) as int)) as int, v) && c1 == (CpuView { fpul: v, ..c0.with_reg(operand_value(x) as int, w32(c0.reg(operand_value(x) as int) + 4)) })
                },
        Instruction::FMovLoadS4(x, y) => {
                    m1.cells == m0.cells && exists|v: u32|
                        #[trigger] read32_rel(m0, (c0.reg(operand_value(y) as int)) as int, v) && c1 == c0.with_freg(operand_value(x) as int, v).with_reg(operand_value(y) as int, w32(c0.reg(operand_value(y) as int) + 4))
                },
        Instruction::AndB(x) => {
                    c1 == c0 && exists|b: u8|
                        #[trigger] read8_rel(m0, (w32(c0.gbr + c0.reg(0))) as int, b) && wrote8(
                            m0,
                            m1,
                            (w32(c0.gbr + c0.reg(0))) as int,
                            b & operand_value(x),
                        )
                },
        Instruction::OrB(x) => {
                    c1 == c0 && exists|b: u8|
                        #[trigger] read8_rel(m0, (w32(c0.gbr + c0.reg(0))) as int, b) && wrote8(
                            m0,
                            m1,
                            (w32(c0.gbr + c0.reg(0))) as int,
                            b | operand_value(x),
                        )
                },
        Instruction::XorB(x) => {
                    c1 == c0 && exists|b: u8|
                        #[trigger] read8_rel(m0, (w32(c0.gbr + c0.reg(0))) as int, b) && wrote8(
                            m0,
                            m1,
                            (w32(c0.gbr + c0.reg(0))) as int,
                            b ^ operand_value(x),
                        )
                },
        Instruction::TstB(x) => {
                    m1.cells == m0.cells && exists|b: u8|
                        #[trigger] read8_rel(m0, (w32(c0.gbr + c0.reg(0))) as int, b) && c1 == c0.with_t(
                            (b & operand_value(x)) == 0u8,
                        )
                },
        Instruction::Tas(x) => {
                    let a = c0.reg(operand_value(x) as int) as int;
                    exists|b: u8|
                        #[trigger] read8_rel(m0, a, b) && wrote8(m0, m1, a, b | 0x80u8) && c1 == c0.with_t(
                            b == 0u8,
                        )
                },
        Instruction::FMovLoadD8(x, y) => {
                    let n = operand_value(x) as int;
                    let m_ = operand_value(y) as int;
                    m1.cells == m0.cells && exists|h: u32, l: u32|
                        #[trigger] read32_rel(m0, (c0.reg(m_)) as int, h) && #[trigger] read32_rel(
                            m0,
                            (w32(c0.reg(m_) + 4)) as int,
                            l,
                        ) && c1 == c0.with_freg(n + 1, l).with_freg(n, h).with_reg(m_, w32(c0.reg(m_) + 8))
                },
        Instruction::FMovStoreD8(x, y) => {
                    let n = operand_value(x) as int;
                    let s = operand_value(y) as int;
                    let a1 = (w32(c0.reg(n) - 8)) as int;
                    let a2 = (w32(c0.reg(n) - 4)) as int;
                    c1 == c0.with_reg(n, w32(c0.reg(n) - 8)) && wrote32_pair(
                        m0,
                        m1,
                        a1,
                        c0.freg(s),
                        a2,
                        c0.freg(s + 1),
                    )
                },
        Instruction::FMov(x, y) => m1.cells == m0.cells && c1 == c0.with_freg(
                    operand_value(x) as int,
                    c0.freg(operand_value(y) as int),
                ),
        Instruction::FAdd(x, y) => m1.cells == m0.cells && c1 == c0.with_freg(
                    operand_value(x) as int,
                    f32_add_bits(c0.freg(operand_value(x) as int), c0.freg(operand_value(y) as int)),
                ),
        Instruction::MacL(x, y) => {
                    let n = operand_value(x) as int;
                    let m_ = operand_value(y) as int;
                    m1.cells == m0.cells && exists|va: u32, vb: u32|
                        #[trigger] read32_rel(m0, (c0.reg(n)) as int, va) && #[trigger] read32_rel(
                            m0,
                            (c0.reg(n)) as int,
                            vb,
                        ) && c1 == mac_result(c0, n, m_, va, vb)
                },
        Instruction::Bf(x) => m1.cells == m0.cells && c1 == (if !c0.t() {
                    CpuView { pc: w32(c0.pc + 2 + 2 * sx8(operand_value(x))), ..c0 }
                } else {
                    c0
                }),
        Instruction::Bt(x) => m1.cells == m0.cells && c1 == (if c0.t() {
                    CpuView { pc: w32(c0.pc + 2 + 2 * sx8(operand_value(x))), ..c0 }
                } else {
                    c0
                }),
        Instruction::Bfs(x) => {
                    if depth == 0 {
                        exists|cs: CpuView|
                            #[trigger] trig_cpu(cs) && step_post(CpuView { pc: w32(c0.pc + 2), ..c0 }, m0, cs, m1, 1) && c1 == (
                            CpuView { pc: if !c0.t() { w32(c0.pc + 2 + 2 * sx8(operand_value(x))) } else { w32(c0.pc + 2) }, ..cs })
                    } else {
                        m1.cells == m0.cells && c1 == c0
                    }
                },
        Instruction::Bts(x) => {
                    if depth == 0 {
                        exists|cs: CpuView|
                            #[trigger] trig_cpu(cs) && step_post(CpuView { pc: w32(c0.pc + 2), ..c0 }, m0, cs, m1, 1) && c1 == (
                            CpuView { pc: if c0.t() { w32(c0.pc + 2 + 2 * sx8(operand_value(x))) } else { w32(c0.pc + 2) }, ..cs })
                    } else {
                        m1.cells == m0.cells && c1 == c0
                    }
                },
        Instruction::Bra(x, y) => {
                    if depth == 0 {
                        exists|cs: CpuView|
                            #[trigger] trig_cpu(cs) && step_post(CpuView { pc: w32(c0.pc + 2), ..c0 }, m0, cs, m1, 1) && c1 == (
                            CpuView { pc: w32(c0.pc + 2 + 2 * sx12(operand_value(x), operand_value(y))), ..cs })
                    } else {
                        m1.cells == m0.cells && c1 == c0
                    }
                },
        Instruction::Braf(x) => {
                    if depth == 0 {
                        exists|cs: CpuView|
                            #[trigger] trig_cpu(cs) && step_post(CpuView { pc: w32(c0.pc + 2), ..c0 }, m0, cs, m1, 1) && c1 == (
                            CpuView { pc: w32(c0.pc + 2 + c0.reg(operand_value(x) as int)), ..cs })
                    } else {
                        m1.cells == m0.cells && c1 == c0
                    }
                },
        Instruction::Bsr(x, y) => {
                    if depth == 0 {
                        exists|cs: CpuView|
                            #[trigger] trig_cpu(cs) && step_post(CpuView { pc: w32(c0.pc + 2), pr: w32(c0.pc + 4), ..c0 }, m0, cs, m1, 1) && c1 == (
                            CpuView { pc: w32(c0.pc + 2 + 2 * sx12(operand_value(x), operand_value(y))), ..cs })
                    } else {
                        m1.cells == m0.cells && c1 == c0
                    }
                },
        Instruction::Bsrf(x) => {
                    if depth == 0 {
                        exists|cs: CpuView|
                            #[trigger] trig_cpu(cs) && step_post(CpuView { pc: w32(c0.pc + 2), pr: w32(c0.pc + 4), ..c0 }, m0, cs, m1, 1) && c1 == (
                            CpuView { pc: w32(c0.pc + 2 + c0.reg(operand_value(x) as int)), ..cs })
                    } else {
                        m1.cells == m0.cells && c1 == c0
                    }
                },
        Instruction::Jmp(x) => {
                    if depth == 0 {
                        exists|cs: CpuView|
                            #[trigger] trig_cpu(cs) && step_post(CpuView { pc: w32(c0.pc + 2), ..c0 }, m0, cs, m1, 1) && c1 == (
                            CpuView { pc: w32(c0.reg(operand_value(x) as int) - 2), ..cs })
                    } else {
                        m1.cells == m0.cells && c1 == c0
                    }
                },
        Instruction::Jsr(x) => {
                    if depth == 0 {
                        exists|cs: CpuView|
                            #[trigger] trig_cpu(cs) && step_post(CpuView { pc: w32(c0.pc + 2), pr: w32(c0.pc + 4), ..c0 }, m0, cs, m1, 1) && c1 == (
                            CpuView { pc: w32(c0.reg(operand_value(x) as int) - 2), ..cs })
                    } else {
                        m1.cells == m0.cells && c1 == c0
                    }
                },
        Instruction::Rts => {
                    if depth == 0 {
                        exists|cs: CpuView|
                            #[trigger] trig_cpu(cs) && step_post(CpuView { pc: w32(c0.pc + 2), ..c0 }, m0, cs, m1, 1) && c1 == (
                            CpuView { pc: w32(c0.pr - 2), ..cs })
                    } else {
                        m1.cells == m0.cells && c1 == c0
                    }
                },
        _ => false,
    }
}

/// When one fetch-decode-execute step is defined: the field at PC is in
/// bounds, and the instruction it holds (or decodes to) can execute — in
/// the decoded case against the memory with the decoded form cached.
pub open spec fn step_pre(c: CpuView, m: MemView, depth: int) -> bool
    decreases dclamp(depth), 1int,
{
    &&& cpu_wf(c)
    &&& spec_widx(c.pc as int) < m.cells.len()
    &&& match m.cells[spec_widx(c.pc as int)] {
        MemoryField::InstructionCell(i) => exec_pre(i, with_max(c), m, depth),
        MemoryField::MemoryCell(w) => exec_pre(
            spec_decode(w),
            with_max(c),
            MemView {
                cells: m.cells.update(
                    spec_widx(c.pc as int),
                    MemoryField::InstructionCell(spec_decode(w)),
                ),
                ..m
            },
            depth,
        ),
    }
}

/// What one step does. A cached field executes directly, with no decoding
/// and no write to the slot; a raw field first has its decoded form
/// written into the slot, and execution then runs against that memory.
/// The program counter advances by 2 after execution either way.
pub open spec fn step_post(c0: CpuView, m0: MemView, c1: CpuView, m1: MemView, depth: int) -> bool
    decreases dclamp(depth), 1int,
{
    &&& frame(c0, m0, c1, m1)
    &&& match m0.cells[spec_widx(c0.pc as int)] {
        MemoryField::InstructionCell(i) => exists|cm: CpuView|
            #[trigger] trig_cpu(cm) && exec_post(i, with_max(c0), m0, cm, m1, depth) && c1 == (
            CpuView { pc: w32(cm.pc + 2), ..cm }),
        MemoryField::MemoryCell(w) => {
            let i = spec_decode(w);
            let mc = MemView {
                cells: m0.cells.update(
                    spec_widx(c0.pc as int),
                    MemoryField::InstructionCell(i),
                ),
                ..m0
            };
            exists|cm: CpuView|
                #[trigger] trig_cpu(cm) && exec_post(i, with_max(c0), mc, cm, m1, depth) && c1
                    == (CpuView { pc: w32(cm.pc + 2), ..cm })
        },
    }
}

/// Handles execution of decoded instructions.
pub struct InstructionExecuter;

impl InstructionExecuter {
    /// Executes one instruction against the processor and the memory.
    /// A delayed branch runs the instruction in its delay slot through one
    /// nested step before transferring control.
    pub fn execute(cpu: &mut Cpu, mem: &mut Memory, inst: Instruction)
        requires
            old(cpu).wf(),
            old(mem).wf(),
            exec_pre(inst, old(cpu)@, old(mem)@, 0),
        ensures
            final(cpu).wf(),
            final(mem).wf(),
            exec_post(inst, old(cpu)@, old(mem)@, final(cpu)@, final(mem)@, 0),
    {
        Self::execute_at(cpu, mem, inst, 0);
    }

    /// Executes one instruction at the given delay-slot nesting depth.
    /// A delayed branch nested in a delay slot is refused: it leaves the
    /// state unchanged rather than nesting further.
    pub(crate) fn execute_at(cpu: &mut Cpu, mem: &mut Memory, inst: Instruction, depth: u8)
        requires
            old(cpu).wf(),
            old(mem).wf(),
            depth <= 1,
            exec_pre(inst, old(cpu)@, old(mem)@, depth as int),
        ensures
            final(cpu).wf(),
            final(mem).wf(),
            exec_post(inst, old(cpu)@, old(mem)@, final(cpu)@, final(mem)@, depth as int),
        decreases 1int - depth, 1int,
    {
        match inst {
            Instruction::Add(x, y) => {
                            Self::add(x, y, cpu);
                        }
            Instruction::Sub(x, y) => {
                            Self::sub(x, y, cpu);
                        }
            Instruction::And(x, y) => {
                            Self::and(x, y, cpu);
                        }
            Instruction::Or(x, y) => {
                            Self::or(x, y, cpu);
                        }
            Instruction::Xor(x, y) => {
                            Self::xor(x, y, cpu);
                        }
            Instruction::MovData(x, y) => {
                            Self::mov(x, y, cpu);
                        }
            Instruction::ExtUB(x, y) => {
                            Self::extub(x, y, cpu);
                        }
            Instruction::ExtUW(x, y) => {
                            Self::extuw(x, y, cpu);
                        }
            Instruction::ExtSB(x, y) => {
                            Self::extsb(x, y, cpu);
                        }
            Instruction::ExtSW(x, y) => {
                            Self::extsw(x, y, cpu);
                        }
            Instruction::SwapB(x, y) => {
                            Self::swapb(x, y, cpu);
                        }
            Instruction::SwapW(x, y) => {
                            Self::swapw(x, y, cpu);
                        }
            Instruction::CmpEq(x, y) => {
                            Self::cmpeq(x, y, cpu);
                        }
            Instruction::CmpHs(x, y) => {
                            Self::cmphs(x, y, cpu);
                        }
            Instruction::CmpGe(x, y) => {
                            Self::cmpge(x, y, cpu);
                        }
            Instruction::CmpHi(x, y) => {
                            Self::cmphi(x, y, cpu);
                        }
            Instruction::CmpGt(x, y) => {
                            Self::cmpgt(x, y, cpu);
                        }
            Instruction::Tst(x, y) => {
                            Self::tst(x, y, cpu);
                        }
            Instruction::CmpStr(x, y) => {
                            Self::cmpstr(x, y, cpu);
                        }
            Instruction::CmpPz(x) => {
                            Self::cmppz(x, cpu);
                        }
            Instruction::CmpPl(x) => {
                            Self::cmppl(x, cpu);
                        }
            Instruction::Shll(x) => {
                            Self::shll(x, cpu);
                        }
            Instruction::Shll2(x) => {
                            Self::shll2(x, cpu);
                        }
            Instruction::Shll8(x) => {
                            Self::shll8(x, cpu);
                        }
            Instruction::Shll16(x) => {
                            Self::shll16(x, cpu);
                        }
            Instruction::Shlr(x) => {
                            Self::shlr(x, cpu);
                        }
            Instruction::Shlr2(x) => {
                            Self::shlr2(x, cpu);
                        }
            Instruction::Shlr8(x) => {
                            Self::shlr8(x, cpu);
                        }
            Instruction::Shlr16(x) => {
                            Self::shlr16(x, cpu);
                        }
            Instruction::Shar(x) => {
                            Self::shar(x, cpu);
                        }
            Instruction::Rotr(x) => {
                            Self::rotr(x, cpu);
                        }
            Instruction::AndImm(x) => {
                            Self::andi(x, cpu);
                        }
            Instruction::OrImm(x) => {
                            Self::ori(x, cpu);
                        }
            Instruction::XorImm(x) => {
                            Self::xori(x, cpu);
                        }
            Instruction::Pref(x) => {
                        }
            Instruction::Nop => {
                        }
            Instruction::Unknown => {
                        }
            Instruction::Clrs => {
                            Self::clrs(cpu);
                        }
            Instruction::Sets => {
                            Self::sets(cpu);
                        }
            Instruction::Clrt => {
                            Self::clrt(cpu);
                        }
            Instruction::Sett => {
                            Self::sett(cpu);
                        }
            Instruction::Frchg => {
                            Self::frchg(cpu);
                        }
            Instruction::LdcSr(x) => {
                            Self::ldcsr(x, cpu);
                        }
            Instruction::LdcDbr(x) => {
                            Self::ldcdbr(x, cpu);
                        }
            Instruction::LdcGbr(x) => {
                            Self::ldcgbr(x, cpu);
                        }
            Instruction::LdcVbr(x) => {
                            Self::ldcvbr(x, cpu);
                        }
            Instruction::LdsPr(x) => {
                            Self::ldspr(x, cpu);
                        }
            Instruction::LdsFpscr(x) => {
                            Self::ldsfpscr(x, cpu);
                        }
            Instruction::StcGbr(x) => {
                            Self::stcgbr(x, cpu);
                        }
            Instruction::StcDbr(x) => {
                            Self::stcdbr(x, cpu);
                        }
            Instruction::StsMacH(x) => {
                            Self::stsmach(x, cpu);
                        }
            Instruction::StsMacL(x) => {
                            Self::stsmacl(x, cpu);
                        }
            Instruction::StcBanked(x, b) => {
                            Self::stcbanked(x, b, cpu);
                        }
            Instruction::MovT(x) => {
                            Self::movt(x, cpu);
                        }
            Instruction::MulL(x, y) => {
                            Self::mull(x, y, cpu);
                        }
            Instruction::MulSW(x, y) => {
                            Self::mulsw(x, y, cpu);
                        }
            Instruction::MulUW(x, y) => {
                            Self::muluw(x, y, cpu);
                        }
            Instruction::AddConstant(x, y) => {
                            Self::addi(x, y, cpu);
                        }
            Instruction::AddWithCarry(x, y) => {
                            Self::addc(x, y, cpu);
                        }
            Instruction::AddOverflow(x, y) => {
                            Self::addv(x, y, cpu);
                        }
            Instruction::Dt(x) => {
                            Self::dt(x, cpu);
                        }
            Instruction::CmpEqImm(x) => {
                            Self::cmpeqimm(x, cpu);
                        }
            Instruction::TstImm(x) => {
                            Self::tsti(x, cpu);
                        }
            Instruction::MovConstantSign(x, y) => {
                            Self::mov_const_sign(x, y, cpu);
                        }
            Instruction::MovA(x) => {
                            Self::mov_a(x, cpu);
                        }
            Instruction::MovDataBStore(x, y) => {
                            Self::mov_data_store_b(x, y, cpu, mem);
                        }
            Instruction::MovDataWStore(x, y) => {
                            Self::mov_data_store_w(x, y, cpu, mem);
                        }
            Instruction::MovDataLStore(x, y) => {
                            Self::mov_data_store_l(x, y, cpu, mem);
                        }
            Instruction::MovDataStoreR0B(x, y) => {
                            Self::mov_data_store_r0b(x, y, cpu, mem);
                        }
            Instruction::MovDataStoreR0W(x, y) => {
                            Self::mov_data_store_r0w(x, y, cpu, mem);
                        }
            Instruction::MovDataStoreR0L(x, y) => {
                            Self::mov_data_store_r0l(x, y, cpu, mem);
                        }
            Instruction::MovStructStoreB(x, y) => {
                            Self::mov_struct_store_b(x, y, cpu, mem);
                        }
            Instruction::MovStructStoreW(x, y) => {
                            Self::mov_struct_store_w(x, y, cpu, mem);
                        }
            Instruction::MovStructStoreL(x, y) => {
                            Self::mov_struct_store_l(x, y, cpu, mem);
                        }
            Instruction::MovGlobalStoreB(x) => {
                            Self::mov_glob_store_b(x, cpu, mem);
                        }
            Instruction::MovGlobalStoreW(x) => {
                            Self::mov_glob_store_w(x, cpu, mem);
                        }
            Instruction::MovGlobalStoreL(x) => {
                            Self::mov_glob_store_l(x, cpu, mem);
                        }
            Instruction::MovCA(x) => {
                            Self::movca(x, cpu, mem);
                        }
            Instruction::MovDataBStore1(x, y) => {
                            Self::mov_data_store_b1(x, y, cpu, mem);
                        }
            Instruction::MovDataWStore2(x, y) => {
                            Self::mov_data_store_w2(x, y, cpu, mem);
                        }
            Instruction::MovDataLStore4(x, y) => {
                            Self::mov_data_store_l4(x, y, cpu, mem);
                        }
            Instruction::StsLMacH(x) => {
                            Self::stslmach(x, cpu, mem);
                        }
            Instruction::StsLMacL(x) => {
                            Self::stslmacl(x, cpu, mem);
                        }
            Instruction::StsLPr(x) => {
                            Self::stslpr(x, cpu, mem);
                        }
            Instruction::FMovStoreS4(x, y) => {
                            Self::fmov_store_s4(x, y, cpu, mem);
                        }
            Instruction::MovDataSignBLoad(x, y) => {
                            Self::mov_data_sign_load_b(x, y, cpu, mem);
                        }
            Instruction::MovDataSignWLoad(x, y) => {
                            Self::mov_data_sign_load_w(x, y, cpu, mem);
                        }
            Instruction::MovDataSignLLoad(x, y) => {
                            Self::mov_data_sign_load_l(x, y, cpu, mem);
                        }
            Instruction::MovDataSignBLoad1(x, y) => {
                            Self::mov_data_sign_load_b1(x, y, cpu, mem);
                        }
            Instruction::MovDataSignWLoad2(x, y) => {
                            Self::mov_data_sign_load_w2(x, y, cpu, mem);
                        }
            Instruction::MovDataSignLLoad4(x, y) => {
                            Self::mov_data_sign_load_l4(x, y, cpu, mem);
                        }
            Instruction::MovDataLoadR0B(x, y) => {
                            Self::mov_data_load_r0b(x, y, cpu, mem);
                        }
            Instruction::MovDataLoadR0W(x, y) => {
                            Self::mov_data_load_r0w(x, y, cpu, mem);
                        }
            Instruction::MovDataLoadR0L(x, y) => {
                            Self::mov_data_load_r0l(x, y, cpu, mem);
                        }
            Instruction::MovConstantLoadW(x, y) => {
                            Self::mov_const_load_w(x, y, cpu, mem);
                        }
            Instruction::MovConstantLoadL(x, y) => {
                            Self::mov_const_load_l(x, y, cpu, mem);
                        }
            Instruction::MovStructLoadB(x, y) => {
                            Self::mov_struct_load_b(x, y, cpu, mem);
                        }
            Instruction::MovStructLoadW(x, y) => {
                            Self::mov_struct_load_w(x, y, cpu, mem);
                        }
            Instruction::MovStructLoadL(x, y) => {
                            Self::mov_struct_load_l(x, y, cpu, mem);
                        }
            Instruction::MovGlobalLoadB(x) => {
                            Self::mov_glob_load_b(x, cpu, mem);
                        }
            Instruction::MovGlobalLoadW(x) => {
                            Self::mov_glob_load_w(x, cpu, mem);
                        }
            Instruction::MovGlobalLoadL(x) => {
                            Self::mov_glob_load_l(x, cpu, mem);
                        }
            Instruction::LdcLSr(x) => {
                            Self::ldclsr(x, cpu, mem);
                        }
            Instruction::LdcLGbr(x) => {
                            Self::ldclgbr(x, cpu, mem);
                        }
            Instruction::LdcLVbr(x) => {
                            Self::ldclvbr(x, cpu, mem);
                        }
            Instruction::LdcLSsr(x) => {
                            Self::ldclssr(x, cpu, mem);
                        }
            Instruction::LdcLSpc(x) => {
                            Self::ldclspc(x, cpu, mem);
                        }
            Instruction::LdsLMacl(x) => {
                            Self::ldslmacl(x, cpu, mem);
                        }
            Instruction::LdsLMach(x) => {
                            Self::ldslmach(x, cpu, mem);
                        }
            Instruction::LdsLPr(x) => {
                            Self::ldslpr(x, cpu, mem);
                        }
            Instruction::LdsFpscrL(x) => {
                            Self::ldsfpscrl(x, cpu, mem);
                        }
            Instruction::LdsFpulL(x) => {
                            Self::ldsfpull(x, cpu, mem);
                        }
            Instruction::FMovLoadS4(x, y) => {
                            Self::fmov_load_s4(x, y, cpu, mem);
                        }
            Instruction::AndB(x) => {
                            Self::andb(x, cpu, mem);
                        }
            Instruction::OrB(x) => {
                            Self::orb(x, cpu, mem);
                        }
            Instruction::XorB(x) => {
                            Self::xorb(x, cpu, mem);
                        }
            Instruction::TstB(x) => {
                            Self::tstb(x, cpu, mem);
                        }
            Instruction::Tas(x) => {
                            Self::tas(x, cpu, mem);
                        }
            Instruction::FMovLoadD8(x, y) => {
                            Self::fmov_load_d8(x, y, cpu, mem);
                        }
            Instruction::FMovStoreD8(x, y) => {
                            Self::fmov_store_d8(x, y, cpu, mem);
                        }
            Instruction::FMov(x, y) => {
                            Self::fmov(x, y, cpu);
                        }
            Instruction::FAdd(x, y) => {
                            Self::fadd(x, y, cpu);
                        }
            Instruction::MacL(x, y) => {
                            Self::macl(x, y, cpu, mem);
                        }
            Instruction::Bf(x) => {
                            Self::bf(x, cpu);
                        }
            Instruction::Bt(x) => {
                            Self::bt(x, cpu);
                        }
            Instruction::Bfs(x) => {
                            Self::bfs(x, cpu, mem, depth);
                        }
            Instruction::Bts(x) => {
                            Self::bts(x, cpu, mem, depth);
                        }
            Instruction::Bra(x, y) => {
                            Self::bra(x, y, cpu, mem, depth);
                        }
            Instruction::Braf(x) => {
                            Self::braf(x, cpu, mem, depth);
                        }
            Instruction::Bsr(x, y) => {
                            Self::bsr(x, y, cpu, mem, depth);
                        }
            Instruction::Bsrf(x) => {
                            Self::bsrf(x, cpu, mem, depth);
                        }
            Instruction::Jmp(x) => {
                            Self::jmp(x, cpu, mem, depth);
                        }
            Instruction::Jsr(x) => {
                            Self::jsr(x, cpu, mem, depth);
                        }
            Instruction::Rts => {
                            Self::rts(cpu, mem, depth);
                        }
            _ => {
                // the remaining variants are the operations the engine
                // does not define; `exec_pre` excludes them, so this arm
                // is unreachable
                proof {
                    assert(false);
                }
            },
        }
    }

    /// Adds the source to the destination register, wrapping at 32 bits.
    fn add(dest: Operand, src: Operand, cpu: &mut Cpu)
        requires
            old(cpu).wf(),
            reg_ok(dest),
            reg_ok(src),
        ensures
            final(cpu).wf(),
            final(cpu)@ == old(cpu)@.with_reg(operand_value(dest) as int, w32(old(cpu)@.reg(operand_value(dest) as int) + old(cpu)@.reg(operand_value(src) as int))),
    {
        let rn = cpu.reg(dest);
        let rm = cpu.reg(src);
        let v: u32 = wadd(rn, rm);
        cpu.set_reg(dest, v);
    }

    /// Subtracts the source from the destination register, wrapping.
    fn sub(dest: Operand, src: Operand, cpu: &mut Cpu)
        requires
            old(cpu).wf(),
            reg_ok(dest),
            reg_ok(src),
        ensures
            final(cpu).wf(),
            final(cpu)@ == old(cpu)@.with_reg(operand_value(dest) as int, w32(old(cpu)@.reg(operand_value(dest) as int) - old(cpu)@.reg(operand_value(src) as int))),
    {
        let rn = cpu.reg(dest);
        let rm = cpu.reg(src);
        let v: u32 = wsub(rn, rm);
        cpu.set_reg(dest, v);
    }

    /// Bitwise AND of the registers.
    fn and(dest: Operand, src: Operand, cpu: &mut Cpu)
        requires
            old(cpu).wf(),
            reg_ok(dest),
            reg_ok(src),
        ensures
            final(cpu).wf(),
            final(cpu)@ == old(cpu)@.with_reg(operand_value(dest) as int, (old(cpu)@.reg(operand_value(dest) as int) & old(cpu)@.reg(operand_value(src) as int))),
    {
        let rn = cpu.reg(dest);
        let rm = cpu.reg(src);
        let v: u32 = rn & rm;
        cpu.set_reg(dest, v);
    }

    /// Bitwise OR of the registers.
    fn or(dest: Operand, src: Operand, cpu: &mut Cpu)
        requires
            old(cpu).wf(),
            reg_ok(dest),
            reg_ok(src),
        ensures
            final(cpu).wf(),
            final(cpu)@ == old(cpu)@.with_reg(operand_value(dest) as int, (old(cpu)@.reg(operand_value(dest) as int) | old(cpu)@.reg(operand_value(src) as int))),
    {
        let rn = cpu.reg(dest);
        let rm = cpu.reg(src);
        let v: u32 = rn | rm;
        cpu.set_reg(dest, v);
    }

    /// Bitwise XOR of the registers.
    fn xor(dest: Operand, src: Operand, cpu: &mut Cpu)
        requires
            old(cpu).wf(),
            reg_ok(dest),
            reg_ok(src),
        ensures
            final(cpu).wf(),
            final(cpu)@ == old(cpu)@.with_reg(operand_value(dest) as int, (old(cpu)@.reg(operand_value(dest) as int) ^ old(cpu)@.reg(operand_value(src) as int))),
    {
        let rn = cpu.reg(dest);
        let rm = cpu.reg(src);
        let v: u32 = rn ^ rm;
        cpu.set_reg(dest, v);
    }

    /// Register-to-register move.
    fn mov(dest: Operand, src: Operand, cpu: &mut Cpu)
        requires
            old(cpu).wf(),
            reg_ok(dest),
            reg_ok(src),
        ensures
            final(cpu).wf(),
            final(cpu)@ == old(cpu)@.with_reg(operand_value(dest) as int, old(cpu)@.reg(operand_value(src) as int)),
    {
        let rm = cpu.reg(src);
        let v: u32 = rm;
        cpu.set_reg(dest, v);
    }

    /// Zero-extends the low byte of the source into the destination.
    fn extub(dest: Operand, src: Operand, cpu: &mut Cpu)
        requires
            old(cpu).wf(),
            reg_ok(dest),
            reg_ok(src),
        ensures
            final(cpu).wf(),
            final(cpu)@ == old(cpu)@.with_reg(operand_value(dest) as int, (old(cpu)@.reg(operand_value(src) as int) & 0xFFu32)),
    {
        let rm = cpu.reg(src);
        let v: u32 = rm & 0xFF;
        cpu.set_reg(dest, v);
    }

    /// Zero-extends the low word of the source into the destination.
    fn extuw(dest: Operand, src: Operand, cpu: &mut Cpu)
        requires
            old(cpu).wf(),
            reg_ok(dest),
            reg_ok(src),
        ensures
            final(cpu).wf(),
            final(cpu)@ == old(cpu)@.with_reg(operand_value(dest) as int, (old(cpu)@.reg(operand_value(src) as int) & 0xFFFFu32)),
    {
        let rm = cpu.reg(src);
        let v: u32 = rm & 0xFFFF;
        cpu.set_reg(dest, v);
    }

    /// Sign-extends the low byte of the source into the destination.
    fn extsb(dest: Operand, src: Operand, cpu: &mut Cpu)
        requires
            old(cpu).wf(),
            reg_ok(dest),
            reg_ok(src),
        ensures
            final(cpu).wf(),
            final(cpu)@ == old(cpu)@.with_reg(operand_value(dest) as int, sx8((old(cpu)@.reg(operand_value(src) as int) & 0xFFu32) as u8)),
    {
        let rm = cpu.reg(src);
        let v: u32 = sext8u((rm & 0xFF) as u8);
        cpu.set_reg(dest, v);
    }

    /// Sign-extends the low word of the source into the destination.
    fn extsw(dest: Operand, src: Operand, cpu: &mut Cpu)
        requires
            old(cpu).wf(),
            reg_ok(dest),
            reg_ok(src),
        ensures
            final(cpu).wf(),
            final(cpu)@ == old(cpu)@.with_reg(operand_value(dest) as int, sx16((old(cpu)@.reg(operand_value(src) as int) & 0xFFFFu32) as u16)),
    {
        let rm = cpu.reg(src);
        let v: u32 = sext16u((rm & 0xFFFF) as u16);
        cpu.set_reg(dest, v);
    }

    /// Swaps the two low bytes of the source into the destination.
    fn swapb(dest: Operand, src: Operand, cpu: &mut Cpu)
        requires
            old(cpu).wf(),
            reg_ok(dest),
            reg_ok(src),
        ensures
            final(cpu).wf(),
            final(cpu)@ == old(cpu)@.with_reg(operand_value(dest) as int, (((old(cpu)@.reg(operand_value(src) as int) & 0xFF00u32) >> 8u32) | (old(cpu)@.reg(operand_value(src) as int) & 0xFFFF_0000u32) | ((old(cpu)@.reg(operand_value(src) as int) & 0xFFu32) << 8u32))),
    {
        let rm = cpu.reg(src);
        let v: u32 = ((rm & 0xFF00) >> 8u32) | (rm & 0xFFFF_0000) | ((rm & 0xFF) << 8u32);
        cpu.set_reg(dest, v);
    }

    /// Swaps the two 16-bit halves of the source into the destination.
    fn swapw(dest: Operand, src: Operand, cpu: &mut Cpu)
        requires
            old(cpu).wf(),
            reg_ok(dest),
            reg_ok(src),
        ensures
            final(cpu).wf(),
            final(cpu)@ == old(cpu)@.with_reg(operand_value(dest) as int, ((old(cpu)@.reg(operand_value(src) as int) << 16u32) | ((old(cpu)@.reg(operand_value(src) as int) >> 16u32) & 0xFFFFu32))),
    {
        let rm = cpu.reg(src);
        let v: u32 = (rm << 16u32) | ((rm >> 16u32) & 0xFFFF);
        cpu.set_reg(dest, v);
    }

    /// Sets T iff the registers are equal.
    fn cmpeq(dest: Operand, src: Operand, cpu: &mut Cpu)
        requires
            old(cpu).wf(),
            reg_ok(dest),
            reg_ok(src),
        ensures
            final(cpu).wf(),
            final(cpu)@ == old(cpu)@.with_t((old(cpu)@.reg(operand_value(dest) as int) == old(cpu)@.reg(operand_value(src) as int))),
    {
        let rn = cpu.reg(dest);
        let rm = cpu.reg(src);
        cpu.set_t(rn == rm);
    }

    /// Sets T iff unsigned higher-or-same.
    fn cmphs(dest: Operand, src: Operand, cpu: &mut Cpu)
        requires
            old(cpu).wf(),
            reg_ok(dest),
            reg_ok(src),
        ensures
            final(cpu).wf(),
            final(cpu)@ == old(cpu)@.with_t((old(cpu)@.reg(operand_value(dest) as int) >= old(cpu)@.reg(operand_value(src) as int))),
    {
        let rn = cpu.reg(dest);
        let rm = cpu.reg(src);
        cpu.set_t(rn >= rm);
    }

    /// Sets T iff signed greater-or-equal.
    fn cmpge(dest: Operand, src: Operand, cpu: &mut Cpu)
        requires
            old(cpu).wf(),
            reg_ok(dest),
            reg_ok(src),
        ensures
            final(cpu).wf(),
            final(cpu)@ == old(cpu)@.with_t((sgn32(old(cpu)@.reg(operand_value(dest) as int)) >= sgn32(old(cpu)@.reg(operand_value(src) as int)))),
    {
        let rn = cpu.reg(dest);
        let rm = cpu.reg(src);
        let v = if (rn >= 0x8000_0000) == (rm >= 0x8000_0000) {
            rn >= rm
        } else {
            rm >= 0x8000_0000
        };
        proof {
            assert(v == (sgn32(rn) >= sgn32(rm)));
        }
        cpu.set_t(v);
    }

    /// Sets T iff unsigned higher.
    fn cmphi(dest: Operand, src: Operand, cpu: &mut Cpu)
        requires
            old(cpu).wf(),
            reg_ok(dest),
            reg_ok(src),
        ensures
            final(cpu).wf(),
            final(cpu)@ == old(cpu)@.with_t((old(cpu)@.reg(operand_value(dest) as int) > old(cpu)@.reg(operand_value(src) as int))),
    {
        let rn = cpu.reg(dest);
        let rm = cpu.reg(src);
        cpu.set_t(rn > rm);
    }

    /// Sets T iff signed greater.
    fn cmpgt(dest: Operand, src: Operand, cpu: &mut Cpu)
        requires
            old(cpu).wf(),
            reg_ok(dest),
            reg_ok(src),
        ensures
            final(cpu).wf(),
            final(cpu)@ == old(cpu)@.with_t((sgn32(old(cpu)@.reg(operand_value(dest) as int)) > sgn32(old(cpu)@.reg(operand_value(src) as int)))),
    {
        let rn = cpu.reg(dest);
        let rm = cpu.reg(src);
        let v = if (rn >= 0x8000_0000) == (rm >= 0x8000_0000) {
            rn > rm
        } else {
            rm >= 0x8000_0000
        };
        proof {
            assert(v == (sgn32(rn) > sgn32(rm)));
        }
        cpu.set_t(v);
    }

    /// Sets T iff the AND of the registers is zero.
    fn tst(dest: Operand, src: Operand, cpu: &mut Cpu)
        requires
            old(cpu).wf(),
            reg_ok(dest),
            reg_ok(src),
        ensures
            final(cpu).wf(),
            final(cpu)@ == old(cpu)@.with_t(((old(cpu)@.reg(operand_value(dest) as int) & old(cpu)@.reg(operand_value(src) as int)) == 0)),
    {
        let rn = cpu.reg(dest);
        let rm = cpu.reg(src);
        cpu.set_t((rn & rm) == 0);
    }

    /// Sets T iff some byte of the two registers is equal.
    fn cmpstr(dest: Operand, src: Operand, cpu: &mut Cpu)
        requires
            old(cpu).wf(),
            reg_ok(dest),
            reg_ok(src),
        ensures
            final(cpu).wf(),
            final(cpu)@ == old(cpu)@.with_t((((old(cpu)@.reg(operand_value(dest) as int) ^ old(cpu)@.reg(operand_value(src) as int)) & 0xFF00_0000u32) == 0 || ((old(cpu)@.reg(operand_value(dest) as int) ^ old(cpu)@.reg(operand_value(src) as int)) & 0x00FF_0000u32) == 0 || ((old(cpu)@.reg(operand_value(dest) as int) ^ old(cpu)@.reg(operand_value(src) as int)) & 0xFF00u32) == 0 || ((old(cpu)@.reg(operand_value(dest) as int) ^ old(cpu)@.reg(operand_value(src) as int)) & 0xFFu32) == 0)),
    {
        let rn = cpu.reg(dest);
        let rm = cpu.reg(src);
        let temp = rn ^ rm;
        let r = (temp & 0xFF00_0000) != 0 && (temp & 0x00FF_0000) != 0 && (temp & 0xFF00) != 0
            && (temp & 0xFF) != 0;
        cpu.set_t(!r);
    }

    /// Sets T iff the register is non-negative, signed.
    fn cmppz(src: Operand, cpu: &mut Cpu)
        requires
            old(cpu).wf(),
            reg_ok(src),
        ensures
            final(cpu).wf(),
            final(cpu)@ == old(cpu)@.with_t((sgn32(old(cpu)@.reg(operand_value(src) as int)) >= 0)),
    {
        let rn = cpu.reg(src);
        cpu.set_t(rn < 0x8000_0000);
    }

    /// Sets T iff the register is positive, signed.
    fn cmppl(src: Operand, cpu: &mut Cpu)
        requires
            old(cpu).wf(),
            reg_ok(src),
        ensures
            final(cpu).wf(),
            final(cpu)@ == old(cpu)@.with_t((sgn32(old(cpu)@.reg(operand_value(src) as int)) > 0)),
    {
        let rn = cpu.reg(src);
        cpu.set_t(rn < 0x8000_0000 && rn != 0);
    }

    /// Shift left by 1; T takes bit 31 of the old value.
    fn shll(dest: Operand, cpu: &mut Cpu)
        requires
            old(cpu).wf(),
            reg_ok(dest),
        ensures
            final(cpu).wf(),
            final(cpu)@ == old(cpu)@.with_t((old(cpu)@.reg(operand_value(dest) as int) & 0x8000_0000u32 != 0)).with_reg(operand_value(dest) as int, (old(cpu)@.reg(operand_value(dest) as int) << 1u32)),
    {
        let rn = cpu.reg(dest);
        cpu.set_t(rn & 0x8000_0000 != 0);
        let v: u32 = rn << 1u32;
        cpu.set_reg(dest, v);
    }

    /// Shift left by 2; T untouched.
    fn shll2(dest: Operand, cpu: &mut Cpu)
        requires
            old(cpu).wf(),
            reg_ok(dest),
        ensures
            final(cpu).wf(),
            final(cpu)@ == old(cpu)@.with_reg(operand_value(dest) as int, (old(cpu)@.reg(operand_value(dest) as int) << 2u32)),
    {
        let rn = cpu.reg(dest);
        let v: u32 = rn << 2u32;
        cpu.set_reg(dest, v);
    }

    /// Shift left by 8; T untouched.
    fn shll8(dest: Operand, cpu: &mut Cpu)
        requires
            old(cpu).wf(),
            reg_ok(dest),
        ensures
            final(cpu).wf(),
            final(cpu)@ == old(cpu)@.with_reg(operand_value(dest) as int, (old(cpu)@.reg(operand_value(dest) as int) << 8u32)),
    {
        let rn = cpu.reg(dest);
        let v: u32 = rn << 8u32;
        cpu.set_reg(dest, v);
    }

    /// Shift left by 16; T untouched.
    fn shll16(dest: Operand, cpu: &mut Cpu)
        requires
            old(cpu).wf(),
            reg_ok(dest),
        ensures
            final(cpu).wf(),
            final(cpu)@ == old(cpu)@.with_reg(operand_value(dest) as int, (old(cpu)@.reg(operand_value(dest) as int) << 16u32)),
    {
        let rn = cpu.reg(dest);
        let v: u32 = rn << 16u32;
        cpu.set_reg(dest, v);
    }

    /// Logical shift right by 1; T takes bit 0 of the old value.
    fn shlr(dest: Operand, cpu: &mut Cpu)
        requires
            old(cpu).wf(),
            reg_ok(dest),
        ensures
            final(cpu).wf(),
            final(cpu)@ == old(cpu)@.with_t((old(cpu)@.reg(operand_value(dest) as int) & 0x1u32 != 0)).with_reg(operand_value(dest) as int, ((old(cpu)@.reg(operand_value(dest) as int) >> 1u32) & 0x7FFF_FFFFu32)),
    {
        let rn = cpu.reg(dest);
        cpu.set_t(rn & 0x1 != 0);
        let v: u32 = (rn >> 1u32) & 0x7FFF_FFFF;
        cpu.set_reg(dest, v);
    }

    /// Logical shift right by 2; T untouched.
    fn shlr2(dest: Operand, cpu: &mut Cpu)
        requires
            old(cpu).wf(),
            reg_ok(dest),
        ensures
            final(cpu).wf(),
            final(cpu)@ == old(cpu)@.with_reg(operand_value(dest) as int, ((old(cpu)@.reg(operand_value(dest) as int) >> 2u32) & 0x3FFF_FFFFu32)),
    {
        let rn = cpu.reg(dest);
        let v: u32 = (rn >> 2u32) & 0x3FFF_FFFF;
        cpu.set_reg(dest, v);
    }

    /// Logical shift right by 8; T untouched.
    fn shlr8(dest: Operand, cpu: &mut Cpu)
        requires
            old(cpu).wf(),
            reg_ok(dest),
        ensures
            final(cpu).wf(),
            final(cpu)@ == old(cpu)@.with_reg(operand_value(dest) as int, ((old(cpu)@.reg(operand_value(dest) as int) >> 8u32) & 0x00FF_FFFFu32)),
    {
        let rn = cpu.reg(dest);
        let v: u32 = (rn >> 8u32) & 0x00FF_FFFF;
        cpu.set_reg(dest, v);
    }

    /// Logical shift right by 16; T untouched.
    fn shlr16(dest: Operand, cpu: &mut Cpu)
        requires
            old(cpu).wf(),
            reg_ok(dest),
        ensures
            final(cpu).wf(),
            final(cpu)@ == old(cpu)@.with_reg(operand_value(dest) as int, ((old(cpu)@.reg(operand_value(dest) as int) >> 16u32) & 0xFFFFu32)),
    {
        let rn = cpu.reg(dest);
        let v: u32 = (rn >> 16u32) & 0xFFFF;
        cpu.set_reg(dest, v);
    }

    /// Arithmetic shift right by 1, keeping the sign bit; T takes bit 0.
    fn shar(dest: Operand, cpu: &mut Cpu)
        requires
            old(cpu).wf(),
            reg_ok(dest),
        ensures
            final(cpu).wf(),
            final(cpu)@ == old(cpu)@.with_t((old(cpu)@.reg(operand_value(dest) as int) & 0x1u32 != 0)).with_reg(operand_value(dest) as int, (if old(cpu)@.reg(operand_value(dest) as int) & 0x8000_0000u32 == 0 { (old(cpu)@.reg(operand_value(dest) as int) >> 1u32) & 0x7FFF_FFFFu32 } else { (old(cpu)@.reg(operand_value(dest) as int) >> 1u32) | 0x8000_0000u32 })),
    {
        let rn = cpu.reg(dest);
        cpu.set_t(rn & 0x1 != 0);
        let v: u32 = if rn & 0x8000_0000 == 0 { (rn >> 1u32) & 0x7FFF_FFFF } else { (rn >> 1u32) | 0x8000_0000 };
        cpu.set_reg(dest, v);
    }

    /// Rotate right by 1; T takes the rotated-out bit.
    fn rotr(dest: Operand, cpu: &mut Cpu)
        requires
            old(cpu).wf(),
            reg_ok(dest),
        ensures
            final(cpu).wf(),
            final(cpu)@ == old(cpu)@.with_t((old(cpu)@.reg(operand_value(dest) as int) & 0x1u32 != 0)).with_reg(operand_value(dest) as int, ((old(cpu)@.reg(operand_value(dest) as int) >> 1u32) | ((old(cpu)@.reg(operand_value(dest) as int) & 0x1u32) << 31u32))),
    {
        let rn = cpu.reg(dest);
        cpu.set_t(rn & 0x1 != 0);
        let v: u32 = (rn >> 1u32) | ((rn & 0x1) << 31u32);
        cpu.set_reg(dest, v);
    }

    /// ANDs R0 with the immediate byte.
    fn andi(imm: Operand, cpu: &mut Cpu)
        requires
            old(cpu).wf(),
            imm is ImmediateOperand,
        ensures
            final(cpu).wf(),
            final(cpu)@ == old(cpu)@.with_reg(0, (old(cpu)@.reg(0) & (operand_value(imm) as u32))),
    {
        let r0 = cpu.reg(Operand::RegisterOperand(0));
        let iv = imm.unwrap() as u32;
        cpu.set_reg(Operand::RegisterOperand(0), r0 & iv);
    }

    /// ORs R0 with the immediate byte.
    fn ori(imm: Operand, cpu: &mut Cpu)
        requires
            old(cpu).wf(),
            imm is ImmediateOperand,
        ensures
            final(cpu).wf(),
            final(cpu)@ == old(cpu)@.with_reg(0, (old(cpu)@.reg(0) | (operand_value(imm) as u32))),
    {
        let r0 = cpu.reg(Operand::RegisterOperand(0));
        let iv = imm.unwrap() as u32;
        cpu.set_reg(Operand::RegisterOperand(0), r0 | iv);
    }

    /// XORs R0 with the immediate byte.
    fn xori(imm: Operand, cpu: &mut Cpu)
        requires
            old(cpu).wf(),
            imm is ImmediateOperand,
        ensures
            final(cpu).wf(),
            final(cpu)@ == old(cpu)@.with_reg(0, (old(cpu)@.reg(0) ^ (operand_value(imm) as u32))),
    {
        let r0 = cpu.reg(Operand::RegisterOperand(0));
        let iv = imm.unwrap() as u32;
        cpu.set_reg(Operand::RegisterOperand(0), r0 ^ iv);
    }

    /// Clears the S bit.
    fn clrs(cpu: &mut Cpu)
        ensures
            final(cpu).wf() == old(cpu).wf(),
            final(cpu)@ == old(cpu)@.with_s(false),
    {
        cpu.set_s(false);
    }

    /// Sets the S bit.
    fn sets(cpu: &mut Cpu)
        ensures
            final(cpu).wf() == old(cpu).wf(),
            final(cpu)@ == old(cpu)@.with_s(true),
    {
        cpu.set_s(true);
    }

    /// Clears the T bit.
    fn clrt(cpu: &mut Cpu)
        ensures
            final(cpu).wf() == old(cpu).wf(),
            final(cpu)@ == old(cpu)@.with_t(false),
    {
        cpu.set_t(false);
    }

    /// Sets the T bit.
    fn sett(cpu: &mut Cpu)
        ensures
            final(cpu).wf() == old(cpu).wf(),
            final(cpu)@ == old(cpu)@.with_t(true),
    {
        cpu.set_t(true);
    }

    /// Toggles FPSCR bit 21, swapping the visible floating bank.
    fn frchg(cpu: &mut Cpu)
        ensures
            final(cpu).wf() == old(cpu).wf(),
            final(cpu)@ == (CpuView { fpscr: old(cpu)@.fpscr ^ 0x0020_0000u32, ..old(cpu)@ }),
    {
        let v = cpu.fpscr.value ^ 0x00200000;
        cpu.set_fpscr(v);
    }

    /// Loads the status register from a general register, masked per the architecture.
    fn ldcsr(src: Operand, cpu: &mut Cpu)
        requires
            old(cpu).wf(),
            reg_ok(src),
        ensures
            final(cpu).wf(),
            final(cpu)@ == (CpuView { sr: (old(cpu)@.reg(operand_value(src) as int) & 0x7000_83F3u32), ..old(cpu)@ }),
    {
        let rm = cpu.reg(src);
        cpu.set_sr((rm & 0x7000_83F3));
    }

    /// Loads DBR from a general register.
    fn ldcdbr(src: Operand, cpu: &mut Cpu)
        requires
            old(cpu).wf(),
            reg_ok(src),
        ensures
            final(cpu).wf(),
            final(cpu)@ == (CpuView { dbr: old(cpu)@.reg(operand_value(src) as int), ..old(cpu)@ }),
    {
        let rm = cpu.reg(src);
        cpu.set_dbr(rm);
    }

    /// Loads GBR from a general register.
    fn ldcgbr(src: Operand, cpu: &mut Cpu)
        requires
            old(cpu).wf(),
            reg_ok(src),
        ensures
            final(cpu).wf(),
            final(cpu)@ == (CpuView { gbr: old(cpu)@.reg(operand_value(src) as int), ..old(cpu)@ }),
    {
        let rm = cpu.reg(src);
        cpu.set_gbr(rm);
    }

    /// Loads VBR from a general register.
    fn ldcvbr(src: Operand, cpu: &mut Cpu)
        requires
            old(cpu).wf(),
            reg_ok(src),
        ensures
            final(cpu).wf(),
            final(cpu)@ == (CpuView { vbr: old(cpu)@.reg(operand_value(src) as int), ..old(cpu)@ }),
    {
        let rm = cpu.reg(src);
        cpu.set_vbr(rm);
    }

    /// Loads the link register from a general register.
    fn ldspr(src: Operand, cpu: &mut Cpu)
        requires
            old(cpu).wf(),
            reg_ok(src),
        ensures
            final(cpu).wf(),
            final(cpu)@ == (CpuView { pr: old(cpu)@.reg(operand_value(src) as int), ..old(cpu)@ }),
    {
        let rm = cpu.reg(src);
        cpu.set_pr(rm);
    }

    /// Loads FPSCR from a general register, masked to its defined bits.
    fn ldsfpscr(src: Operand, cpu: &mut Cpu)
        requires
            old(cpu).wf(),
            reg_ok(src),
        ensures
            final(cpu).wf(),
            final(cpu)@ == (CpuView { fpscr: (old(cpu)@.reg(operand_value(src) as int) & 0x003F_FFFFu32), ..old(cpu)@ }),
    {
        let rm = cpu.reg(src);
        cpu.set_fpscr((rm & 0x003F_FFFF));
    }

    /// Stores GBR into a general register.
    fn stcgbr(dest: Operand, cpu: &mut Cpu)
        requires
            old(cpu).wf(),
            reg_ok(dest),
        ensures
            final(cpu).wf(),
            final(cpu)@ == old(cpu)@.with_reg(operand_value(dest) as int, old(cpu)@.gbr),
    {
        let v = cpu.gbr.value;
        cpu.set_reg(dest, v);
    }

    /// Stores DBR into a general register.
    fn stcdbr(dest: Operand, cpu: &mut Cpu)
        requires
            old(cpu).wf(),
            reg_ok(dest),
        ensures
            final(cpu).wf(),
            final(cpu)@ == old(cpu)@.with_reg(operand_value(dest) as int, old(cpu)@.dbr),
    {
        let v = cpu.dbr.value;
        cpu.set_reg(dest, v);
    }

    /// Stores MACH into a general register.
    fn stsmach(dest: Operand, cpu: &mut Cpu)
        requires
            old(cpu).wf(),
            reg_ok(dest),
        ensures
            final(cpu).wf(),
            final(cpu)@ == old(cpu)@.with_reg(operand_value(dest) as int, old(cpu)@.mach),
    {
        let v = cpu.mach.value;
        cpu.set_reg(dest, v);
    }

    /// Stores MACL into a general register.
    fn stsmacl(dest: Operand, cpu: &mut Cpu)
        requires
            old(cpu).wf(),
            reg_ok(dest),
        ensures
            final(cpu).wf(),
            final(cpu)@ == old(cpu)@.with_reg(operand_value(dest) as int, old(cpu)@.macl),
    {
        let v = cpu.macl.value;
        cpu.set_reg(dest, v);
    }

    /// Stores a register of the inactive bank into a general register.
    fn stcbanked(dest: Operand, reg: u8, cpu: &mut Cpu)
        requires
            old(cpu).wf(),
            reg_ok(dest),
            reg < 8,
        ensures
            final(cpu).wf(),
            final(cpu)@ == old(cpu)@.with_reg(operand_value(dest) as int, old(cpu)@.alt_reg(reg as int)),
    {
        let v = cpu.banked(Operand::RegisterOperand(reg)).value;
        cpu.set_reg(dest, v);
    }

    /// Loads a register with the T bit, zero-extended.
    fn movt(dest: Operand, cpu: &mut Cpu)
        requires
            old(cpu).wf(),
            reg_ok(dest),
        ensures
            final(cpu).wf(),
            final(cpu)@ == old(cpu)@.with_reg(operand_value(dest) as int, old(cpu)@.t01()),
    {
        let v: u32 = if cpu.status.is_carry() {
            1
        } else {
            0
        };
        cpu.set_reg(dest, v);
    }

    /// Writes the low 32 bits of the product of the registers into MACL.
    fn mull(dest: Operand, src: Operand, cpu: &mut Cpu)
        requires
            old(cpu).wf(),
            reg_ok(dest),
            reg_ok(src),
        ensures
            final(cpu).wf(),
            final(cpu)@ == (CpuView { macl: w32(old(cpu)@.reg(operand_value(dest) as int) * old(cpu)@.reg(operand_value(src) as int)), ..old(cpu)@ }),
    {
        let rn = cpu.reg(dest);
        let rm = cpu.reg(src);
        let v = wmul(rn, rm);
        cpu.set_macl(v);
    }

    /// Writes the low 32 bits of the signed product into MACL; the low word of a product does not depend on the signedness of its factors.
    fn mulsw(dest: Operand, src: Operand, cpu: &mut Cpu)
        requires
            old(cpu).wf(),
            reg_ok(dest),
            reg_ok(src),
        ensures
            final(cpu).wf(),
            final(cpu)@ == (CpuView { macl: w32(old(cpu)@.reg(operand_value(dest) as int) * old(cpu)@.reg(operand_value(src) as int)), ..old(cpu)@ }),
    {
        let rn = cpu.reg(dest);
        let rm = cpu.reg(src);
        let v = wmul(rn, rm);
        cpu.set_macl(v);
    }

    /// Multiplies the low 16-bit halves, unsigned, into MACL.
    fn muluw(dest: Operand, src: Operand, cpu: &mut Cpu)
        requires
            old(cpu).wf(),
            reg_ok(dest),
            reg_ok(src),
        ensures
            final(cpu).wf(),
            final(cpu)@ == (CpuView { macl: w32((old(cpu)@.reg(operand_value(dest) as int) & 0xFFFFu32) * (old(cpu)@.reg(operand_value(src) as int) & 0xFFFFu32)), ..old(cpu)@ }),
    {
        let rn = cpu.reg(dest);
        let rm = cpu.reg(src);
        let v = wmul(rn & 0xFFFF, rm & 0xFFFF);
        cpu.set_macl(v);
    }

    /// Adds the sign-extended 8-bit immediate to the register, wrapping.
    fn addi(dest: Operand, src: Operand, cpu: &mut Cpu)
        requires
            old(cpu).wf(),
            reg_ok(dest),
            src is ImmediateOperand,
        ensures
            final(cpu).wf(),
            final(cpu)@ == old(cpu)@.with_reg(
                operand_value(dest) as int,
                w32(old(cpu)@.reg(operand_value(dest) as int) + sx8(operand_value(src))),
            ),
    {
        let rn = cpu.reg(dest);
        let v = wadd(rn, sext8u(src.unwrap()));
        cpu.set_reg(dest, v);
    }

    /// Adds the registers and the incoming T bit, wrapping; T reports the
    /// unsigned carry out of the full sum.
    fn addc(dest: Operand, src: Operand, cpu: &mut Cpu)
        requires
            old(cpu).wf(),
            reg_ok(dest),
            reg_ok(src),
        ensures
            final(cpu).wf(),
            final(cpu)@ == old(cpu)@.with_reg(
                operand_value(dest) as int,
                w32(
                    old(cpu)@.reg(operand_value(dest) as int) + old(cpu)@.reg(
                        operand_value(src) as int,
                    ) + old(cpu)@.t01(),
                ),
            ).with_t(
                old(cpu)@.reg(operand_value(dest) as int) + old(cpu)@.reg(
                    operand_value(src) as int,
                ) + old(cpu)@.t01() > 0xFFFF_FFFFu32,
            ),
    {
        let rn = cpu.reg(dest);
        let rm = cpu.reg(src);
        let t: u32 = if cpu.status.is_carry() {
            1
        } else {
            0
        };
        let sum: u64 = (rn as u64) + (rm as u64) + (t as u64);
        let v = (sum % 0x1_0000_0000) as u32;
        cpu.set_reg(dest, v);
        cpu.set_t(sum > 0xFFFF_FFFF);
    }

    /// Adds the registers, wrapping; T reports signed overflow: the
    /// operands agree in sign and the result does not.
    fn addv(dest: Operand, src: Operand, cpu: &mut Cpu)
        requires
            old(cpu).wf(),
            reg_ok(dest),
            reg_ok(src),
        ensures
            final(cpu).wf(),
            final(cpu)@ == ({
                let n = operand_value(dest) as int;
                let m = operand_value(src) as int;
                let res = w32(old(cpu)@.reg(n) + old(cpu)@.reg(m));
                old(cpu)@.with_reg(n, res).with_t(
                    ((old(cpu)@.reg(n) < 0x8000_0000u32) == (old(cpu)@.reg(m) < 0x8000_0000u32))
                        && ((res < 0x8000_0000u32) != (old(cpu)@.reg(n) < 0x8000_0000u32)),
                )
            }),
    {
        let rn = cpu.reg(dest);
        let rm = cpu.reg(src);
        let res = wadd(rn, rm);
        cpu.set_reg(dest, res);
        cpu.set_t(((rn < 0x8000_0000) == (rm < 0x8000_0000)) && ((res < 0x8000_0000) != (rn
            < 0x8000_0000)));
    }

    /// Decrements the register, wrapping; T is set iff the result is zero.
    fn dt(dest: Operand, cpu: &mut Cpu)
        requires
            old(cpu).wf(),
            reg_ok(dest),
        ensures
            final(cpu).wf(),
            final(cpu)@ == old(cpu)@.with_reg(
                operand_value(dest) as int,
                w32(old(cpu)@.reg(operand_value(dest) as int) - 1),
            ).with_t(w32(old(cpu)@.reg(operand_value(dest) as int) - 1) == 0u32),
    {
        let rn = cpu.reg(dest);
        let v = wsub(rn, 1);
        cpu.set_reg(dest, v);
        cpu.set_t(v == 0);
    }

    /// Sets T iff R0 equals the sign-extended immediate.
    fn cmpeqimm(imm: Operand, cpu: &mut Cpu)
        requires
            old(cpu).wf(),
            imm is ImmediateOperand,
        ensures
            final(cpu).wf(),
            final(cpu)@ == old(cpu)@.with_t(old(cpu)@.reg(0) == sx8(operand_value(imm))),
    {
        let v = sext8u(imm.unwrap());
        let r0 = cpu.reg(Operand::RegisterOperand(0));
        cpu.set_t(r0 == v);
    }

    /// Sets T iff the AND of R0 and the immediate byte is zero.
    fn tsti(imm: Operand, cpu: &mut Cpu)
        requires
            old(cpu).wf(),
            imm is ImmediateOperand,
        ensures
            final(cpu).wf(),
            final(cpu)@ == old(cpu)@.with_t(
                (old(cpu)@.reg(0) & (operand_value(imm) as u32)) == 0u32,
            ),
    {
        let r0 = cpu.reg(Operand::RegisterOperand(0));
        let temp = r0 & (imm.unwrap() as u32);
        cpu.set_t(temp == 0);
    }

    /// Loads a register with the sign-extended 8-bit immediate.
    fn mov_const_sign(dest: Operand, imm: Operand, cpu: &mut Cpu)
        requires
            old(cpu).wf(),
            reg_ok(dest),
            imm is ImmediateOperand,
        ensures
            final(cpu).wf(),
            final(cpu)@ == old(cpu)@.with_reg(operand_value(dest) as int, sx8(operand_value(imm))),
    {
        let v = sext8u(imm.unwrap());
        cpu.set_reg(dest, v);
    }

    /// Loads R0 with the long-aligned PC-relative address of the operand.
    fn mov_a(disp: Operand, cpu: &mut Cpu)
        requires
            old(cpu).wf(),
            disp is DisplacementOperand,
        ensures
            final(cpu).wf(),
            final(cpu)@ == old(cpu)@.with_reg(
                0,
                w32((old(cpu)@.pc & 0xFFFF_FFFCu32) + 4 + 4 * operand_value(disp)),
            ),
    {
        let base = cpu.pc & 0xFFFFFFFC;
        let a = wadd3(base, 4, (disp.unwrap() as u32) * 4);
        cpu.set_reg(Operand::RegisterOperand(0), a);
    }

    /// Stores the low byte of the source at the address in the destination register.
    fn mov_data_store_b(x: Operand, y: Operand, cpu: &Cpu, mem: &mut Memory)
        requires
            cpu.wf(),
            old(mem).wf(),
            reg_ok(x) && reg_ok(y),
            can_rw8(old(mem)@, (cpu@.reg(operand_value(x) as int)) as int),
        ensures
            final(mem).wf(),
            final(mem)@.ranges == old(mem)@.ranges,
            final(mem)@.lo == old(mem)@.lo,
            final(mem)@.hi == old(mem)@.hi,
            final(mem)@.cells.len() == old(mem)@.cells.len(),
            wrote8(old(mem)@, final(mem)@, (cpu@.reg(operand_value(x) as int)) as int, ((cpu@.reg(operand_value(y) as int)) as u8)),
    {
        let a = cpu.reg(x);
        let v = cpu.reg(y) as u8;
        mem.write_u8(a as usize, v);
    }

    /// Stores the low word of the source at the address in the destination register.
    fn mov_data_store_w(x: Operand, y: Operand, cpu: &Cpu, mem: &mut Memory)
        requires
            cpu.wf(),
            old(mem).wf(),
            reg_ok(x) && reg_ok(y),
            can_write16(old(mem)@, (cpu@.reg(operand_value(x) as int)) as int),
        ensures
            final(mem).wf(),
            final(mem)@.ranges == old(mem)@.ranges,
            final(mem)@.lo == old(mem)@.lo,
            final(mem)@.hi == old(mem)@.hi,
            final(mem)@.cells.len() == old(mem)@.cells.len(),
            wrote16(old(mem)@, final(mem)@, (cpu@.reg(operand_value(x) as int)) as int, ((cpu@.reg(operand_value(y) as int)) as u16)),
    {
        let a = cpu.reg(x);
        let v = cpu.reg(y) as u16;
        mem.write_u16(a as usize, v);
    }

    /// Stores the source at the address in the destination register.
    fn mov_data_store_l(x: Operand, y: Operand, cpu: &Cpu, mem: &mut Memory)
        requires
            cpu.wf(),
            old(mem).wf(),
            reg_ok(x) && reg_ok(y),
            can_write32(old(mem)@, (cpu@.reg(operand_value(x) as int)) as int),
        ensures
            final(mem).wf(),
            final(mem)@.ranges == old(mem)@.ranges,
            final(mem)@.lo == old(mem)@.lo,
            final(mem)@.hi == old(mem)@.hi,
            final(mem)@.cells.len() == old(mem)@.cells.len(),
            wrote32(old(mem)@, final(mem)@, (cpu@.reg(operand_value(x) as int)) as int, cpu@.reg(operand_value(y) as int)),
    {
        let a = cpu.reg(x);
        let v = cpu.reg(y);
        mem.write_u32(a as usize, v);
    }

    /// Stores the low byte of the source at R0 plus the destination register.
    fn mov_data_store_r0b(x: Operand, y: Operand, cpu: &Cpu, mem: &mut Memory)
        requires
            cpu.wf(),
            old(mem).wf(),
            reg_ok(x) && reg_ok(y),
            can_rw8(old(mem)@, (w32(cpu@.reg(operand_value(x) as int) + cpu@.reg(0))) as int),
        ensures
            final(mem).wf(),
            final(mem)@.ranges == old(mem)@.ranges,
            final(mem)@.lo == old(mem)@.lo,
            final(mem)@.hi == old(mem)@.hi,
            final(mem)@.cells.len() == old(mem)@.cells.len(),
            wrote8(old(mem)@, final(mem)@, (w32(cpu@.reg(operand_value(x) as int) + cpu@.reg(0))) as int, ((cpu@.reg(operand_value(y) as int)) as u8)),
    {
        let a = wadd(cpu.reg(x), cpu.reg(Operand::RegisterOperand(0)));
        let v = cpu.reg(y) as u8;
        mem.write_u8(a as usize, v);
    }

    /// Stores the low word of the source at R0 plus the destination register.
    fn mov_data_store_r0w(x: Operand, y: Operand, cpu: &Cpu, mem: &mut Memory)
        requires
            cpu.wf(),
            old(mem).wf(),
            reg_ok(x) && reg_ok(y),
            can_write16(old(mem)@, (w32(cpu@.reg(operand_value(x) as int) + cpu@.reg(0))) as int),
        ensures
            final(mem).wf(),
            final(mem)@.ranges == old(mem)@.ranges,
            final(mem)@.lo == old(mem)@.lo,
            final(mem)@.hi == old(mem)@.hi,
            final(mem)@.cells.len() == old(mem)@.cells.len(),
            wrote16(old(mem)@, final(mem)@, (w32(cpu@.reg(operand_value(x) as int) + cpu@.reg(0))) as int, ((cpu@.reg(operand_value(y) as int)) as u16)),
    {
        let a = wadd(cpu.reg(x), cpu.reg(Operand::RegisterOperand(0)));
        let v = cpu.reg(y) as u16;
        mem.write_u16(a as usize, v);
    }

    /// Stores the source at R0 plus the destination register.
    fn mov_data_store_r0l(x: Operand, y: Operand, cpu: &Cpu, mem: &mut Memory)
        requires
            cpu.wf(),
            old(mem).wf(),
            reg_ok(x) && reg_ok(y),
            can_write32(old(mem)@, (w32(cpu@.reg(operand_value(x) as int) + cpu@.reg(0))) as int),
        ensures
            final(mem).wf(),
            final(mem)@.ranges == old(mem)@.ranges,
            final(mem)@.lo == old(mem)@.lo,
            final(mem)@.hi == old(mem)@.hi,
            final(mem)@.cells.len() == old(mem)@.cells.len(),
            wrote32(old(mem)@, final(mem)@, (w32(cpu@.reg(operand_value(x) as int) + cpu@.reg(0))) as int, cpu@.reg(operand_value(y) as int)),
    {
        let a = wadd(cpu.reg(x), cpu.reg(Operand::RegisterOperand(0)));
        let v = cpu.reg(y);
        mem.write_u32(a as usize, v);
    }

    /// Stores the low byte of R0 at the base register plus the displacement.
    fn mov_struct_store_b(x: Operand, y: Operand, cpu: &Cpu, mem: &mut Memory)
        requires
            cpu.wf(),
            old(mem).wf(),
            reg_ok(x) && y is DisplacementOperand,
            can_rw8(old(mem)@, (w32(cpu@.reg(operand_value(x) as int) + operand_value(y))) as int),
        ensures
            final(mem).wf(),
            final(mem)@.ranges == old(mem)@.ranges,
            final(mem)@.lo == old(mem)@.lo,
            final(mem)@.hi == old(mem)@.hi,
            final(mem)@.cells.len() == old(mem)@.cells.len(),
            wrote8(old(mem)@, final(mem)@, (w32(cpu@.reg(operand_value(x) as int) + operand_value(y))) as int, ((cpu@.reg(0)) as u8)),
    {
        let a = wadd(cpu.reg(x), y.unwrap() as u32);
        let v = cpu.reg(Operand::RegisterOperand(0)) as u8;
        mem.write_u8(a as usize, v);
    }

    /// Stores the low word of R0 at the base register plus twice the displacement.
    fn mov_struct_store_w(x: Operand, y: Operand, cpu: &Cpu, mem: &mut Memory)
        requires
            cpu.wf(),
            old(mem).wf(),
            reg_ok(x) && y is DisplacementOperand,
            can_write16(old(mem)@, (w32(cpu@.reg(operand_value(x) as int) + 2 * operand_value(y))) as int),
        ensures
            final(mem).wf(),
            final(mem)@.ranges == old(mem)@.ranges,
            final(mem)@.lo == old(mem)@.lo,
            final(mem)@.hi == old(mem)@.hi,
            final(mem)@.cells.len() == old(mem)@.cells.len(),
            wrote16(old(mem)@, final(mem)@, (w32(cpu@.reg(operand_value(x) as int) + 2 * operand_value(y))) as int, ((cpu@.reg(0)) as u16)),
    {
        let a = wadd(cpu.reg(x), (y.unwrap() as u32) * 2);
        let v = cpu.reg(Operand::RegisterOperand(0)) as u16;
        mem.write_u16(a as usize, v);
    }

    /// Stores the register named by the high nibble of the operand at the base register plus four times the low nibble.
    fn mov_struct_store_l(x: Operand, y: Operand, cpu: &Cpu, mem: &mut Memory)
        requires
            cpu.wf(),
            old(mem).wf(),
            reg_ok(x) && y is ImmediateOperand,
            can_write32(old(mem)@, (w32(cpu@.reg(operand_value(x) as int) + 4 * (operand_value(y) & 0xFu8))) as int),
        ensures
            final(mem).wf(),
            final(mem)@.ranges == old(mem)@.ranges,
            final(mem)@.lo == old(mem)@.lo,
            final(mem)@.hi == old(mem)@.hi,
            final(mem)@.cells.len() == old(mem)@.cells.len(),
            wrote32(old(mem)@, final(mem)@, (w32(cpu@.reg(operand_value(x) as int) + 4 * (operand_value(y) & 0xFu8))) as int, cpu@.reg((operand_value(y) >> 4u8) as int)),
    {
        let a = wadd(cpu.reg(x), ((y.unwrap() & 0xF) as u32) * 4);
        let yv = y.unwrap();
        proof {
            assert(yv >> 4u8 < 16) by (bit_vector);
        }
        let v = cpu.reg(Operand::RegisterOperand(yv >> 4u8));
        mem.write_u32(a as usize, v);
    }

    /// Stores the low byte of R0 at GBR plus the displacement.
    fn mov_glob_store_b(x: Operand, cpu: &Cpu, mem: &mut Memory)
        requires
            cpu.wf(),
            old(mem).wf(),
            x is DisplacementOperand,
            can_rw8(old(mem)@, (w32(cpu@.gbr + operand_value(x))) as int),
        ensures
            final(mem).wf(),
            final(mem)@.ranges == old(mem)@.ranges,
            final(mem)@.lo == old(mem)@.lo,
            final(mem)@.hi == old(mem)@.hi,
            final(mem)@.cells.len() == old(mem)@.cells.len(),
            wrote8(old(mem)@, final(mem)@, (w32(cpu@.gbr + operand_value(x))) as int, ((cpu@.reg(0)) as u8)),
    {
        let a = wadd(cpu.gbr.value, x.unwrap() as u32);
        let v = cpu.reg(Operand::RegisterOperand(0)) as u8;
        mem.write_u8(a as usize, v);
    }

    /// Stores the low word of R0 at GBR plus twice the displacement.
    fn mov_glob_store_w(x: Operand, cpu: &Cpu, mem: &mut Memory)
        requires
            cpu.wf(),
            old(mem).wf(),
            x is DisplacementOperand,
            can_write16(old(mem)@, (w32(cpu@.gbr + 2 * operand_value(x))) as int),
        ensures
            final(mem).wf(),
            final(mem)@.ranges == old(mem)@.ranges,
            final(mem)@.lo == old(mem)@.lo,
            final(mem)@.hi == old(mem)@.hi,
            final(mem)@.cells.len() == old(mem)@.cells.len(),
            wrote16(old(mem)@, final(mem)@, (w32(cpu@.gbr + 2 * operand_value(x))) as int, ((cpu@.reg(0)) as u16)),
    {
        let a = wadd(cpu.gbr.value, (x.unwrap() as u32) * 2);
        let v = cpu.reg(Operand::RegisterOperand(0)) as u16;
        mem.write_u16(a as usize, v);
    }

    /// Stores R0 at GBR plus four times the displacement.
    fn mov_glob_store_l(x: Operand, cpu: &Cpu, mem: &mut Memory)
        requires
            cpu.wf(),
            old(mem).wf(),
            x is DisplacementOperand,
            can_write32(old(mem)@, (w32(cpu@.gbr + 4 * operand_value(x))) as int),
        ensures
            final(mem).wf(),
            final(mem)@.ranges == old(mem)@.ranges,
            final(mem)@.lo == old(mem)@.lo,
            final(mem)@.hi == old(mem)@.hi,
            final(mem)@.cells.len() == old(mem)@.cells.len(),
            wrote32(old(mem)@, final(mem)@, (w32(cpu@.gbr + 4 * operand_value(x))) as int, cpu@.reg(0)),
    {
        let a = wadd(cpu.gbr.value, (x.unwrap() as u32) * 4);
        let v = cpu.reg(Operand::RegisterOperand(0));
        mem.write_u32(a as usize, v);
    }

    /// A plain long store of R0 at the register address: the cache prefetch has no architectural effect here.
    fn movca(x: Operand, cpu: &Cpu, mem: &mut Memory)
        requires
            cpu.wf(),
            old(mem).wf(),
            reg_ok(x),
            can_write32(old(mem)@, (cpu@.reg(operand_value(x) as int)) as int),
        ensures
            final(mem).wf(),
            final(mem)@.ranges == old(mem)@.ranges,
            final(mem)@.lo == old(mem)@.lo,
            final(mem)@.hi == old(mem)@.hi,
            final(mem)@.cells.len() == old(mem)@.cells.len(),
            wrote32(old(mem)@, final(mem)@, (cpu@.reg(operand_value(x) as int)) as int, cpu@.reg(0)),
    {
        let a = cpu.reg(x);
        let v = cpu.reg(Operand::RegisterOperand(0));
        mem.write_u32(a as usize, v);
    }

    /// Decrements the destination register by 1, then stores the low byte of the source there.
    fn mov_data_store_b1(x: Operand, y: Operand, cpu: &mut Cpu, mem: &mut Memory)
        requires
            old(cpu).wf(),
            old(mem).wf(),
            reg_ok(x) && reg_ok(y),
            can_rw8(old(mem)@, (w32(old(cpu)@.reg(operand_value(x) as int) - 1)) as int),
        ensures
            final(cpu).wf(),
            final(mem).wf(),
            final(mem)@.ranges == old(mem)@.ranges,
            final(mem)@.lo == old(mem)@.lo,
            final(mem)@.hi == old(mem)@.hi,
            final(mem)@.cells.len() == old(mem)@.cells.len(),
            final(cpu)@ == old(cpu)@.with_reg(
                operand_value(x) as int,
                w32(old(cpu)@.reg(operand_value(x) as int) - 1),
            ),
            wrote8(
                old(mem)@,
                final(mem)@,
                (w32(old(cpu)@.reg(operand_value(x) as int) - 1)) as int,
                ((final(cpu)@.reg(operand_value(y) as int)) as u8),
            ),
    {
        let a = wsub(cpu.reg(x), 1);
        cpu.set_reg(x, a);
        let v = cpu.reg(y) as u8;
        mem.write_u8(a as usize, v);
    }

    /// Decrements the destination register by 2, then stores the low word of the source there.
    fn mov_data_store_w2(x: Operand, y: Operand, cpu: &mut Cpu, mem: &mut Memory)
        requires
            old(cpu).wf(),
            old(mem).wf(),
            reg_ok(x) && reg_ok(y),
            can_write16(old(mem)@, (w32(old(cpu)@.reg(operand_value(x) as int) - 2)) as int),
        ensures
            final(cpu).wf(),
            final(mem).wf(),
            final(mem)@.ranges == old(mem)@.ranges,
            final(mem)@.lo == old(mem)@.lo,
            final(mem)@.hi == old(mem)@.hi,
            final(mem)@.cells.len() == old(mem)@.cells.len(),
            final(cpu)@ == old(cpu)@.with_reg(
                operand_value(x) as int,
                w32(old(cpu)@.reg(operand_value(x) as int) - 2),
            ),
            wrote16(
                old(mem)@,
                final(mem)@,
                (w32(old(cpu)@.reg(operand_value(x) as int) - 2)) as int,
                ((final(cpu)@.reg(operand_value(y) as int)) as u16),
            ),
    {
        let a = wsub(cpu.reg(x), 2);
        cpu.set_reg(x, a);
        let v = cpu.reg(y) as u16;
        mem.write_u16(a as usize, v);
    }

    /// Decrements the destination register by 4, then stores the source there.
    fn mov_data_store_l4(x: Operand, y: Operand, cpu: &mut Cpu, mem: &mut Memory)
        requires
            old(cpu).wf(),
            old(mem).wf(),
            reg_ok(x) && reg_ok(y),
            can_write32(old(mem)@, (w32(old(cpu)@.reg(operand_value(x) as int) - 4)) as int),
        ensures
            final(cpu).wf(),
            final(mem).wf(),
            final(mem)@.ranges == old(mem)@.ranges,
            final(mem)@.lo == old(mem)@.lo,
            final(mem)@.hi == old(mem)@.hi,
            final(mem)@.cells.len() == old(mem)@.cells.len(),
            final(cpu)@ == old(cpu)@.with_reg(
                operand_value(x) as int,
                w32(old(cpu)@.reg(operand_value(x) as int) - 4),
            ),
            wrote32(
                old(mem)@,
                final(mem)@,
                (w32(old(cpu)@.reg(operand_value(x) as int) - 4)) as int,
                final(cpu)@.reg(operand_value(y) as int),
            ),
    {
        let a = wsub(cpu.reg(x), 4);
        cpu.set_reg(x, a);
        let v = cpu.reg(y);
        mem.write_u32(a as usize, v);
    }

    /// Decrements the register by 4, then stores MACH there.
    fn stslmach(x: Operand, cpu: &mut Cpu, mem: &mut Memory)
        requires
            old(cpu).wf(),
            old(mem).wf(),
            reg_ok(x),
            can_write32(old(mem)@, (w32(old(cpu)@.reg(operand_value(x) as int) - 4)) as int),
        ensures
            final(cpu).wf(),
            final(mem).wf(),
            final(mem)@.ranges == old(mem)@.ranges,
            final(mem)@.lo == old(mem)@.lo,
            final(mem)@.hi == old(mem)@.hi,
            final(mem)@.cells.len() == old(mem)@.cells.len(),
            final(cpu)@ == old(cpu)@.with_reg(
                operand_value(x) as int,
                w32(old(cpu)@.reg(operand_value(x) as int) - 4),
            ),
            wrote32(
                old(mem)@,
                final(mem)@,
                (w32(old(cpu)@.reg(operand_value(x) as int) - 4)) as int,
                final(cpu)@.mach,
            ),
    {
        let a = wsub(cpu.reg(x), 4);
        cpu.set_reg(x, a);
        let v = cpu.mach.value;
        mem.write_u32(a as usize, v);
    }

    /// Decrements the register by 4, then stores MACL there.
    fn stslmacl(x: Operand, cpu: &mut Cpu, mem: &mut Memory)
        requires
            old(cpu).wf(),
            old(mem).wf(),
            reg_ok(x),
            can_write32(old(mem)@, (w32(old(cpu)@.reg(operand_value(x) as int) - 4)) as int),
        ensures
            final(cpu).wf(),
            final(mem).wf(),
            final(mem)@.ranges == old(mem)@.ranges,
            final(mem)@.lo == old(mem)@.lo,
            final(mem)@.hi == old(mem)@.hi,
            final(mem)@.cells.len() == old(mem)@.cells.len(),
            final(cpu)@ == old(cpu)@.with_reg(
                operand_value(x) as int,
                w32(old(cpu)@.reg(operand_value(x) as int) - 4),
            ),
            wrote32(
                old(mem)@,
                final(mem)@,
                (w32(old(cpu)@.reg(operand_value(x) as int) - 4)) as int,
                final(cpu)@.macl,
            ),
    {
        let a = wsub(cpu.reg(x), 4);
        cpu.set_reg(x, a);
        let v = cpu.macl.value;
        mem.write_u32(a as usize, v);
    }

    /// Decrements the register by 4, then stores the link register there.
    fn stslpr(x: Operand, cpu: &mut Cpu, mem: &mut Memory)
        requires
            old(cpu).wf(),
            old(mem).wf(),
            reg_ok(x),
            can_write32(old(mem)@, (w32(old(cpu)@.reg(operand_value(x) as int) - 4)) as int),
        ensures
            final(cpu).wf(),
            final(mem).wf(),
            final(mem)@.ranges == old(mem)@.ranges,
            final(mem)@.lo == old(mem)@.lo,
            final(mem)@.hi == old(mem)@.hi,
            final(mem)@.cells.len() == old(mem)@.cells.len(),
            final(cpu)@ == old(cpu)@.with_reg(
                operand_value(x) as int,
                w32(old(cpu)@.reg(operand_value(x) as int) - 4),
            ),
            wrote32(
                old(mem)@,
                final(mem)@,
                (w32(old(cpu)@.reg(operand_value(x) as int) - 4)) as int,
                final(cpu)@.pr,
            ),
    {
        let a = wsub(cpu.reg(x), 4);
        cpu.set_reg(x, a);
        let v = cpu.pr;
        mem.write_u32(a as usize, v);
    }

    /// Decrements the destination register by 4, then stores the single-precision bit pattern of the source there.
    fn fmov_store_s4(x: Operand, y: Operand, cpu: &mut Cpu, mem: &mut Memory)
        requires
            old(cpu).wf(),
            old(mem).wf(),
            reg_ok(x) && reg_ok(y),
            can_write32(old(mem)@, (w32(old(cpu)@.reg(operand_value(x) as int) - 4)) as int),
        ensures
            final(cpu).wf(),
            final(mem).wf(),
            final(mem)@.ranges == old(mem)@.ranges,
            final(mem)@.lo == old(mem)@.lo,
            final(mem)@.hi == old(mem)@.hi,
            final(mem)@.cells.len() == old(mem)@.cells.len(),
            final(cpu)@ == old(cpu)@.with_reg(
                operand_value(x) as int,
                w32(old(cpu)@.reg(operand_value(x) as int) - 4),
            ),
            wrote32(
                old(mem)@,
                final(mem)@,
                (w32(old(cpu)@.reg(operand_value(x) as int) - 4)) as int,
                final(cpu)@.freg(operand_value(y) as int),
            ),
    {
        let a = wsub(cpu.reg(x), 4);
        cpu.set_reg(x, a);
        let v = cpu.fpu(y).value;
        mem.write_u32(a as usize, v);
    }

    /// Loads the sign-extended byte at the source-register address into the destination.
    fn mov_data_sign_load_b(x: Operand, y: Operand, cpu: &mut Cpu, mem: &Memory)
        requires
            old(cpu).wf(),
            mem.wf(),
            reg_ok(x) && reg_ok(y),
            can_read16(mem@, (old(cpu)@.reg(operand_value(y) as int)) as int),
        ensures
            final(cpu).wf(),
            exists|v: u8|
                #[trigger] read8_rel(mem@, (old(cpu)@.reg(operand_value(y) as int)) as int, v) && final(cpu)@
                    == old(cpu)@.with_reg(operand_value(x) as int, sx8(v)),
    {
        let a = cpu.reg(y);
        let v = mem.read_u8(a as usize);
        proof {
            assert(read8_rel(mem@, a as int, v));
        }
        let ghost gv = v;
        let sv = sext8u(v);
        cpu.set_reg(x, sv);
    }

    /// Loads the sign-extended word at the source-register address into the destination.
    fn mov_data_sign_load_w(x: Operand, y: Operand, cpu: &mut Cpu, mem: &Memory)
        requires
            old(cpu).wf(),
            mem.wf(),
            reg_ok(x) && reg_ok(y),
            can_read16(mem@, (old(cpu)@.reg(operand_value(y) as int)) as int),
        ensures
            final(cpu).wf(),
            exists|v: u16|
                #[trigger] read16_rel(mem@, (old(cpu)@.reg(operand_value(y) as int)) as int, v) && final(cpu)@
                    == old(cpu)@.with_reg(operand_value(x) as int, sx16(v)),
    {
        let a = cpu.reg(y);
        let v = mem.read_u16(a as usize);
        proof {
            assert(read16_rel(mem@, a as int, v));
        }
        let ghost gv = v;
        let sv = sext16u(v);
        cpu.set_reg(x, sv);
    }

    /// Loads the 32-bit value at the source-register address into the destination.
    fn mov_data_sign_load_l(x: Operand, y: Operand, cpu: &mut Cpu, mem: &Memory)
        requires
            old(cpu).wf(),
            mem.wf(),
            reg_ok(x) && reg_ok(y),
            can_read32(mem@, (old(cpu)@.reg(operand_value(y) as int)) as int),
        ensures
            final(cpu).wf(),
            exists|v: u32|
                #[trigger] read32_rel(mem@, (old(cpu)@.reg(operand_value(y) as int)) as int, v) && final(cpu)@
                    == old(cpu)@.with_reg(operand_value(x) as int, v),
    {
        let a = cpu.reg(y);
        let v = mem.read_u32(a as usize);
        proof {
            assert(read32_rel(mem@, a as int, v));
        }
        let ghost gv = v;
        cpu.set_reg(x, v);
    }

    /// Loads the sign-extended byte at the source address, then advances the source register by 1 unless source and destination coincide.
    fn mov_data_sign_load_b1(x: Operand, y: Operand, cpu: &mut Cpu, mem: &Memory)
        requires
            old(cpu).wf(),
            mem.wf(),
            reg_ok(x),
            reg_ok(y),
            can_read16(mem@, (old(cpu)@.reg(operand_value(y) as int)) as int),
        ensures
            final(cpu).wf(),
            exists|v: u8|
                #[trigger] read8_rel(mem@, (old(cpu)@.reg(operand_value(y) as int)) as int, v) && final(cpu)@
                    == (if x == y {
                    old(cpu)@.with_reg(operand_value(x) as int, sx8(v))
                } else {
                    old(cpu)@.with_reg(operand_value(x) as int, sx8(v)).with_reg(
                        operand_value(y) as int,
                        w32(old(cpu)@.reg(operand_value(y) as int) + 1),
                    )
                }),
    {
        let rm = cpu.reg(y);
        let a = rm;
        let v = mem.read_u8(a as usize);
        proof {
            assert(read8_rel(mem@, a as int, v));
        }
        let sv = sext8u(v);
        cpu.set_reg(x, sv);
        if !(x == y) {
            let inc = wadd(rm, 1);
            cpu.set_reg(y, inc);
        }
    }

    /// Loads the sign-extended word at the source address, then advances the source register by 2 unless source and destination coincide.
    fn mov_data_sign_load_w2(x: Operand, y: Operand, cpu: &mut Cpu, mem: &Memory)
        requires
            old(cpu).wf(),
            mem.wf(),
            reg_ok(x),
            reg_ok(y),
            can_read16(mem@, (old(cpu)@.reg(operand_value(y) as int)) as int),
        ensures
            final(cpu).wf(),
            exists|v: u16|
                #[trigger] read16_rel(mem@, (old(cpu)@.reg(operand_value(y) as int)) as int, v) && final(cpu)@
                    == (if x == y {
                    old(cpu)@.with_reg(operand_value(x) as int, sx16(v))
                } else {
                    old(cpu)@.with_reg(operand_value(x) as int, sx16(v)).with_reg(
                        operand_value(y) as int,
                        w32(old(cpu)@.reg(operand_value(y) as int) + 2),
                    )
                }),
    {
        let rm = cpu.reg(y);
        let a = rm;
        let v = mem.read_u16(a as usize);
        proof {
            assert(read16_rel(mem@, a as int, v));
        }
        let sv = sext16u(v);
        cpu.set_reg(x, sv);
        if !(x == y) {
            let inc = wadd(rm, 2);
            cpu.set_reg(y, inc);
        }
    }

    /// Loads the 32-bit value at the source address, then advances the source register by 4 unless source and destination coincide.
    fn mov_data_sign_load_l4(x: Operand, y: Operand, cpu: &mut Cpu, mem: &Memory)
        requires
            old(cpu).wf(),
            mem.wf(),
            reg_ok(x),
            reg_ok(y),
            can_read32(mem@, (old(cpu)@.reg(operand_value(y) as int)) as int),
        ensures
            final(cpu).wf(),
            exists|v: u32|
                #[trigger] read32_rel(mem@, (old(cpu)@.reg(operand_value(y) as int)) as int, v) && final(cpu)@
                    == (if x == y {
                    old(cpu)@.with_reg(operand_value(x) as int, v)
                } else {
                    old(cpu)@.with_reg(operand_value(x) as int, v).with_reg(
                        operand_value(y) as int,
                        w32(old(cpu)@.reg(operand_value(y) as int) + 4),
                    )
                }),
    {
        let rm = cpu.reg(y);
        let a = rm;
        let v = mem.read_u32(a as usize);
        proof {
            assert(read32_rel(mem@, a as int, v));
        }
        cpu.set_reg(x, v);
        if !(x == y) {
            let inc = wadd(rm, 4);
            cpu.set_reg(y, inc);
        }
    }

    /// Loads the sign-extended byte at R0 plus the source register into the destination.
    fn mov_data_load_r0b(x: Operand, y: Operand, cpu: &mut Cpu, mem: &Memory)
        requires
            old(cpu).wf(),
            mem.wf(),
            reg_ok(x) && reg_ok(y),
            can_read16(mem@, (w32(old(cpu)@.reg(operand_value(y) as int) + old(cpu)@.reg(0))) as int),
        ensures
            final(cpu).wf(),
            exists|v: u8|
                #[trigger] read8_rel(mem@, (w32(old(cpu)@.reg(operand_value(y) as int) + old(cpu)@.reg(0))) as int, v) && final(cpu)@
                    == old(cpu)@.with_reg(operand_value(x) as int, sx8(v)),
    {
        let a = wadd(cpu.reg(y), cpu.reg(Operand::RegisterOperand(0)));
        let v = mem.read_u8(a as usize);
        proof {
            assert(read8_rel(mem@, a as int, v));
        }
        let ghost gv = v;
        let sv = sext8u(v);
        cpu.set_reg(x, sv);
    }

    /// Loads the sign-extended word at R0 plus the source register into the destination.
    fn mov_data_load_r0w(x: Operand, y: Operand, cpu: &mut Cpu, mem: &Memory)
        requires
            old(cpu).wf(),
            mem.wf(),
            reg_ok(x) && reg_ok(y),
            can_read16(mem@, (w32(old(cpu)@.reg(operand_value(y) as int) + old(cpu)@.reg(0))) as int),
        ensures
            final(cpu).wf(),
            exists|v: u16|
                #[trigger] read16_rel(mem@, (w32(old(cpu)@.reg(operand_value(y) as int) + old(cpu)@.reg(0))) as int, v) && final(cpu)@
                    == old(cpu)@.with_reg(operand_value(x) as int, sx16(v)),
    {
        let a = wadd(cpu.reg(y), cpu.reg(Operand::RegisterOperand(0)));
        let v = mem.read_u16(a as usize);
        proof {
            assert(read16_rel(mem@, a as int, v));
        }
        let ghost gv = v;
        let sv = sext16u(v);
        cpu.set_reg(x, sv);
    }

    /// Loads the 32-bit value at R0 plus the source register into the destination.
    fn mov_data_load_r0l(x: Operand, y: Operand, cpu: &mut Cpu, mem: &Memory)
        requires
            old(cpu).wf(),
            mem.wf(),
            reg_ok(x) && reg_ok(y),
            can_read32(mem@, (w32(old(cpu)@.reg(operand_value(y) as int) + old(cpu)@.reg(0))) as int),
        ensures
            final(cpu).wf(),
            exists|v: u32|
                #[trigger] read32_rel(mem@, (w32(old(cpu)@.reg(operand_value(y) as int) + old(cpu)@.reg(0))) as int, v) && final(cpu)@
                    == old(cpu)@.with_reg(operand_value(x) as int, v),
    {
        let a = wadd(cpu.reg(y), cpu.reg(Operand::RegisterOperand(0)));
        let v = mem.read_u32(a as usize);
        proof {
            assert(read32_rel(mem@, a as int, v));
        }
        let ghost gv = v;
        cpu.set_reg(x, v);
    }

    /// Loads the sign-extended word at PC + 4 plus twice the displacement into the destination.
    fn mov_const_load_w(x: Operand, y: Operand, cpu: &mut Cpu, mem: &Memory)
        requires
            old(cpu).wf(),
            mem.wf(),
            reg_ok(x) && y is DisplacementOperand,
            can_read16(mem@, (w32(old(cpu)@.pc + 4 + 2 * operand_value(y))) as int),
        ensures
            final(cpu).wf(),
            exists|v: u16|
                #[trigger] read16_rel(mem@, (w32(old(cpu)@.pc + 4 + 2 * operand_value(y))) as int, v) && final(cpu)@
                    == old(cpu)@.with_reg(operand_value(x) as int, sx16(v)),
    {
        let a = wadd3(cpu.pc, 4, (y.unwrap() as u32) * 2);
        let v = mem.read_u16(a as usize);
        proof {
            assert(read16_rel(mem@, a as int, v));
        }
        let ghost gv = v;
        let sv = sext16u(v);
        cpu.set_reg(x, sv);
    }

    /// Loads the 32-bit literal at the long-aligned PC + 4 plus four times the displacement into the destination.
    fn mov_const_load_l(x: Operand, y: Operand, cpu: &mut Cpu, mem: &Memory)
        requires
            old(cpu).wf(),
            mem.wf(),
            reg_ok(x) && y is DisplacementOperand,
            can_read32(mem@, (w32((old(cpu)@.pc & 0xFFFF_FFFCu32) + 4 + 4 * operand_value(y))) as int),
        ensures
            final(cpu).wf(),
            exists|v: u32|
                #[trigger] read32_rel(mem@, (w32((old(cpu)@.pc & 0xFFFF_FFFCu32) + 4 + 4 * operand_value(y))) as int, v) && final(cpu)@
                    == old(cpu)@.with_reg(operand_value(x) as int, v),
    {
        let a = wadd3(cpu.pc & 0xFFFFFFFC, 4, (y.unwrap() as u32) * 4);
        let v = mem.read_u32(a as usize);
        proof {
            assert(read32_rel(mem@, a as int, v));
        }
        let ghost gv = v;
        cpu.set_reg(x, v);
    }

    /// Loads the sign-extended byte at the base register plus the displacement into R0.
    fn mov_struct_load_b(x: Operand, y: Operand, cpu: &mut Cpu, mem: &Memory)
        requires
            old(cpu).wf(),
            mem.wf(),
            reg_ok(x) && y is DisplacementOperand,
            can_read16(mem@, (w32(old(cpu)@.reg(operand_value(x) as int) + operand_value(y))) as int),
        ensures
            final(cpu).wf(),
            exists|v: u8|
                #[trigger] read8_rel(mem@, (w32(old(cpu)@.reg(operand_value(x) as int) + operand_value(y))) as int, v) && final(cpu)@
                    == old(cpu)@.with_reg(0, sx8(v)),
    {
        let a = wadd(cpu.reg(x), y.unwrap() as u32);
        let v = mem.read_u8(a as usize);
        proof {
            assert(read8_rel(mem@, a as int, v));
        }
        let ghost gv = v;
        let sv = sext8u(v);
        cpu.set_reg(Operand::RegisterOperand(0), sv);
    }

    /// Loads the sign-extended word at the base register plus twice the displacement into R0.
    fn mov_struct_load_w(x: Operand, y: Operand, cpu: &mut Cpu, mem: &Memory)
        requires
            old(cpu).wf(),
            mem.wf(),
            reg_ok(x) && y is DisplacementOperand,
            can_read16(mem@, (w32(old(cpu)@.reg(operand_value(x) as int) + 2 * operand_value(y))) as int),
        ensures
            final(cpu).wf(),
            exists|v: u16|
                #[trigger] read16_rel(mem@, (w32(old(cpu)@.reg(operand_value(x) as int) + 2 * operand_value(y))) as int, v) && final(cpu)@
                    == old(cpu)@.with_reg(0, sx16(v)),
    {
        let a = wadd(cpu.reg(x), (y.unwrap() as u32) * 2);
        let v = mem.read_u16(a as usize);
        proof {
            assert(read16_rel(mem@, a as int, v));
        }
        let ghost gv = v;
        let sv = sext16u(v);
        cpu.set_reg(Operand::RegisterOperand(0), sv);
    }

    /// Loads the 32-bit value at the register named by the high nibble plus four times the low nibble into the destination.
    fn mov_struct_load_l(x: Operand, y: Operand, cpu: &mut Cpu, mem: &Memory)
        requires
            old(cpu).wf(),
            mem.wf(),
            reg_ok(x) && y is ImmediateOperand,
            can_read32(mem@, (w32(old(cpu)@.reg((operand_value(y) >> 4u8) as int) + 4 * (operand_value(y) & 0xFu8))) as int),
        ensures
            final(cpu).wf(),
            exists|v: u32|
                #[trigger] read32_rel(mem@, (w32(old(cpu)@.reg((operand_value(y) >> 4u8) as int) + 4 * (operand_value(y) & 0xFu8))) as int, v) && final(cpu)@
                    == old(cpu)@.with_reg(operand_value(x) as int, v),
    {
        let yv = y.unwrap();
        proof {
            assert(yv >> 4u8 < 16) by (bit_vector);
        }
        let a = wadd(
            cpu.reg(Operand::RegisterOperand(yv >> 4u8)),
            ((yv & 0xF) as u32) * 4,
        );
        let v = mem.read_u32(a as usize);
        proof {
            assert(read32_rel(mem@, a as int, v));
        }
        let ghost gv = v;
        cpu.set_reg(x, v);
    }

    /// Loads the sign-extended byte at GBR plus the displacement into R0.
    fn mov_glob_load_b(x: Operand, cpu: &mut Cpu, mem: &Memory)
        requires
            old(cpu).wf(),
            mem.wf(),
            x is DisplacementOperand,
            can_read16(mem@, (w32(old(cpu)@.gbr + operand_value(x))) as int),
        ensures
            final(cpu).wf(),
            exists|v: u8|
                #[trigger] read8_rel(mem@, (w32(old(cpu)@.gbr + operand_value(x))) as int, v) && final(cpu)@
                    == old(cpu)@.with_reg(0, sx8(v)),
    {
        let a = wadd(cpu.gbr.value, x.unwrap() as u32);
        let v = mem.read_u8(a as usize);
        proof {
            assert(read8_rel(mem@, a as int, v));
        }
        let ghost gv = v;
        let sv = sext8u(v);
        cpu.set_reg(Operand::RegisterOperand(0), sv);
    }

    /// Loads the sign-extended word at GBR plus twice the displacement into R0.
    fn mov_glob_load_w(x: Operand, cpu: &mut Cpu, mem: &Memory)
        requires
            old(cpu).wf(),
            mem.wf(),
            x is DisplacementOperand,
            can_read16(mem@, (w32(old(cpu)@.gbr + 2 * operand_value(x))) as int),
        ensures
            final(cpu).wf(),
            exists|v: u16|
                #[trigger] read16_rel(mem@, (w32(old(cpu)@.gbr + 2 * operand_value(x))) as int, v) && final(cpu)@
                    == old(cpu)@.with_reg(0, sx16(v)),
    {
        let a = wadd(cpu.gbr.value, (x.unwrap() as u32) * 2);
        let v = mem.read_u16(a as usize);
        proof {
            assert(read16_rel(mem@, a as int, v));
        }
        let ghost gv = v;
        let sv = sext16u(v);
        cpu.set_reg(Operand::RegisterOperand(0), sv);
    }

    /// Loads the 32-bit value at GBR plus four times the displacement into R0.
    fn mov_glob_load_l(x: Operand, cpu: &mut Cpu, mem: &Memory)
        requires
            old(cpu).wf(),
            mem.wf(),
            x is DisplacementOperand,
            can_read32(mem@, (w32(old(cpu)@.gbr + 4 * operand_value(x))) as int),
        ensures
            final(cpu).wf(),
            exists|v: u32|
                #[trigger] read32_rel(mem@, (w32(old(cpu)@.gbr + 4 * operand_value(x))) as int, v) && final(cpu)@
                    == old(cpu)@.with_reg(0, v),
    {
        let a = wadd(cpu.gbr.value, (x.unwrap() as u32) * 4);
        let v = mem.read_u32(a as usize);
        proof {
            assert(read32_rel(mem@, a as int, v));
        }
        let ghost gv = v;
        cpu.set_reg(Operand::RegisterOperand(0), v);
    }

    /// Pops a long from the register address into the status register, masked per the architecture.
    fn ldclsr(x: Operand, cpu: &mut Cpu, mem: &Memory)
        requires
            old(cpu).wf(),
            mem.wf(),
            reg_ok(x),
            can_read32(mem@, (old(cpu)@.reg(operand_value(x) as int)) as int),
        ensures
            final(cpu).wf(),
            exists|v: u32|
                #[trigger] read32_rel(mem@, (old(cpu)@.reg(operand_value(x) as int)) as int, v) && final(cpu)@
                    == (CpuView { sr: (v & 0x7000_83F3u32) as u32, ..old(cpu)@.with_reg(operand_value(x) as int, w32(old(cpu)@.reg(operand_value(x) as int) + 4)) }),
    {
        let a = cpu.reg(x);
        let v = mem.read_u32(a as usize);
        proof {
            assert(read32_rel(mem@, a as int, v));
        }
        let ghost gv = v;
        let inc = wadd(cpu.reg(x), 4);
        cpu.set_reg(x, inc);
        cpu.set_sr(v & 0x7000_83F3);
    }

    /// Pops a long from the register address into GBR.
    fn ldclgbr(x: Operand, cpu: &mut Cpu, mem: &Memory)
        requires
            old(cpu).wf(),
            mem.wf(),
            reg_ok(x),
            can_read32(mem@, (old(cpu)@.reg(operand_value(x) as int)) as int),
        ensures
            final(cpu).wf(),
            exists|v: u32|
                #[trigger] read32_rel(mem@, (old(cpu)@.reg(operand_value(x) as int)) as int, v) && final(cpu)@
                    == (CpuView { gbr: v, ..old(cpu)@.with_reg(operand_value(x) as int, w32(old(cpu)@.reg(operand_value(x) as int) + 4)) }),
    {
        let a = cpu.reg(x);
        let v = mem.read_u32(a as usize);
        proof {
            assert(read32_rel(mem@, a as int, v));
        }
        let ghost gv = v;
        let inc = wadd(cpu.reg(x), 4);
        cpu.set_reg(x, inc);
        cpu.set_gbr(v);
    }

    /// Pops a long from the register address into VBR.
    fn ldclvbr(x: Operand, cpu: &mut Cpu, mem: &Memory)
        requires
            old(cpu).wf(),
            mem.wf(),
            reg_ok(x),
            can_read32(mem@, (old(cpu)@.reg(operand_value(x) as int)) as int),
        ensures
            final(cpu).wf(),
            exists|v: u32|
                #[trigger] read32_rel(mem@, (old(cpu)@.reg(operand_value(x) as int)) as int, v) && final(cpu)@
                    == (CpuView { vbr: v, ..old(cpu)@.with_reg(operand_value(x) as int, w32(old(cpu)@.reg(operand_value(x) as int) + 4)) }),
    {
        let a = cpu.reg(x);
        let v = mem.read_u32(a as usize);
        proof {
            assert(read32_rel(mem@, a as int, v));
        }
        let ghost gv = v;
        let inc = wadd(cpu.reg(x), 4);
        cpu.set_reg(x, inc);
        cpu.set_vbr(v);
    }

    /// Pops a long from the register address into SSR.
    fn ldclssr(x: Operand, cpu: &mut Cpu, mem: &Memory)
        requires
            old(cpu).wf(),
            mem.wf(),
            reg_ok(x),
            can_read32(mem@, (old(cpu)@.reg(operand_value(x) as int)) as int),
        ensures
            final(cpu).wf(),
            exists|v: u32|
                #[trigger] read32_rel(mem@, (old(cpu)@.reg(operand_value(x) as int)) as int, v) && final(cpu)@
                    == (CpuView { ssr: v, ..old(cpu)@.with_reg(operand_value(x) as int, w32(old(cpu)@.reg(operand_value(x) as int) + 4)) }),
    {
        let a = cpu.reg(x);
        let v = mem.read_u32(a as usize);
        proof {
            assert(read32_rel(mem@, a as int, v));
        }
        let ghost gv = v;
        let inc = wadd(cpu.reg(x), 4);
        cpu.set_reg(x, inc);
        cpu.set_ssr(v);
    }

    /// Pops a long from the register address into SPC.
    fn ldclspc(x: Operand, cpu: &mut Cpu, mem: &Memory)
        requires
            old(cpu).wf(),
            mem.wf(),
            reg_ok(x),
            can_read32(mem@, (old(cpu)@.reg(operand_value(x) as int)) as int),
        ensures
            final(cpu).wf(),
            exists|v: u32|
                #[trigger] read32_rel(mem@, (old(cpu)@.reg(operand_value(x) as int)) as int, v) && final(cpu)@
                    == (CpuView { spc: v, ..old(cpu)@.with_reg(operand_value(x) as int, w32(old(cpu)@.reg(operand_value(x) as int) + 4)) }),
    {
        let a = cpu.reg(x);
        let v = mem.read_u32(a as usize);
        proof {
            assert(read32_rel(mem@, a as int, v));
        }
        let ghost gv = v;
        let inc = wadd(cpu.reg(x), 4);
        cpu.set_reg(x, inc);
        cpu.set_spc(v);
    }

    /// Pops a long from the register address into MACL.
    fn ldslmacl(x: Operand, cpu: &mut Cpu, mem: &Memory)
        requires
            old(cpu).wf(),
            mem.wf(),
            reg_ok(x),
            can_read32(mem@, (old(cpu)@.reg(operand_value(x) as int)) as int),
        ensures
            final(cpu).wf(),
            exists|v: u32|
                #[trigger] read32_rel(mem@, (old(cpu)@.reg(operand_value(x) as int)) as int, v) && final(cpu)@
                    == (CpuView { macl: v, ..old(cpu)@.with_reg(operand_value(x) as int, w32(old(cpu)@.reg(operand_value(x) as int) + 4)) }),
    {
        let a = cpu.reg(x);
        let v = mem.read_u32(a as usize);
        proof {
            assert(read32_rel(mem@, a as int, v));
        }
        let ghost gv = v;
        let inc = wadd(cpu.reg(x), 4);
        cpu.set_reg(x, inc);
        cpu.set_macl(v);
    }

    /// Pops a long from the register address into MACH.
    fn ldslmach(x: Operand, cpu: &mut Cpu, mem: &Memory)
        requires
            old(cpu).wf(),
            mem.wf(),
            reg_ok(x),
            can_read32(mem@, (old(cpu)@.reg(operand_value(x) as int)) as int),
        ensures
            final(cpu).wf(),
            exists|v: u32|
                #[trigger] read32_rel(mem@, (old(cpu)@.reg(operand_value(x) as int)) as int, v) && final(cpu)@
                    == (CpuView { mach: v, ..old(cpu)@.with_reg(operand_value(x) as int, w32(old(cpu)@.reg(operand_value(x) as int) + 4)) }),
    {
        let a = cpu.reg(x);
        let v = mem.read_u32(a as usize);
        proof {
            assert(read32_rel(mem@, a as int, v));
        }
        let ghost gv = v;
        let inc = wadd(cpu.reg(x), 4);
        cpu.set_reg(x, inc);
        cpu.set_mach(v);
    }

    /// Pops a long from the register address into the link register.
    fn ldslpr(x: Operand, cpu: &mut Cpu, mem: &Memory)
        requires
            old(cpu).wf(),
            mem.wf(),
            reg_ok(x),
            can_read32(mem@, (old(cpu)@.reg(operand_value(x) as int)) as int),
        ensures
            final(cpu).wf(),
            exists|v: u32|
                #[trigger] read32_rel(mem@, (old(cpu)@.reg(operand_value(x) as int)) as int, v) && final(cpu)@
                    == (CpuView { pr: v, ..old(cpu)@.with_reg(operand_value(x) as int, w32(old(cpu)@.reg(operand_value(x) as int) + 4)) }),
    {
        let a = cpu.reg(x);
        let v = mem.read_u32(a as usize);
        proof {
            assert(read32_rel(mem@, a as int, v));
        }
        let ghost gv = v;
        let inc = wadd(cpu.reg(x), 4);
        cpu.set_reg(x, inc);
        cpu.set_pr(v);
    }

    /// Pops a long from the register address into FPSCR.
    fn ldsfpscrl(x: Operand, cpu: &mut Cpu, mem: &Memory)
        requires
            old(cpu).wf(),
            mem.wf(),
            reg_ok(x),
            can_read32(mem@, (old(cpu)@.reg(operand_value(x) as int)) as int),
        ensures
            final(cpu).wf(),
            exists|v: u32|
                #[trigger] read32_rel(mem@, (old(cpu)@.reg(operand_value(x) as int)) as int, v) && final(cpu)@
                    == (CpuView { fpscr: v, ..old(cpu)@.with_reg(operand_value(x) as int, w32(old(cpu)@.reg(operand_value(x) as int) + 4)) }),
    {
        let a = cpu.reg(x);
        let v = mem.read_u32(a as usize);
        proof {
            assert(read32_rel(mem@, a as int, v));
        }
        let ghost gv = v;
        let inc = wadd(cpu.reg(x), 4);
        cpu.set_reg(x, inc);
        cpu.set_fpscr(v);
    }

    /// Pops a long from the register address into FPUL.
    fn ldsfpull(x: Operand, cpu: &mut Cpu, mem: &Memory)
        requires
            old(cpu).wf(),
            mem.wf(),
            reg_ok(x),
            can_read32(mem@, (old(cpu)@.reg(operand_value(x) as int)) as int),
        ensures
            final(cpu).wf(),
            exists|v: u32|
                #[trigger] read32_rel(mem@, (old(cpu)@.reg(operand_value(x) as int)) as int, v) && final(cpu)@
                    == (CpuView { fpul: v, ..old(cpu)@.with_reg(operand_value(x) as int, w32(old(cpu)@.reg(operand_value(x) as int) + 4)) }),
    {
        let a = cpu.reg(x);
        let v = mem.read_u32(a as usize);
        proof {
            assert(read32_rel(mem@, a as int, v));
        }
        let ghost gv = v;
        let inc = wadd(cpu.reg(x), 4);
        cpu.set_reg(x, inc);
        cpu.set_fpul(v);
    }

    /// Loads a single-precision bit pattern at the source address into the destination floating register, then advances the source register by 4.
    fn fmov_load_s4(x: Operand, y: Operand, cpu: &mut Cpu, mem: &Memory)
        requires
            old(cpu).wf(),
            mem.wf(),
            reg_ok(x) && reg_ok(y),
            can_read32(mem@, (old(cpu)@.reg(operand_value(y) as int)) as int),
        ensures
            final(cpu).wf(),
            exists|v: u32|
                #[trigger] read32_rel(mem@, (old(cpu)@.reg(operand_value(y) as int)) as int, v) && final(cpu)@
                    == old(cpu)@.with_freg(operand_value(x) as int, v).with_reg(operand_value(y) as int, w32(old(cpu)@.reg(operand_value(y) as int) + 4)),
    {
        let a = cpu.reg(y);
        let v = mem.read_u32(a as usize);
        proof {
            assert(read32_rel(mem@, a as int, v));
        }
        let ghost gv = v;
        cpu.set_fpu(x, v);
        let inc = wadd(cpu.reg(y), 4);
        cpu.set_reg(y, inc);
    }

    /// ANDs the byte at GBR plus R0 with the immediate, in place.
    fn andb(x: Operand, cpu: &Cpu, mem: &mut Memory)
        requires
            cpu.wf(),
            old(mem).wf(),
            x is ImmediateOperand,
            can_rw8(old(mem)@, (w32(cpu@.gbr + cpu@.reg(0))) as int),
        ensures
            final(mem).wf(),
            final(mem)@.ranges == old(mem)@.ranges,
            final(mem)@.lo == old(mem)@.lo,
            final(mem)@.hi == old(mem)@.hi,
            final(mem)@.cells.len() == old(mem)@.cells.len(),
            exists|b: u8|
                #[trigger] read8_rel(old(mem)@, (w32(cpu@.gbr + cpu@.reg(0))) as int, b) && wrote8(
                    old(mem)@,
                    final(mem)@,
                    (w32(cpu@.gbr + cpu@.reg(0))) as int,
                    b & operand_value(x),
                ),
    {
        let a = wadd(cpu.gbr.value, cpu.reg(Operand::RegisterOperand(0)));
        let b = mem.read_u8(a as usize);
        proof {
            assert(read8_rel(mem@, a as int, b));
        }
        mem.write_u8(a as usize, b & x.unwrap());
    }

    /// ORs the byte at GBR plus R0 with the immediate, in place.
    fn orb(x: Operand, cpu: &Cpu, mem: &mut Memory)
        requires
            cpu.wf(),
            old(mem).wf(),
            x is ImmediateOperand,
            can_rw8(old(mem)@, (w32(cpu@.gbr + cpu@.reg(0))) as int),
        ensures
            final(mem).wf(),
            final(mem)@.ranges == old(mem)@.ranges,
            final(mem)@.lo == old(mem)@.lo,
            final(mem)@.hi == old(mem)@.hi,
            final(mem)@.cells.len() == old(mem)@.cells.len(),
            exists|b: u8|
                #[trigger] read8_rel(old(mem)@, (w32(cpu@.gbr + cpu@.reg(0))) as int, b) && wrote8(
                    old(mem)@,
                    final(mem)@,
                    (w32(cpu@.gbr + cpu@.reg(0))) as int,
                    b | operand_value(x),
                ),
    {
        let a = wadd(cpu.gbr.value, cpu.reg(Operand::RegisterOperand(0)));
        let b = mem.read_u8(a as usize);
        proof {
            assert(read8_rel(mem@, a as int, b));
        }
        mem.write_u8(a as usize, b | x.unwrap());
    }

    /// XORs the byte at GBR plus R0 with the immediate, in place.
    fn xorb(x: Operand, cpu: &Cpu, mem: &mut Memory)
        requires
            cpu.wf(),
            old(mem).wf(),
            x is ImmediateOperand,
            can_rw8(old(mem)@, (w32(cpu@.gbr + cpu@.reg(0))) as int),
        ensures
            final(mem).wf(),
            final(mem)@.ranges == old(mem)@.ranges,
            final(mem)@.lo == old(mem)@.lo,
            final(mem)@.hi == old(mem)@.hi,
            final(mem)@.cells.len() == old(mem)@.cells.len(),
            exists|b: u8|
                #[trigger] read8_rel(old(mem)@, (w32(cpu@.gbr + cpu@.reg(0))) as int, b) && wrote8(
                    old(mem)@,
                    final(mem)@,
                    (w32(cpu@.gbr + cpu@.reg(0))) as int,
                    b ^ operand_value(x),
                ),
    {
        let a = wadd(cpu.gbr.value, cpu.reg(Operand::RegisterOperand(0)));
        let b = mem.read_u8(a as usize);
        proof {
            assert(read8_rel(mem@, a as int, b));
        }
        mem.write_u8(a as usize, b ^ x.unwrap());
    }

    /// Sets T iff the AND of the byte at GBR plus R0 and the immediate is zero.
    fn tstb(x: Operand, cpu: &mut Cpu, mem: &Memory)
        requires
            old(cpu).wf(),
            mem.wf(),
            x is ImmediateOperand,
            can_read16(mem@, (w32(old(cpu)@.gbr + old(cpu)@.reg(0))) as int),
        ensures
            final(cpu).wf(),
            exists|b: u8|
                #[trigger] read8_rel(mem@, (w32(old(cpu)@.gbr + old(cpu)@.reg(0))) as int, b)
                    && final(cpu)@ == old(cpu)@.with_t((b & operand_value(x)) == 0u8),
    {
        let a = wadd(cpu.gbr.value, cpu.reg(Operand::RegisterOperand(0)));
        let b = mem.read_u8(a as usize);
        proof {
            assert(read8_rel(mem@, a as int, b));
        }
        cpu.set_t((b & x.unwrap()) == 0);
    }

    /// Reads the byte at the register address, sets T iff it was zero,
    /// and writes it back with bit 7 set.
    fn tas(x: Operand, cpu: &mut Cpu, mem: &mut Memory)
        requires
            old(cpu).wf(),
            old(mem).wf(),
            reg_ok(x),
            can_rw8(old(mem)@, (old(cpu)@.reg(operand_value(x) as int)) as int),
        ensures
            final(cpu).wf(),
            final(mem).wf(),
            final(mem)@.ranges == old(mem)@.ranges,
            final(mem)@.lo == old(mem)@.lo,
            final(mem)@.hi == old(mem)@.hi,
            final(mem)@.cells.len() == old(mem)@.cells.len(),
            exists|b: u8|
                #[trigger] read8_rel(old(mem)@, (old(cpu)@.reg(operand_value(x) as int)) as int, b)
                    && wrote8(
                    old(mem)@,
                    final(mem)@,
                    (old(cpu)@.reg(operand_value(x) as int)) as int,
                    b | 0x80u8,
                ) && final(cpu)@ == old(cpu)@.with_t(b == 0u8),
    {
        let a = cpu.reg(x);
        let b = mem.read_u8(a as usize);
        proof {
            assert(read8_rel(mem@, a as int, b));
        }
        cpu.set_t(b == 0);
        mem.write_u8(a as usize, b | 0x80);
    }

    /// Loads a register pair: the destination floating register from the
    /// source address and its successor from four bytes beyond, then
    /// advances the source register by 8.
    fn fmov_load_d8(x: Operand, y: Operand, cpu: &mut Cpu, mem: &Memory)
        requires
            old(cpu).wf(),
            mem.wf(),
            x is RegisterOperand,
            operand_value(x) < 15,
            reg_ok(y),
            can_read32(mem@, (old(cpu)@.reg(operand_value(y) as int)) as int),
            can_read32(mem@, (w32(old(cpu)@.reg(operand_value(y) as int) + 4)) as int),
        ensures
            final(cpu).wf(),
            exists|h: u32, l: u32|
                #[trigger] read32_rel(mem@, (old(cpu)@.reg(operand_value(y) as int)) as int, h)
                    && #[trigger] read32_rel(
                    mem@,
                    (w32(old(cpu)@.reg(operand_value(y) as int) + 4)) as int,
                    l,
                ) && final(cpu)@ == old(cpu)@.with_freg(operand_value(x) as int + 1, l).with_freg(
                    operand_value(x) as int,
                    h,
                ).with_reg(
                    operand_value(y) as int,
                    w32(old(cpu)@.reg(operand_value(y) as int) + 8),
                ),
    {
        let a = cpu.reg(y);
        let h = mem.read_u32(a as usize);
        let a2 = wadd(a, 4);
        let l = mem.read_u32(a2 as usize);
        proof {
            assert(read32_rel(mem@, a as int, h));
            assert(read32_rel(mem@, a2 as int, l));
        }
        let dest1 = Operand::RegisterOperand(x.unwrap() + 1);
        cpu.set_fpu(dest1, l);
        cpu.set_fpu(x, h);
        let inc = wadd(a, 8);
        cpu.set_reg(y, inc);
    }

    /// Stores a register pair: the source floating register eight bytes
    /// below the destination address and its successor four bytes above
    /// that, decrementing the destination register by 8 first.
    fn fmov_store_d8(x: Operand, y: Operand, cpu: &mut Cpu, mem: &mut Memory)
        requires
            old(cpu).wf(),
            old(mem).wf(),
            reg_ok(x),
            y is RegisterOperand,
            operand_value(y) < 15,
            can_write32(old(mem)@, (w32(old(cpu)@.reg(operand_value(x) as int) - 8)) as int),
            can_write32(old(mem)@, (w32(old(cpu)@.reg(operand_value(x) as int) - 4)) as int),
        ensures
            final(cpu).wf(),
            final(mem).wf(),
            final(mem)@.ranges == old(mem)@.ranges,
            final(mem)@.lo == old(mem)@.lo,
            final(mem)@.hi == old(mem)@.hi,
            final(mem)@.cells.len() == old(mem)@.cells.len(),
            final(cpu)@ == old(cpu)@.with_reg(
                operand_value(x) as int,
                w32(old(cpu)@.reg(operand_value(x) as int) - 8),
            ),
            wrote32_pair(
                old(mem)@,
                final(mem)@,
                (w32(old(cpu)@.reg(operand_value(x) as int) - 8)) as int,
                old(cpu)@.freg(operand_value(y) as int),
                (w32(old(cpu)@.reg(operand_value(x) as int) - 4)) as int,
                old(cpu)@.freg(operand_value(y) as int + 1),
            ),
    {
        let rn = cpu.reg(x);
        let a1 = wsub(rn, 8);
        let a2 = wsub(rn, 4);
        let src1 = Operand::RegisterOperand(y.unwrap() + 1);
        let h = cpu.fpu(y).value;
        let l = cpu.fpu(src1).value;
        cpu.set_reg(x, a1);
        mem.write_u32(a1 as usize, h);
        let ghost mid = mem@.cells;
        mem.write_u32(a2 as usize, l);
        proof {
            assert(trig_cells(mid));
            assert(wrote32(old(mem)@, MemView { cells: mid, ..old(mem)@ }, a1 as int, h));
        }
    }

    /// Copies one floating register to another within the active bank.
    fn fmov(x: Operand, y: Operand, cpu: &mut Cpu)
        requires
            old(cpu).wf(),
            reg_ok(x),
            reg_ok(y),
        ensures
            final(cpu).wf(),
            final(cpu)@ == old(cpu)@.with_freg(
                operand_value(x) as int,
                old(cpu)@.freg(operand_value(y) as int),
            ),
    {
        let v = cpu.fpu(y).value;
        cpu.set_fpu(x, v);
    }

    /// Single-precision addition of the source into the destination
    /// register, on IEEE-754 bit patterns.
    fn fadd(x: Operand, y: Operand, cpu: &mut Cpu)
        requires
            old(cpu).wf(),
            reg_ok(x),
            reg_ok(y),
        ensures
            final(cpu).wf(),
            final(cpu)@ == old(cpu)@.with_freg(
                operand_value(x) as int,
                f32_add_bits(
                    old(cpu)@.freg(operand_value(x) as int),
                    old(cpu)@.freg(operand_value(y) as int),
                ),
            ),
    {
        let a = cpu.fpu(x).value;
        let b = cpu.fpu(y).value;
        let v = fadd_bits(a, b);
        cpu.set_fpu(x, v);
    }

    /// Multiply-accumulate: multiplies the two signed longs read at the
    /// destination-register address, adds the 64-bit product into
    /// MACH:MACL, and advances both pointer registers by 4. Both
    /// multiplicands are read from the destination-register address.
    fn macl(x: Operand, y: Operand, cpu: &mut Cpu, mem: &Memory)
        requires
            old(cpu).wf(),
            mem.wf(),
            reg_ok(x),
            reg_ok(y),
            can_read32(mem@, (old(cpu)@.reg(operand_value(x) as int)) as int),
        ensures
            final(cpu).wf(),
            exists|va: u32, vb: u32|
                #[trigger] read32_rel(mem@, (old(cpu)@.reg(operand_value(x) as int)) as int, va)
                    && #[trigger] read32_rel(
                    mem@,
                    (old(cpu)@.reg(operand_value(x) as int)) as int,
                    vb,
                ) && final(cpu)@ == mac_result(
                    old(cpu)@,
                    operand_value(x) as int,
                    operand_value(y) as int,
                    va,
                    vb,
                ),
    {
        let a = cpu.reg(x);
        let va = mem.read_u32(a as usize);
        let vb = mem.read_u32(a as usize);
        proof {
            assert(read32_rel(mem@, a as int, va));
            assert(read32_rel(mem@, a as int, vb));
        }
        let inc_n = wadd(cpu.reg(x), 4);
        cpu.set_reg(x, inc_n);
        let inc_m = wadd(cpu.reg(y), 4);
        cpu.set_reg(y, inc_m);
        let sa: i64 = if va >= 0x8000_0000 {
            va as i64 - 0x1_0000_0000i64
        } else {
            va as i64
        };
        let sb: i64 = if vb >= 0x8000_0000 {
            vb as i64 - 0x1_0000_0000i64
        } else {
            vb as i64
        };
        proof {
            assert(sa == sgn32(va) && sb == sgn32(vb));
            assert(-0x4000_0000_0000_0000 <= sa * sb <= 0x4000_0000_0000_0000)
                by (nonlinear_arith)
                requires
                    -0x8000_0000 <= sa <= 0x7FFF_FFFF && -0x8000_0000 <= sb <= 0x7FFF_FFFF,
            ;
        }
        let prod: i64 = sa * sb;
        let acc: u64 = (cpu.mach.value as u64) * 0x1_0000_0000 + (cpu.macl.value as u64);
        let tot: u64 = if prod >= 0 {
            acc.wrapping_add(prod as u64)
        } else {
            acc.wrapping_sub((-prod) as u64)
        };
        proof {
            let total = acc + prod;
            let m64 = 0x1_0000_0000_0000_0000int;
            assert(tot == total || tot == total - m64 || tot == total + m64);
            if tot == total {
                vstd::arithmetic::div_mod::lemma_fundamental_div_mod_converse(
                    total,
                    m64,
                    0,
                    tot as int,
                );
            } else if tot == total - m64 {
                vstd::arithmetic::div_mod::lemma_fundamental_div_mod_converse(
                    total,
                    m64,
                    1,
                    tot as int,
                );
            } else {
                vstd::arithmetic::div_mod::lemma_fundamental_div_mod_converse(
                    total,
                    m64,
                    -1,
                    tot as int,
                );
            }
            assert(tot == total % m64);
        }
        let hi = (tot / 0x1_0000_0000) as u32;
        let lo = (tot % 0x1_0000_0000) as u32;
        cpu.set_mach(hi);
        cpu.set_macl(lo);
        proof {
            assert(cpu@ == mac_result(
                old(cpu)@,
                operand_value(x) as int,
                operand_value(y) as int,
                va,
                vb,
            ));
        }
    }

    /// Branches when T is clear, to PC + 2 plus twice the sign-extended displacement.
    fn bf(x: Operand, cpu: &mut Cpu)
        requires
            old(cpu).wf(),
            x is DisplacementOperand,
        ensures
            final(cpu).wf(),
            final(cpu)@ == (if !old(cpu)@.t() {
                CpuView { pc: w32(old(cpu)@.pc + 2 + 2 * sx8(operand_value(x))), ..old(cpu)@ }
            } else {
                old(cpu)@
            }),
    {
        if !cpu.status.is_carry() {
            let t = disp8_target(cpu.pc, x.unwrap());
            cpu.set_pc(t);
        }
    }

    /// Branches when T is set, to PC + 2 plus twice the sign-extended displacement.
    fn bt(x: Operand, cpu: &mut Cpu)
        requires
            old(cpu).wf(),
            x is DisplacementOperand,
        ensures
            final(cpu).wf(),
            final(cpu)@ == (if old(cpu)@.t() {
                CpuView { pc: w32(old(cpu)@.pc + 2 + 2 * sx8(operand_value(x))), ..old(cpu)@ }
            } else {
                old(cpu)@
            }),
    {
        if cpu.status.is_carry() {
            let t = disp8_target(cpu.pc, x.unwrap());
            cpu.set_pc(t);
        }
    }

    /// Delayed branch when T is clear: runs the delay-slot instruction through one nested step, then lands on the target (or just past the slot when not taken).
    #[verifier::rlimit(100)]
    fn bfs(x: Operand, cpu: &mut Cpu, mem: &mut Memory, depth: u8)
        requires
            old(cpu).wf(),
            old(mem).wf(),
            depth <= 1,
            x is DisplacementOperand,
            depth == 0 ==> step_pre(CpuView { pc: w32(old(cpu)@.pc + 2), ..old(cpu)@ }, old(mem)@, 1),
        ensures
            final(cpu).wf(),
            final(mem).wf(),
            exec_post(
                Instruction::Bfs(x),
                old(cpu)@,
                old(mem)@,
                final(cpu)@,
                final(mem)@,
                depth as int,
            ),
        decreases 1int - depth, 0int,
    {
        if depth == 0 {
            let taken = !cpu.status.is_carry();
            let t1 = disp8_target(cpu.pc, x.unwrap());
            let t2 = wadd(cpu.pc, 2);
            let target = if taken {
                t1
            } else {
                t2
            };
            let pc2 = wadd(cpu.pc, 2);
            cpu.set_pc(pc2);
            cpu.step_at(mem, 1);
            let ghost cs = cpu@;
            cpu.set_pc(target);
            proof {
                assert(trig_cpu(cs));
                assert(step_post(CpuView { pc: w32(old(cpu)@.pc + 2), ..old(cpu)@ }, old(mem)@, cs, mem@, 1));
                assert(cpu@ == (CpuView { pc: if !old(cpu)@.t() { w32(old(cpu)@.pc + 2 + 2 * sx8(operand_value(x))) } else { w32(old(cpu)@.pc + 2) }, ..cs }));
                reveal_with_fuel(exec_post, 2);
                reveal_with_fuel(step_post, 2);
                assert(exec_post(
                    Instruction::Bfs(x),
                    old(cpu)@,
                    old(mem)@,
                    cpu@,
                    mem@,
                    depth as int,
                ));
            }
        }
    }

    /// Delayed branch when T is set: runs the delay-slot instruction through one nested step, then lands on the target (or just past the slot when not taken).
    #[verifier::rlimit(100)]
    fn bts(x: Operand, cpu: &mut Cpu, mem: &mut Memory, depth: u8)
        requires
            old(cpu).wf(),
            old(mem).wf(),
            depth <= 1,
            x is DisplacementOperand,
            depth == 0 ==> step_pre(CpuView { pc: w32(old(cpu)@.pc + 2), ..old(cpu)@ }, old(mem)@, 1),
        ensures
            final(cpu).wf(),
            final(mem).wf(),
            exec_post(
                Instruction::Bts(x),
                old(cpu)@,
                old(mem)@,
                final(cpu)@,
                final(mem)@,
                depth as int,
            ),
        decreases 1int - depth, 0int,
    {
        if depth == 0 {
            let taken = cpu.status.is_carry();
            let t1 = disp8_target(cpu.pc, x.unwrap());
            let t2 = wadd(cpu.pc, 2);
            let target = if taken {
                t1
            } else {
                t2
            };
            let pc2 = wadd(cpu.pc, 2);
            cpu.set_pc(pc2);
            cpu.step_at(mem, 1);
            let ghost cs = cpu@;
            cpu.set_pc(target);
            proof {
                assert(trig_cpu(cs));
                assert(step_post(CpuView { pc: w32(old(cpu)@.pc + 2), ..old(cpu)@ }, old(mem)@, cs, mem@, 1));
                assert(cpu@ == (CpuView { pc: if old(cpu)@.t() { w32(old(cpu)@.pc + 2 + 2 * sx8(operand_value(x))) } else { w32(old(cpu)@.pc + 2) }, ..cs }));
                reveal_with_fuel(exec_post, 2);
                reveal_with_fuel(step_post, 2);
                assert(exec_post(
                    Instruction::Bts(x),
                    old(cpu)@,
                    old(mem)@,
                    cpu@,
                    mem@,
                    depth as int,
                ));
            }
        }
    }

    /// Unconditional delayed branch over a 12-bit displacement: runs the delay slot through one nested step, then transfers control.
    #[verifier::rlimit(100)]
    fn bra(x: Operand, y: Operand, cpu: &mut Cpu, mem: &mut Memory, depth: u8)
        requires
            old(cpu).wf(),
            old(mem).wf(),
            depth <= 1,
            x is RegisterOperand && y is DisplacementOperand,
            depth == 0 ==> step_pre(CpuView { pc: w32(old(cpu)@.pc + 2), ..old(cpu)@ }, old(mem)@, 1),
        ensures
            final(cpu).wf(),
            final(mem).wf(),
            exec_post(
                Instruction::Bra(x, y),
                old(cpu)@,
                old(mem)@,
                final(cpu)@,
                final(mem)@,
                depth as int,
            ),
        decreases 1int - depth, 0int,
    {
        if depth == 0 {
            let target = disp12_target(cpu.pc, x.unwrap(), y.unwrap());
            let pc2 = wadd(cpu.pc, 2);
            cpu.set_pc(pc2);
            cpu.step_at(mem, 1);
            let ghost cs = cpu@;
            cpu.set_pc(target);
            proof {
                assert(trig_cpu(cs));
                assert(step_post(CpuView { pc: w32(old(cpu)@.pc + 2), ..old(cpu)@ }, old(mem)@, cs, mem@, 1));
                assert(cpu@ == (CpuView { pc: w32(old(cpu)@.pc + 2 + 2 * sx12(operand_value(x), operand_value(y))), ..cs }));
                reveal_with_fuel(exec_post, 2);
                reveal_with_fuel(step_post, 2);
                assert(exec_post(
                    Instruction::Bra(x, y),
                    old(cpu)@,
                    old(mem)@,
                    cpu@,
                    mem@,
                    depth as int,
                ));
            }
        }
    }

    /// Delayed branch far: the target is PC + 2 plus the register, computed before the delay slot runs.
    #[verifier::rlimit(100)]
    fn braf(x: Operand, cpu: &mut Cpu, mem: &mut Memory, depth: u8)
        requires
            old(cpu).wf(),
            old(mem).wf(),
            depth <= 1,
            reg_ok(x),
            depth == 0 ==> step_pre(CpuView { pc: w32(old(cpu)@.pc + 2), ..old(cpu)@ }, old(mem)@, 1),
        ensures
            final(cpu).wf(),
            final(mem).wf(),
            exec_post(
                Instruction::Braf(x),
                old(cpu)@,
                old(mem)@,
                final(cpu)@,
                final(mem)@,
                depth as int,
            ),
        decreases 1int - depth, 0int,
    {
        if depth == 0 {
            let target = wadd3(cpu.pc, 2, cpu.reg(x));
            let pc2 = wadd(cpu.pc, 2);
            cpu.set_pc(pc2);
            cpu.step_at(mem, 1);
            let ghost cs = cpu@;
            cpu.set_pc(target);
            proof {
                assert(trig_cpu(cs));
                assert(step_post(CpuView { pc: w32(old(cpu)@.pc + 2), ..old(cpu)@ }, old(mem)@, cs, mem@, 1));
                assert(cpu@ == (CpuView { pc: w32(old(cpu)@.pc + 2 + old(cpu)@.reg(operand_value(x) as int)), ..cs }));
                reveal_with_fuel(exec_post, 2);
                reveal_with_fuel(step_post, 2);
                assert(exec_post(
                    Instruction::Braf(x),
                    old(cpu)@,
                    old(mem)@,
                    cpu@,
                    mem@,
                    depth as int,
                ));
            }
        }
    }

    /// Delayed branch to subroutine: records the return address past the delay slot in PR, runs the slot, then transfers control.
    #[verifier::rlimit(100)]
    fn bsr(x: Operand, y: Operand, cpu: &mut Cpu, mem: &mut Memory, depth: u8)
        requires
            old(cpu).wf(),
            old(mem).wf(),
            depth <= 1,
            x is RegisterOperand && y is DisplacementOperand,
            depth == 0 ==> step_pre(CpuView { pc: w32(old(cpu)@.pc + 2), pr: w32(old(cpu)@.pc + 4), ..old(cpu)@ }, old(mem)@, 1),
        ensures
            final(cpu).wf(),
            final(mem).wf(),
            exec_post(
                Instruction::Bsr(x, y),
                old(cpu)@,
                old(mem)@,
                final(cpu)@,
                final(mem)@,
                depth as int,
            ),
        decreases 1int - depth, 0int,
    {
        if depth == 0 {
            let target = disp12_target(cpu.pc, x.unwrap(), y.unwrap());
            let pr = wadd(cpu.pc, 4);
            cpu.set_pr(pr);
            let pc2 = wadd(cpu.pc, 2);
            cpu.set_pc(pc2);
            cpu.step_at(mem, 1);
            let ghost cs = cpu@;
            cpu.set_pc(target);
            proof {
                assert(trig_cpu(cs));
                assert(step_post(CpuView { pc: w32(old(cpu)@.pc + 2), pr: w32(old(cpu)@.pc + 4), ..old(cpu)@ }, old(mem)@, cs, mem@, 1));
                assert(cpu@ == (CpuView { pc: w32(old(cpu)@.pc + 2 + 2 * sx12(operand_value(x), operand_value(y))), ..cs }));
                reveal_with_fuel(exec_post, 2);
                reveal_with_fuel(step_post, 2);
                assert(exec_post(
                    Instruction::Bsr(x, y),
                    old(cpu)@,
                    old(mem)@,
                    cpu@,
                    mem@,
                    depth as int,
                ));
            }
        }
    }

    /// Delayed branch far to subroutine: records the return address in PR, runs the delay slot, then transfers control.
    #[verifier::rlimit(100)]
    fn bsrf(x: Operand, cpu: &mut Cpu, mem: &mut Memory, depth: u8)
        requires
            old(cpu).wf(),
            old(mem).wf(),
            depth <= 1,
            reg_ok(x),
            depth == 0 ==> step_pre(CpuView { pc: w32(old(cpu)@.pc + 2), pr: w32(old(cpu)@.pc + 4), ..old(cpu)@ }, old(mem)@, 1),
        ensures
            final(cpu).wf(),
            final(mem).wf(),
            exec_post(
                Instruction::Bsrf(x),
                old(cpu)@,
                old(mem)@,
                final(cpu)@,
                final(mem)@,
                depth as int,
            ),
        decreases 1int - depth, 0int,
    {
        if depth == 0 {
            let target = wadd3(cpu.pc, 2, cpu.reg(x));
            let pr = wadd(cpu.pc, 4);
            cpu.set_pr(pr);
            let pc2 = wadd(cpu.pc, 2);
            cpu.set_pc(pc2);
            cpu.step_at(mem, 1);
            let ghost cs = cpu@;
            cpu.set_pc(target);
            proof {
                assert(trig_cpu(cs));
                assert(step_post(CpuView { pc: w32(old(cpu)@.pc + 2), pr: w32(old(cpu)@.pc + 4), ..old(cpu)@ }, old(mem)@, cs, mem@, 1));
                assert(cpu@ == (CpuView { pc: w32(old(cpu)@.pc + 2 + old(cpu)@.reg(operand_value(x) as int)), ..cs }));
                reveal_with_fuel(exec_post, 2);
                reveal_with_fuel(step_post, 2);
                assert(exec_post(
                    Instruction::Bsrf(x),
                    old(cpu)@,
                    old(mem)@,
                    cpu@,
                    mem@,
                    depth as int,
                ));
            }
        }
    }

    /// Delayed jump to the register address, compensating for the unconditional advance after execution.
    #[verifier::rlimit(100)]
    fn jmp(x: Operand, cpu: &mut Cpu, mem: &mut Memory, depth: u8)
        requires
            old(cpu).wf(),
            old(mem).wf(),
            depth <= 1,
            reg_ok(x),
            depth == 0 ==> step_pre(CpuView { pc: w32(old(cpu)@.pc + 2), ..old(cpu)@ }, old(mem)@, 1),
        ensures
            final(cpu).wf(),
            final(mem).wf(),
            exec_post(
                Instruction::Jmp(x),
                old(cpu)@,
                old(mem)@,
                final(cpu)@,
                final(mem)@,
                depth as int,
            ),
        decreases 1int - depth, 0int,
    {
        if depth == 0 {
            let target = wsub(cpu.reg(x), 2);
            let pc2 = wadd(cpu.pc, 2);
            cpu.set_pc(pc2);
            cpu.step_at(mem, 1);
            let ghost cs = cpu@;
            cpu.set_pc(target);
            proof {
                assert(trig_cpu(cs));
                assert(step_post(CpuView { pc: w32(old(cpu)@.pc + 2), ..old(cpu)@ }, old(mem)@, cs, mem@, 1));
                assert(cpu@ == (CpuView { pc: w32(old(cpu)@.reg(operand_value(x) as int) - 2), ..cs }));
                reveal_with_fuel(exec_post, 2);
                reveal_with_fuel(step_post, 2);
                assert(exec_post(
                    Instruction::Jmp(x),
                    old(cpu)@,
                    old(mem)@,
                    cpu@,
                    mem@,
                    depth as int,
                ));
            }
        }
    }

    /// Delayed jump to subroutine at the register address, recording the return address in PR.
    #[verifier::rlimit(100)]
    fn jsr(x: Operand, cpu: &mut Cpu, mem: &mut Memory, depth: u8)
        requires
            old(cpu).wf(),
            old(mem).wf(),
            depth <= 1,
            reg_ok(x),
            depth == 0 ==> step_pre(CpuView { pc: w32(old(cpu)@.pc + 2), pr: w32(old(cpu)@.pc + 4), ..old(cpu)@ }, old(mem)@, 1),
        ensures
            final(cpu).wf(),
            final(mem).wf(),
            exec_post(
                Instruction::Jsr(x),
                old(cpu)@,
                old(mem)@,
                final(cpu)@,
                final(mem)@,
                depth as int,
            ),
        decreases 1int - depth, 0int,
    {
        if depth == 0 {
            let target = wsub(cpu.reg(x), 2);
            let pr = wadd(cpu.pc, 4);
            cpu.set_pr(pr);
            let pc2 = wadd(cpu.pc, 2);
            cpu.set_pc(pc2);
            cpu.step_at(mem, 1);
            let ghost cs = cpu@;
            cpu.set_pc(target);
            proof {
                assert(trig_cpu(cs));
                assert(step_post(CpuView { pc: w32(old(cpu)@.pc + 2), pr: w32(old(cpu)@.pc + 4), ..old(cpu)@ }, old(mem)@, cs, mem@, 1));
                assert(cpu@ == (CpuView { pc: w32(old(cpu)@.reg(operand_value(x) as int) - 2), ..cs }));
                reveal_with_fuel(exec_post, 2);
                reveal_with_fuel(step_post, 2);
                assert(exec_post(
                    Instruction::Jsr(x),
                    old(cpu)@,
                    old(mem)@,
                    cpu@,
                    mem@,
                    depth as int,
                ));
            }
        }
    }

    /// Delayed return: transfers control to the link register after running the delay slot.
    #[verifier::rlimit(100)]
    fn rts(cpu: &mut Cpu, mem: &mut Memory, depth: u8)
        requires
            old(cpu).wf(),
            old(mem).wf(),
            depth <= 1,
            true,
            depth == 0 ==> step_pre(CpuView { pc: w32(old(cpu)@.pc + 2), ..old(cpu)@ }, old(mem)@, 1),
        ensures
            final(cpu).wf(),
            final(mem).wf(),
            exec_post(
                Instruction::Rts,
                old(cpu)@,
                old(mem)@,
                final(cpu)@,
                final(mem)@,
                depth as int,
            ),
        decreases 1int - depth, 0int,
    {
        if depth == 0 {
            let target = wsub(cpu.pr, 2);
            let pc2 = wadd(cpu.pc, 2);
            cpu.set_pc(pc2);
            cpu.step_at(mem, 1);
            let ghost cs = cpu@;
            cpu.set_pc(target);
            proof {
                assert(trig_cpu(cs));
                assert(step_post(CpuView { pc: w32(old(cpu)@.pc + 2), ..old(cpu)@ }, old(mem)@, cs, mem@, 1));
                assert(cpu@ == (CpuView { pc: w32(old(cpu)@.pr - 2), ..cs }));
                reveal_with_fuel(exec_post, 2);
                reveal_with_fuel(step_post, 2);
                assert(exec_post(
                    Instruction::Rts,
                    old(cpu)@,
                    old(mem)@,
                    cpu@,
                    mem@,
                    depth as int,
                ));
            }
        }
    }
}


/// Agreement between a probe state and the live processor on every field
/// the step precondition can read: the banked register files, the status
/// word and the system registers. The program counter, the link register
/// and the high-water mark are free: the nested states of a delayed
/// branch differ from the live state only there.
pub open spec fn cpu_view_agrees(g: CpuView, c: CpuView) -> bool {
    &&& g.sr == c.sr
    &&& g.regs == c.regs
    &&& g.fregs == c.fregs
    &&& g.gbr == c.gbr
    &&& g.vbr == c.vbr
    &&& g.ssr == c.ssr
    &&& g.spc == c.spc
    &&& g.dbr == c.dbr
    &&& g.macl == c.macl
    &&& g.mach == c.mach
    &&& g.fpscr == c.fpscr
    &&& g.fpul == c.fpul
}

/// Whether `k` is the slot named by the optional promotion.
pub open spec fn is_promo(p: Option<usize>, k: int) -> bool {
    match p {
        Some(j) => j as int == k,
        None => false,
    }
}

/// Agreement between a probe memory view and the live store: identical
/// registry and size, identical fields everywhere but at up to two
/// promoted slots, which hold cached instructions — the shape of the
/// store while a step (and the nested delay-slot step) has cached the
/// fetched cells.
pub open spec fn promoted_agrees(gm: MemView, m: MemView, p1: Option<usize>, p2: Option<usize>) -> bool {
    &&& gm.ranges == m.ranges
    &&& gm.lo == m.lo
    &&& gm.hi == m.hi
    &&& gm.cells.len() == m.cells.len()
    &&& forall|k: int|
        0 <= k < m.cells.len() && !is_promo(p1, k) && !is_promo(p2, k) ==> #[trigger] gm.cells[k]
            == m.cells[k]
    &&& match p1 {
        Some(j) => j < m.cells.len() && gm.cells[j as int] is InstructionCell,
        None => true,
    }
    &&& match p2 {
        Some(j) => j < m.cells.len() && gm.cells[j as int] is InstructionCell,
        None => true,
    }
}

/// Routed-ness depends on the registry alone.
proof fn lemma_routed_same(a: MemView, b: MemView, f: int)
    requires
        a.ranges == b.ranges,
    ensures
        spec_routed(a, f) == spec_routed(b, f),
{
    if spec_routed(a, f) {
        let k = choose|k: int|
            0 <= k < a.ranges.len() && (#[trigger] a.ranges[k]).0 <= f <= a.ranges[k].1;
        assert(b.ranges[k].0 <= f <= b.ranges[k].1);
    }
    if spec_routed(b, f) {
        let k = choose|k: int|
            0 <= k < b.ranges.len() && (#[trigger] b.ranges[k]).0 <= f <= b.ranges[k].1;
        assert(a.ranges[k].0 <= f <= a.ranges[k].1);
    }
}

/// Consecutive fetch slots are distinct even across the wrap of the
/// 32-bit program counter.
proof fn lemma_widx_next(pc: u32)
    ensures
        spec_widx(w32(pc + 2) as int) != spec_widx(pc as int),
{
    assert(spec_map(w32(pc + 2) as int) == spec_map(pc as int + 2)) by {
        vstd::arithmetic::div_mod::lemma_mod_mod(pc as int + 2, 0x2000_0000, 8);
    }
    crate::memory::lemma_widx_adjacent(pc as int);
}

/// Whether two more byte addresses fit the native address width.
fn fits2(a: u32) -> (r: bool)
    ensures
        r == (a as int + 2 <= usize::MAX as int),
{
    (a as u64) + 2 <= usize::MAX as u64
}

/// Whether the probe view holds a raw, in-bounds field for the address.
fn check_cell_raw(
    mem: &Memory,
    addr: usize,
    p1: Option<usize>,
    p2: Option<usize>,
    gm: Ghost<MemView>,
) -> (r: bool)
    requires
        promoted_agrees(gm@, mem@, p1, p2),
    ensures
        r == (spec_widx(addr as int) < gm@.cells.len() && gm@.cells[spec_widx(
            addr as int,
        )] is MemoryCell),
{
    let idx = Memory::map(addr) / 2;
    if idx >= mem.data.len() {
        return false;
    }
    if let Some(k) = p1 {
        if idx == k {
            return false;
        }
    }
    if let Some(k) = p2 {
        if idx == k {
            return false;
        }
    }
    match mem.data[idx] {
        MemoryField::MemoryCell(_) => true,
        MemoryField::InstructionCell(_) => false,
    }
}

/// Whether the probe view has an in-bounds field for the address.
fn check_inbounds(mem: &Memory, addr: usize, gm: Ghost<MemView>) -> (r: bool)
    requires
        gm@.cells.len() == mem@.cells.len(),
    ensures
        r == (spec_widx(addr as int) < gm@.cells.len()),
{
    Memory::map(addr) / 2 < mem.data.len()
}

/// The executable form of `can_read16` on the probe view.
fn check_read16(
    mem: &Memory,
    addr: usize,
    p1: Option<usize>,
    p2: Option<usize>,
    gm: Ghost<MemView>,
) -> (r: bool)
    requires
        mem.wf(),
        promoted_agrees(gm@, mem@, p1, p2),
    ensures
        r == can_read16(gm@, addr as int),
{
    proof {
        lemma_routed_same(gm@, mem@, spec_map(addr as int));
    }
    mem.is_mapped(addr) || check_cell_raw(mem, addr, p1, p2, gm)
}

/// The executable form of `can_write16` on the probe view.
fn check_write16(
    mem: &Memory,
    addr: usize,
    p1: Option<usize>,
    p2: Option<usize>,
    gm: Ghost<MemView>,
) -> (r: bool)
    requires
        mem.wf(),
        promoted_agrees(gm@, mem@, p1, p2),
    ensures
        r == can_write16(gm@, addr as int),
{
    proof {
        lemma_routed_same(gm@, mem@, spec_map(addr as int));
    }
    mem.is_mapped(addr) || check_inbounds(mem, addr, gm)
}

/// The executable form of `can_read32` on the probe view.
fn check_read32(
    mem: &Memory,
    a: u32,
    p1: Option<usize>,
    p2: Option<usize>,
    gm: Ghost<MemView>,
) -> (r: bool)
    requires
        mem.wf(),
        promoted_agrees(gm@, mem@, p1, p2),
    ensures
        r == can_read32(gm@, a as int),
{
    if !fits2(a) {
        return false;
    }
    let addr = a as usize;
    proof {
        lemma_routed_same(gm@, mem@, spec_map(addr as int));
    }
    if mem.is_mapped(addr) {
        return true;
    }
    check_cell_raw(mem, addr, p1, p2, gm) && check_cell_raw(mem, addr + 2, p1, p2, gm)
}

/// The executable form of `can_write32` on the probe view.
fn check_write32(
    mem: &Memory,
    a: u32,
    p1: Option<usize>,
    p2: Option<usize>,
    gm: Ghost<MemView>,
) -> (r: bool)
    requires
        mem.wf(),
        promoted_agrees(gm@, mem@, p1, p2),
    ensures
        r == can_write32(gm@, a as int),
{
    if !fits2(a) {
        return false;
    }
    let addr = a as usize;
    proof {
        lemma_routed_same(gm@, mem@, spec_map(addr as int));
    }
    if mem.is_mapped(addr) {
        return true;
    }
    check_inbounds(mem, addr, gm) && check_inbounds(mem, addr + 2, gm)
}

impl Cpu {
    /// The executable form of `exec_pre` against a probe state whose
    /// registers agree with the live processor. `pc` is the probe's
    /// program counter; `p1`/`p2` name the slots the probe memory has
    /// promoted to cached instructions.
    #[verifier::rlimit(100)]
    pub(crate) fn check_exec_pre(
        &self,
        mem: &Memory,
        i: Instruction,
        gc: Ghost<CpuView>,
        gm: Ghost<MemView>,
        pc: u32,
        p1: Option<usize>,
        p2: Option<usize>,
        depth: u8,
    ) -> (r: bool)
        requires
            self.wf(),
            mem.wf(),
            depth <= 1,
            promoted_agrees(gm@, mem@, p1, p2),
            cpu_view_agrees(gc@, self@),
            gc@.pc == pc,
            depth == 0 ==> p2 is None && (match p1 {
                Some(k) => k as int == spec_widx(pc as int),
                None => true,
            }),
        ensures
            r == exec_pre(i, gc@, gm@, depth as int),
        decreases 1int - depth, 1int,
    {
        let cpu = self;
        proof {
            reveal_with_fuel(exec_pre, 2);
            reveal_with_fuel(step_pre, 2);
        }
        match i {
            Instruction::Add(x, y) | Instruction::AddWithCarry(x, y) | Instruction::AddOverflow(x, y) | Instruction::Sub(x, y) | Instruction::MulL(x, y) | Instruction::MulSW(x, y) | Instruction::MulUW(x, y) | Instruction::ExtUB(x, y) | Instruction::ExtUW(x, y) | Instruction::ExtSB(x, y) | Instruction::ExtSW(x, y) | Instruction::And(x, y) | Instruction::Or(x, y) | Instruction::Xor(x, y) | Instruction::MovData(x, y) | Instruction::SwapB(x, y) | Instruction::SwapW(x, y) | Instruction::CmpEq(x, y) | Instruction::CmpHs(x, y) | Instruction::CmpGe(x, y) | Instruction::CmpHi(x, y) | Instruction::CmpGt(x, y) | Instruction::Tst(x, y) | Instruction::CmpStr(x, y) | Instruction::FMov(x, y) | Instruction::FAdd(x, y) => x.is_register() && x.unwrap() < 16 && y.is_register() && y.unwrap() < 16,
            Instruction::CmpPz(x) | Instruction::CmpPl(x) | Instruction::Shll(x) | Instruction::Shll2(x) | Instruction::Shll8(x) | Instruction::Shll16(x) | Instruction::Shlr(x) | Instruction::Shlr2(x) | Instruction::Shlr8(x) | Instruction::Shlr16(x) | Instruction::Shar(x) | Instruction::Rotr(x) | Instruction::Dt(x) | Instruction::MovT(x) | Instruction::StcGbr(x) | Instruction::StcDbr(x) | Instruction::StsMacH(x) | Instruction::StsMacL(x) | Instruction::LdcSr(x) | Instruction::LdcDbr(x) | Instruction::LdcGbr(x) | Instruction::LdcVbr(x) | Instruction::LdsPr(x) | Instruction::LdsFpscr(x) => x.is_register() && x.unwrap() < 16,
            Instruction::AndImm(x) | Instruction::OrImm(x) | Instruction::XorImm(x) | Instruction::TstImm(x) | Instruction::CmpEqImm(x) => x.is_immediate(),
            Instruction::Bf(x) | Instruction::Bt(x) | Instruction::MovA(x) => x.is_displacement(),
            Instruction::Clrs | Instruction::Clrt | Instruction::Sets | Instruction::Sett | Instruction::Frchg | Instruction::Nop | Instruction::Unknown => true,
            Instruction::Pref(x) => {
                let _ = x;
                true
            },
            Instruction::AddConstant(x, y) | Instruction::MovConstantSign(x, y) => x.is_register() && x.unwrap() < 16 && y.is_immediate(),
            Instruction::StcBanked(x, b) => x.is_register() && x.unwrap() < 16 && b < 8,
            Instruction::MovDataSignBLoad(x, y) | Instruction::MovDataSignBLoad1(x, y) | Instruction::MovDataSignWLoad(x, y) | Instruction::MovDataSignWLoad2(x, y) => x.is_register() && x.unwrap() < 16 && y.is_register() && y.unwrap() < 16 && check_read16(mem, cpu.reg(y) as usize, p1, p2, gm),
            Instruction::MovDataSignLLoad(x, y) | Instruction::MovDataSignLLoad4(x, y) => x.is_register() && x.unwrap() < 16 && y.is_register() && y.unwrap() < 16 && check_read32(mem, cpu.reg(y), p1, p2, gm),
            Instruction::MovDataLoadR0B(x, y) | Instruction::MovDataLoadR0W(x, y) => x.is_register() && x.unwrap() < 16 && y.is_register() && y.unwrap() < 16 && check_read16(
                mem,
                wadd(cpu.reg(y), cpu.reg(Operand::RegisterOperand(0))) as usize,
                p1, p2, gm,
            ),
            Instruction::MovDataLoadR0L(x, y) => x.is_register() && x.unwrap() < 16 && y.is_register() && y.unwrap() < 16 && check_read32(
                mem,
                wadd(cpu.reg(y), cpu.reg(Operand::RegisterOperand(0))),
                p1, p2, gm,
            ),
            Instruction::MovConstantLoadW(x, y) => x.is_register() && x.unwrap() < 16 && y.is_displacement() && check_read16(
                mem,
                wadd3(pc, 4, (y.unwrap() as u32) * 2) as usize,
                p1, p2, gm,
            ),
            Instruction::MovConstantLoadL(x, y) => x.is_register() && x.unwrap() < 16 && y.is_displacement() && check_read32(
                mem,
                wadd3(pc & 0xFFFFFFFC, 4, (y.unwrap() as u32) * 4),
                p1, p2, gm,
            ),
            Instruction::MovStructLoadB(x, y) => x.is_register() && x.unwrap() < 16 && y.is_displacement() && check_read16(
                mem,
                wadd(cpu.reg(x), y.unwrap() as u32) as usize,
                p1, p2, gm,
            ),
            Instruction::MovStructLoadW(x, y) => x.is_register() && x.unwrap() < 16 && y.is_displacement() && check_read16(
                mem,
                wadd(cpu.reg(x), (y.unwrap() as u32) * 2) as usize,
                p1, p2, gm,
            ),
            Instruction::MovStructLoadL(x, y) => x.is_register() && x.unwrap() < 16 && y.is_immediate() && {
                let yv = y.unwrap();
                proof {
                    assert(yv >> 4u8 < 16) by (bit_vector);
                }
                check_read32(
                    mem,
                    wadd(cpu.reg(Operand::RegisterOperand(yv >> 4u8)), ((yv & 0xF) as u32) * 4),
                    p1, p2, gm,
                )
            },
            Instruction::MovGlobalLoadB(x) => x.is_displacement() && check_read16(mem, wadd(cpu.gbr.value, x.unwrap() as u32) as usize, p1, p2, gm),
            Instruction::MovGlobalLoadW(x) => x.is_displacement() && check_read16(
                mem,
                wadd(cpu.gbr.value, (x.unwrap() as u32) * 2) as usize,
                p1, p2, gm,
            ),
            Instruction::MovGlobalLoadL(x) => x.is_displacement() && check_read32(mem, wadd(cpu.gbr.value, (x.unwrap() as u32) * 4), p1, p2, gm),
            Instruction::LdcLSr(x) | Instruction::LdcLGbr(x) | Instruction::LdcLVbr(x) | Instruction::LdcLSsr(x) | Instruction::LdcLSpc(x) | Instruction::LdsLMacl(x) | Instruction::LdsLMach(x) | Instruction::LdsLPr(x) | Instruction::LdsFpscrL(x) | Instruction::LdsFpulL(x) => x.is_register() && x.unwrap() < 16 && check_read32(mem, cpu.reg(x), p1, p2, gm),
            Instruction::FMovLoadS4(x, y) => x.is_register() && x.unwrap() < 16 && y.is_register() && y.unwrap() < 16 && check_read32(mem, cpu.reg(y), p1, p2, gm),
            Instruction::FMovLoadD8(x, y) => x.is_register() && x.unwrap() < 15 && y.is_register() && y.unwrap() < 16 && check_read32(mem, cpu.reg(y), p1, p2, gm)
                && check_read32(mem, wadd(cpu.reg(y), 4), p1, p2, gm),
            Instruction::MacL(x, y) => x.is_register() && x.unwrap() < 16 && y.is_register() && y.unwrap() < 16 && check_read32(mem, cpu.reg(x), p1, p2, gm),
            Instruction::Tas(x) => x.is_register() && x.unwrap() < 16 && check_read16(mem, cpu.reg(x) as usize, p1, p2, gm),
            Instruction::AndB(x) | Instruction::OrB(x) | Instruction::XorB(x) | Instruction::TstB(x) => x.is_immediate() && check_read16(
                mem,
                wadd(cpu.gbr.value, cpu.reg(Operand::RegisterOperand(0))) as usize,
                p1, p2, gm,
            ),
            Instruction::MovDataBStore(x, y) => x.is_register() && x.unwrap() < 16 && y.is_register() && y.unwrap() < 16 && check_read16(mem, cpu.reg(x) as usize, p1, p2, gm),
            Instruction::MovDataWStore(x, y) => x.is_register() && x.unwrap() < 16 && y.is_register() && y.unwrap() < 16 && check_write16(mem, cpu.reg(x) as usize, p1, p2, gm),
            Instruction::MovDataLStore(x, y) => x.is_register() && x.unwrap() < 16 && y.is_register() && y.unwrap() < 16 && check_write32(mem, cpu.reg(x), p1, p2, gm),
            Instruction::MovDataBStore1(x, y) => x.is_register() && x.unwrap() < 16 && y.is_register() && y.unwrap() < 16 && check_read16(mem, wsub(cpu.reg(x), 1) as usize, p1, p2, gm),
            Instruction::MovDataWStore2(x, y) => x.is_register() && x.unwrap() < 16 && y.is_register() && y.unwrap() < 16 && check_write16(mem, wsub(cpu.reg(x), 2) as usize, p1, p2, gm),
            Instruction::MovDataLStore4(x, y) => x.is_register() && x.unwrap() < 16 && y.is_register() && y.unwrap() < 16 && check_write32(mem, wsub(cpu.reg(x), 4), p1, p2, gm),
            Instruction::MovDataStoreR0B(x, y) => x.is_register() && x.unwrap() < 16 && y.is_register() && y.unwrap() < 16 && check_read16(
                mem,
                wadd(cpu.reg(x), cpu.reg(Operand::RegisterOperand(0))) as usize,
                p1, p2, gm,
            ),
            Instruction::MovDataStoreR0W(x, y) => x.is_register() && x.unwrap() < 16 && y.is_register() && y.unwrap() < 16 && check_write16(
                mem,
                wadd(cpu.reg(x), cpu.reg(Operand::RegisterOperand(0))) as usize,
                p1, p2, gm,
            ),
            Instruction::MovDataStoreR0L(x, y) => x.is_register() && x.unwrap() < 16 && y.is_register() && y.unwrap() < 16 && check_write32(
                mem,
                wadd(cpu.reg(x), cpu.reg(Operand::RegisterOperand(0))),
                p1, p2, gm,
            ),
            Instruction::MovStructStoreB(x, y) => x.is_register() && x.unwrap() < 16 && y.is_displacement() && check_read16(
                mem,
                wadd(cpu.reg(x), y.unwrap() as u32) as usize,
                p1, p2, gm,
            ),
            Instruction::MovStructStoreW(x, y) => x.is_register() && x.unwrap() < 16 && y.is_displacement() && check_write16(
                mem,
                wadd(cpu.reg(x), (y.unwrap() as u32) * 2) as usize,
                p1, p2, gm,
            ),
            Instruction::MovStructStoreL(x, y) => x.is_register() && x.unwrap() < 16 && y.is_immediate() && check_write32(mem, wadd(cpu.reg(x), ((y.unwrap() & 0xF) as u32) * 4), p1, p2, gm),
            Instruction::MovGlobalStoreB(x) => x.is_displacement() && check_read16(mem, wadd(cpu.gbr.value, x.unwrap() as u32) as usize, p1, p2, gm),
            Instruction::MovGlobalStoreW(x) => x.is_displacement() && check_write16(
                mem,
                wadd(cpu.gbr.value, (x.unwrap() as u32) * 2) as usize,
                p1, p2, gm,
            ),
            Instruction::MovGlobalStoreL(x) => x.is_displacement() && check_write32(mem, wadd(cpu.gbr.value, (x.unwrap() as u32) * 4), p1, p2, gm),
            Instruction::MovCA(x) => x.is_register() && x.unwrap() < 16 && check_write32(mem, cpu.reg(x), p1, p2, gm),
            Instruction::StsLMacH(x) | Instruction::StsLMacL(x) | Instruction::StsLPr(x) => x.is_register() && x.unwrap() < 16 && check_write32(mem, wsub(cpu.reg(x), 4), p1, p2, gm),
            Instruction::FMovStoreS4(x, y) => x.is_register() && x.unwrap() < 16 && y.is_register() && y.unwrap() < 16 && check_write32(mem, wsub(cpu.reg(x), 4), p1, p2, gm),
            Instruction::FMovStoreD8(x, y) => x.is_register() && x.unwrap() < 16 && y.is_register() && y.unwrap() < 15 && check_write32(
                mem,
                wsub(cpu.reg(x), 8),
                p1, p2, gm,
            ) && check_write32(mem, wsub(cpu.reg(x), 4), p1, p2, gm),
            Instruction::Bfs(x) | Instruction::Bts(x) => x.is_displacement() && (depth != 0 || {
                proof {
                    lemma_widx_next(pc);
                }
                cpu.check_step_pre(
                    mem,
                    wadd(pc, 2),
                    Ghost(CpuView { pc: w32(gc@.pc + 2), ..gc@ }),
                    gm,
                    p1,
                    1,
                )
            }),
            Instruction::Bra(x, y) => x.is_register() && y.is_displacement() && (depth != 0 || {
                proof {
                    lemma_widx_next(pc);
                }
                cpu.check_step_pre(
                    mem,
                    wadd(pc, 2),
                    Ghost(CpuView { pc: w32(gc@.pc + 2), ..gc@ }),
                    gm,
                    p1,
                    1,
                )
            }),
            Instruction::Bsr(x, y) => x.is_register() && y.is_displacement() && (depth != 0 || {
                proof {
                    lemma_widx_next(pc);
                }
                cpu.check_step_pre(
                    mem,
                    wadd(pc, 2),
                    Ghost(CpuView { pc: w32(gc@.pc + 2), pr: w32(gc@.pc + 4), ..gc@ }),
                    gm,
                    p1,
                    1,
                )
            }),
            Instruction::Braf(x) => x.is_register() && x.unwrap() < 16 && (depth != 0 || {
                proof {
                    lemma_widx_next(pc);
                }
                cpu.check_step_pre(
                    mem,
                    wadd(pc, 2),
                    Ghost(CpuView { pc: w32(gc@.pc + 2), ..gc@ }),
                    gm,
                    p1,
                    1,
                )
            }),
            Instruction::Bsrf(x) => x.is_register() && x.unwrap() < 16 && (depth != 0 || {
                proof {
                    lemma_widx_next(pc);
                }
                cpu.check_step_pre(
                    mem,
                    wadd(pc, 2),
                    Ghost(CpuView { pc: w32(gc@.pc + 2), pr: w32(gc@.pc + 4), ..gc@ }),
                    gm,
                    p1,
                    1,
                )
            }),
            Instruction::Jmp(x) => x.is_register() && x.unwrap() < 16 && (depth != 0 || {
                proof {
                    lemma_widx_next(pc);
                }
                cpu.check_step_pre(
                    mem,
                    wadd(pc, 2),
                    Ghost(CpuView { pc: w32(gc@.pc + 2), ..gc@ }),
                    gm,
                    p1,
                    1,
                )
            }),
            Instruction::Jsr(x) => x.is_register() && x.unwrap() < 16 && (depth != 0 || {
                proof {
                    lemma_widx_next(pc);
                }
                cpu.check_step_pre(
                    mem,
                    wadd(pc, 2),
                    Ghost(CpuView { pc: w32(gc@.pc + 2), pr: w32(gc@.pc + 4), ..gc@ }),
                    gm,
                    p1,
                    1,
                )
            }),
            Instruction::Rts => true && (depth != 0 || {
                proof {
                    lemma_widx_next(pc);
                }
                cpu.check_step_pre(
                    mem,
                    wadd(pc, 2),
                    Ghost(CpuView { pc: w32(gc@.pc + 2), ..gc@ }),
                    gm,
                    p1,
                    1,
                )
            }),
            _ => false,
        }
    }

    /// The executable form of `step_pre` against a probe state: what a
    /// caller tests before stepping. The probe memory may carry one
    /// promoted slot (the outer fetch of a delay-slot check), never the
    /// slot about to be fetched here.
    #[verifier::rlimit(100)]
    pub(crate) fn check_step_pre(
        &self,
        mem: &Memory,
        pc: u32,
        gc: Ghost<CpuView>,
        gm: Ghost<MemView>,
        p1: Option<usize>,
        depth: u8,
    ) -> (r: bool)
        requires
            self.wf(),
            mem.wf(),
            depth <= 1,
            promoted_agrees(gm@, mem@, p1, None),
            cpu_view_agrees(gc@, self@),
            gc@.pc == pc,
            depth == 0 ==> p1 is None,
            match p1 {
                Some(k) => k as int != spec_widx(pc as int),
                None => true,
            },
        ensures
            r == step_pre(gc@, gm@, depth as int),
        decreases 1int - depth, 2int,
    {
        proof {
            reveal_with_fuel(exec_pre, 2);
            reveal_with_fuel(step_pre, 2);
        }
        let idx = Memory::map(pc as usize) / 2;
        if idx >= mem.data.len() {
            return false;
        }
        match mem.data[idx] {
            MemoryField::InstructionCell(inst) => self.check_exec_pre(
                mem,
                inst,
                Ghost(with_max(gc@)),
                gm,
                pc,
                p1,
                None,
                depth,
            ),
            MemoryField::MemoryCell(w) => {
                let inst = InstructionDecoder::decode(w);
                let ghost gm2 = MemView {
                    cells: gm@.cells.update(
                        idx as int,
                        MemoryField::InstructionCell(spec_decode(w)),
                    ),
                    ..gm@
                };
                match p1 {
                    None => self.check_exec_pre(
                        mem,
                        inst,
                        Ghost(with_max(gc@)),
                        Ghost(gm2),
                        pc,
                        Some(idx),
                        None,
                        depth,
                    ),
                    Some(_) => self.check_exec_pre(
                        mem,
                        inst,
                        Ghost(with_max(gc@)),
                        Ghost(gm2),
                        pc,
                        p1,
                        Some(idx),
                        depth,
                    ),
                }
            },
        }
    }

    /// Whether one step is defined in the current state: the executable
    /// form of the step precondition, for callers outside the proof to
    /// test before calling `step`.
    pub fn can_step(&self, mem: &Memory) -> (r: bool)
        requires
            self.wf(),
            mem.wf(),
        ensures
            r == step_pre(self@, mem@, 0),
    {
        self.check_step_pre(mem, self.pc, Ghost(self@), Ghost(mem@), None, 0)
    }
}

/// Setting the T bit leaves every other status bit and all registers in
/// place, and the bit afterwards reads as set exactly when asked.
pub proof fn lemma_with_t_bits(c: CpuView, b: bool)
    ensures
        c.with_t(b).t() == b,
        c.with_t(b).regs == c.regs,
        c.with_t(b).pc == c.pc,
        forall|i: int| #[trigger] c.with_t(b).phys(i) == c.phys(i),
{
    let sr = c.sr;
    if b {
        assert((sr | 0x1u32) & 0x1u32 != 0) by (bit_vector);
        assert(((sr | 0x1u32) & 0x2000_0000u32 != 0) == (sr & 0x2000_0000u32 != 0)
            && ((sr | 0x1u32) & 0x4000_0000u32 != 0) == (sr & 0x4000_0000u32 != 0))
            by (bit_vector);
    } else {
        assert(((sr & 0xFFFF_FFFEu32) & 0x1u32) == 0) by (bit_vector);
        assert(((sr & 0xFFFF_FFFEu32) & 0x2000_0000u32 != 0) == (sr & 0x2000_0000u32 != 0)
            && ((sr & 0xFFFF_FFFEu32) & 0x4000_0000u32 != 0) == (sr & 0x4000_0000u32 != 0))
            by (bit_vector);
    }
}

/// Distinct visible registers occupy distinct physical slots under any
/// one status word.
pub proof fn lemma_phys_injective(c: CpuView, i: int, j: int)
    requires
        0 <= i < 16,
        0 <= j < 16,
        i != j,
    ensures
        c.phys(i) != c.phys(j),
{
}

/// An integer add puts the wrapped sum of the old register values in the
/// destination; every other visible register, the T bit and the memory
/// are unchanged.
pub proof fn lemma_add_semantics(
    n: u8,
    m: u8,
    c0: CpuView,
    m0: MemView,
    c1: CpuView,
    m1: MemView,
)
    requires
        n < 16,
        m < 16,
        cpu_wf(c0),
        exec_post(
            Instruction::Add(Operand::RegisterOperand(n), Operand::RegisterOperand(m)),
            c0,
            m0,
            c1,
            m1,
            0,
        ),
    ensures
        c1.reg(n as int) == (c0.reg(n as int) + c0.reg(m as int)) % 0x1_0000_0000,
        forall|j: int| 0 <= j < 16 && j != n ==> c1.reg(j) == c0.reg(j),
        c1.t() == c0.t(),
        m1.cells == m0.cells,
{
    assert(c1 == c0.with_reg(n as int, w32(c0.reg(n as int) + c0.reg(m as int))));
    assert forall|j: int| 0 <= j < 16 && j != n implies c1.reg(j) == c0.reg(j) by {
        lemma_phys_injective(c0, j, n as int);
    }
}

/// A shift left by one doubles the register modulo 2^32 and moves its old
/// bit 31 into T; every other visible register and the memory are
/// unchanged.
pub proof fn lemma_shll_semantics(n: u8, c0: CpuView, m0: MemView, c1: CpuView, m1: MemView)
    requires
        n < 16,
        cpu_wf(c0),
        exec_post(Instruction::Shll(Operand::RegisterOperand(n)), c0, m0, c1, m1, 0),
    ensures
        c1.t() == (c0.reg(n as int) >= 0x8000_0000),
        c1.reg(n as int) == (c0.reg(n as int) * 2) % 0x1_0000_0000,
        forall|j: int| 0 <= j < 16 && j != n ==> c1.reg(j) == c0.reg(j),
        m1.cells == m0.cells,
{
    reveal_with_fuel(exec_post, 2);
    let v = c0.reg(n as int);
    assert((v & 0x8000_0000u32 != 0) == (v >= 0x8000_0000)) by (bit_vector);
    assert(v << 1u32 == (v * 2) % 0x1_0000_0000) by (bit_vector);
    lemma_with_t_bits(c0, v & 0x8000_0000u32 != 0);
    let b = v & 0x8000_0000u32 != 0;
    let ct = c0.with_t(b);
    assert(operand_value(Operand::RegisterOperand(n)) == n);
    assert(c1 == ct.with_reg(n as int, c0.reg(n as int) << 1u32));
    assert(ct.phys(n as int) == c0.phys(n as int));
    assert(c1.regs == ct.regs.update(ct.phys(n as int), v << 1u32));
    assert(c1.sr == ct.sr);
    assert forall|j: int| 0 <= j < 16 && j != n implies c1.reg(j) == c0.reg(j) by {
        lemma_phys_injective(c0, j, n as int);
        assert(ct.phys(j) == c0.phys(j));
        assert(c1.phys(j) == c0.phys(j));
        assert(c1.reg(j) == c1.regs[c0.phys(j)]);
        assert(c1.regs[c0.phys(j)] == ct.regs[c0.phys(j)]);
        assert(ct.regs == c0.regs);
    }
}

/// A logical shift right by one halves the register and moves its old
/// bit 0 into T; every other visible register and the memory are
/// unchanged.
pub proof fn lemma_shlr_semantics(n: u8, c0: CpuView, m0: MemView, c1: CpuView, m1: MemView)
    requires
        n < 16,
        cpu_wf(c0),
        exec_post(Instruction::Shlr(Operand::RegisterOperand(n)), c0, m0, c1, m1, 0),
    ensures
        c1.t() == (c0.reg(n as int) % 2 == 1),
        c1.reg(n as int) == c0.reg(n as int) / 2,
        forall|j: int| 0 <= j < 16 && j != n ==> c1.reg(j) == c0.reg(j),
        m1.cells == m0.cells,
{
    reveal_with_fuel(exec_post, 2);
    let v = c0.reg(n as int);
    assert((v & 0x1u32 != 0) == (v % 2 == 1)) by (bit_vector);
    assert(((v >> 1u32) & 0x7FFF_FFFFu32) == v / 2) by (bit_vector);
    lemma_with_t_bits(c0, v & 0x1u32 != 0);
    let b = v & 0x1u32 != 0;
    let ct = c0.with_t(b);
    assert(c1 == ct.with_reg(n as int, (c0.reg(n as int) >> 1u32) & 0x7FFF_FFFFu32));
    assert(ct.phys(n as int) == c0.phys(n as int));
    assert(c1.regs == ct.regs.update(ct.phys(n as int), (v >> 1u32) & 0x7FFF_FFFFu32));
    assert(c1.sr == ct.sr);
    assert forall|j: int| 0 <= j < 16 && j != n implies c1.reg(j) == c0.reg(j) by {
        lemma_phys_injective(c0, j, n as int);
        assert(ct.phys(j) == c0.phys(j));
        assert(c1.phys(j) == c0.phys(j));
        assert(c1.reg(j) == c1.regs[c0.phys(j)]);
        assert(c1.regs[c0.phys(j)] == ct.regs[c0.phys(j)]);
        assert(ct.regs == c0.regs);
    }
}

/// Loading a constant sign-extends the 8-bit immediate: values below 0x80
/// load as themselves, values from 0x80 up fill the high 24 bits with
/// ones; everything else is unchanged.
pub proof fn lemma_mov_constant_sign_semantics(
    n: u8,
    imm: u8,
    c0: CpuView,
    m0: MemView,
    c1: CpuView,
    m1: MemView,
)
    requires
        n < 16,
        cpu_wf(c0),
        exec_post(
            Instruction::MovConstantSign(
                Operand::RegisterOperand(n),
                Operand::ImmediateOperand(imm),
            ),
            c0,
            m0,
            c1,
            m1,
            0,
        ),
    ensures
        c1.reg(n as int) == (if imm < 0x80 {
            imm as u32
        } else {
            (imm + 0xFFFF_FF00) as u32
        }),
        forall|j: int| 0 <= j < 16 && j != n ==> c1.reg(j) == c0.reg(j),
        c1.t() == c0.t(),
        m1.cells == m0.cells,
{
    assert(c1 == c0.with_reg(n as int, sx8(imm)));
    assert forall|j: int| 0 <= j < 16 && j != n implies c1.reg(j) == c0.reg(j) by {
        lemma_phys_injective(c0, j, n as int);
    }
}

/// The delay slot of a BRA runs before control transfers: with a raw
/// register-to-register move in the slot, the final state shows the move
/// done and the program counter at the branch target.
pub proof fn lemma_delay_slot_bra(
    hi: u8,
    d: u8,
    n: u8,
    m: u8,
    c0: CpuView,
    m0: MemView,
    c1: CpuView,
    m1: MemView,
    w: u16,
)
    requires
        cpu_wf(c0),
        n < 16,
        m < 16,
        exec_post(
            Instruction::Bra(Operand::RegisterOperand(hi), Operand::DisplacementOperand(d)),
            c0,
            m0,
            c1,
            m1,
            0,
        ),
        spec_widx(w32(c0.pc + 2) as int) < m0.cells.len(),
        m0.cells[spec_widx(w32(c0.pc + 2) as int)] == MemoryField::MemoryCell(w),
        spec_decode(w) == Instruction::MovData(
            Operand::RegisterOperand(n),
            Operand::RegisterOperand(m),
        ),
    ensures
        c1.pc == w32(c0.pc + 2 + 2 * sx12(hi, d)),
        c1.reg(n as int) == c0.reg(m as int),
{
    reveal_with_fuel(step_post, 2);
    reveal_with_fuel(exec_post, 3);
    let pre = CpuView { pc: w32(c0.pc + 2), ..c0 };
    let cs = choose|cs: CpuView|
        trig_cpu(cs) && step_post(pre, m0, cs, m1, 1) && c1 == (CpuView {
            pc: w32(c0.pc + 2 + 2 * sx12(hi, d)),
            ..cs
        });
    assert(step_post(pre, m0, cs, m1, 1));
    let i = spec_decode(w);
    let cm = choose|cm: CpuView|
        trig_cpu(cm) && exec_post(
            i,
            with_max(pre),
            MemView {
                cells: m0.cells.update(
                    spec_widx(pre.pc as int),
                    MemoryField::InstructionCell(i),
                ),
                ..m0
            },
            cm,
            m1,
            1,
        ) && cs == (CpuView { pc: w32(cm.pc + 2), ..cm });
    assert(cm == with_max(pre).with_reg(n as int, with_max(pre).reg(m as int)));
    assert(c1.reg(n as int) == cm.reg(n as int));
}

/// A step at an already-cached field is exactly one execution of the
/// cached instruction followed by the advance of the program counter:
/// the relation involves no decoding and no write of a decoded form.
pub proof fn lemma_step_cached_no_decode(
    i: Instruction,
    c0: CpuView,
    m0: MemView,
    c1: CpuView,
    m1: MemView,
)
    requires
        step_post(c0, m0, c1, m1, 0),
        spec_widx(c0.pc as int) < m0.cells.len(),
        m0.cells[spec_widx(c0.pc as int)] == MemoryField::InstructionCell(i),
    ensures
        exists|cm: CpuView|
            #[trigger] trig_cpu(cm) && exec_post(i, with_max(c0), m0, cm, m1, 0) && c1 == (
            CpuView { pc: w32(cm.pc + 2), ..cm }),
{
    reveal_with_fuel(step_post, 2);
}

/// The first step at a raw cell writes the decoded form back into the
/// slot; with a register add in the cell, the slot afterwards holds the
/// cached instruction, so a second step at the same address executes it
/// without decoding.
pub proof fn lemma_decode_cache_promotion(
    n: u8,
    m: u8,
    w: u16,
    c0: CpuView,
    m0: MemView,
    c1: CpuView,
    m1: MemView,
)
    requires
        cpu_wf(c0),
        n < 16,
        m < 16,
        step_post(c0, m0, c1, m1, 0),
        spec_widx(c0.pc as int) < m0.cells.len(),
        m0.cells[spec_widx(c0.pc as int)] == MemoryField::MemoryCell(w),
        spec_decode(w) == Instruction::Add(
            Operand::RegisterOperand(n),
            Operand::RegisterOperand(m),
        ),
    ensures
        m1.cells[spec_widx(c0.pc as int)] == MemoryField::InstructionCell(spec_decode(w)),
{
    reveal_with_fuel(step_post, 2);
    reveal_with_fuel(exec_post, 3);
    let i = spec_decode(w);
    let mc = MemView {
        cells: m0.cells.update(spec_widx(c0.pc as int), MemoryField::InstructionCell(i)),
        ..m0
    };
    let cm = choose|cm: CpuView|
        trig_cpu(cm) && exec_post(i, with_max(c0), mc, cm, m1, 0) && c1 == (CpuView {
            pc: w32(cm.pc + 2),
            ..cm
        });
    assert(exec_post(i, with_max(c0), mc, cm, m1, 0));
    assert(m1.cells == mc.cells);
}

} // verus!
