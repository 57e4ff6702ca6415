//! The processor state and the fetch-decode-execute loop driver. The
//! register file is physically 24 general and 32 floating registers; the
//! visible index is a function of the status bits, hidden behind indexed
//! accessors. `step` consults the memory field at PC: a cached instruction
//! executes directly, a raw cell is decoded and the decoded form written
//! back into the same slot before executing.

use vstd::prelude::*;
use crate::operand::Operand;
use crate::operand::operand_value;
use crate::register::StatusRegister;
use crate::register::GeneralRegister;
use crate::register::FloatingPointRegister;
use crate::memory::Memory;
use crate::memory_field::MemoryField;
use crate::instruction_decoder::InstructionDecoder;
use crate::instruction_decoder::spec_decode;
use crate::instruction_executer::InstructionExecuter;
use crate::instruction_executer::step_pre;
use crate::instruction_executer::step_post;
use crate::instruction_executer::exec_pre;
use crate::instruction_executer::exec_post;
use crate::instruction_executer::with_max;
use crate::instruction_executer::w32;
use crate::memory::MemView;
use crate::memory::spec_widx;

verus! {

/// The mask applied to values loaded into FPSCR.
pub const FPSCR_MASK: u32 = 0x003FFFFF;

/// The mathematical model of the processor state. `regs` and `fregs` are
/// the physical files; the visible registers are resolved through `phys`
/// and `fbank`.
#[verifier::ext_equal]
pub ghost struct CpuView {
    pub pc: u32,
    pub pr: u32,
    pub sr: u32,
    pub regs: Seq<u32>,
    pub fregs: Seq<u32>,
    pub macl: u32,
    pub mach: u32,
    pub dbr: u32,
    pub gbr: u32,
    pub vbr: u32,
    pub ssr: u32,
    pub spc: u32,
    pub fpscr: u32,
    pub fpul: u32,
    pub max: u32,
}

/// The physical register file sizes.
pub open spec fn cpu_wf(c: CpuView) -> bool {
    c.regs.len() == 24 && c.fregs.len() == 32
}

impl CpuView {
    /// The T bit of the status register.
    pub open spec fn t(self) -> bool {
        self.sr & 0x1u32 != 0
    }

    /// The T bit as 0 or 1.
    pub open spec fn t01(self) -> u32 {
        if self.t() {
            1u32
        } else {
            0u32
        }
    }

    /// The state with the T bit set to `b`.
    pub open spec fn with_t(self, b: bool) -> CpuView {
        CpuView { sr: if b { self.sr | 0x1u32 } else { self.sr & 0xFFFF_FFFEu32 }, ..self }
    }

    /// The state with the S (saturation) bit set to `b`.
    pub open spec fn with_s(self, b: bool) -> CpuView {
        CpuView { sr: if b { self.sr | 0x2u32 } else { self.sr & 0xFFFF_FFFDu32 }, ..self }
    }

    /// The physical slot of visible register `i`: R0-R7 resolve to the
    /// shadow bank when the processor is privileged and banked.
    pub open spec fn phys(self, i: int) -> int {
        if self.sr & 0x2000_0000u32 != 0 && self.sr & 0x4000_0000u32 != 0 && i < 8 {
            16 + i
        } else {
            i
        }
    }

    /// The physical slot of the *other* bank of low register `i`.
    pub open spec fn alt_phys(self, i: int) -> int {
        if self.sr & 0x2000_0000u32 != 0 && self.sr & 0x4000_0000u32 != 0 && i < 8 {
            i
        } else {
            16 + i
        }
    }

    /// The value of visible general register `i`.
    pub open spec fn reg(self, i: int) -> u32 {
        self.regs[self.phys(i)]
    }

    /// The value of the opposite-bank register `i` (i < 8).
    pub open spec fn alt_reg(self, i: int) -> u32 {
        self.regs[self.alt_phys(i)]
    }

    /// The state with visible register `i` set to `v`.
    pub open spec fn with_reg(self, i: int, v: u32) -> CpuView {
        CpuView { regs: self.regs.update(self.phys(i), v), ..self }
    }

    /// The base of the active floating-point bank (FPSCR bit 21).
    pub open spec fn fbank(self) -> int {
        if self.fpscr & 0x0020_0000u32 != 0 {
            16
        } else {
            0
        }
    }

    /// The bit pattern of visible floating register `i`.
    pub open spec fn freg(self, i: int) -> u32 {
        self.fregs[self.fbank() + i]
    }

    /// The state with visible floating register `i` set to `v`.
    pub open spec fn with_freg(self, i: int, v: u32) -> CpuView {
        CpuView { fregs: self.fregs.update(self.fbank() + i, v), ..self }
    }
}

/// The values of a physical general register file.
pub open spec fn regs_view(v: Seq<GeneralRegister>) -> Seq<u32> {
    Seq::new(v.len(), |i: int| v[i].value)
}

/// The bit patterns of a physical floating register file.
pub open spec fn fregs_view(v: Seq<FloatingPointRegister>) -> Seq<u32> {
    Seq::new(v.len(), |i: int| v[i].value)
}

proof fn lemma_regs_view_update(v: Seq<GeneralRegister>, k: int, x: u32)
    requires
        0 <= k < v.len(),
    ensures
        regs_view(v.update(k, GeneralRegister { value: x })) == regs_view(v).update(k, x),
{
    assert(regs_view(v.update(k, GeneralRegister { value: x })) =~= regs_view(v).update(k, x));
}

proof fn lemma_fregs_view_update(v: Seq<FloatingPointRegister>, k: int, x: u32)
    requires
        0 <= k < v.len(),
    ensures
        fregs_view(v.update(k, FloatingPointRegister { value: x })) == fregs_view(v).update(k, x),
{
    assert(fregs_view(v.update(k, FloatingPointRegister { value: x })) =~= fregs_view(v).update(
        k,
        x,
    ));
}

/// The processor: program counter, link register, status, the two banked
/// register files, and the auxiliary system registers.
pub struct Cpu {
    pub pc: u32,
    pub pr: u32,
    pub status: StatusRegister,
    pub registers: Vec<GeneralRegister>,
    pub fpu_registers: Vec<FloatingPointRegister>,
    pub macl: GeneralRegister,
    pub mach: GeneralRegister,
    pub dbr: GeneralRegister,
    pub gbr: GeneralRegister,
    pub vbr: GeneralRegister,
    pub ssr: GeneralRegister,
    pub spc: GeneralRegister,
    pub fpscr: GeneralRegister,
    pub fpul: GeneralRegister,
    pub max: u32,
}

impl View for Cpu {
    type V = CpuView;

    open spec fn view(&self) -> CpuView {
        CpuView {
            pc: self.pc,
            pr: self.pr,
            sr: self.status.value,
            regs: regs_view(self.registers@),
            fregs: fregs_view(self.fpu_registers@),
            macl: self.macl.value,
            mach: self.mach.value,
            dbr: self.dbr.value,
            gbr: self.gbr.value,
            vbr: self.vbr.value,
            ssr: self.ssr.value,
            spc: self.spc.value,
            fpscr: self.fpscr.value,
            fpul: self.fpul.value,
            max: self.max,
        }
    }
}

proof fn lemma_step_post_cached(
    c0: CpuView,
    m0: MemView,
    c1: CpuView,
    m1: MemView,
    depth: int,
    i: crate::instruction::Instruction,
    cm: CpuView,
)
    requires
        m0.cells[spec_widx(c0.pc as int)] == MemoryField::InstructionCell(i),
        exec_post(i, with_max(c0), m0, cm, m1, depth),
        c1 == (CpuView { pc: w32(cm.pc + 2), ..cm }),
        crate::instruction_executer::frame(c0, m0, c1, m1),
    ensures
        step_post(c0, m0, c1, m1, depth),
{
    reveal_with_fuel(crate::instruction_executer::step_post, 2);
    assert(crate::instruction_executer::trig_cpu(cm));
}

impl Cpu {
    /// The physical register files have their architectural sizes.
    pub open spec fn wf(&self) -> bool {
        self.registers@.len() == 24 && self.fpu_registers@.len() == 32
    }

    /// The initial state: PC at the boot vector, everything else zero.
    pub fn new() -> (r: Cpu)
        ensures
            r.wf(),
            r@.pc == 0xA000_0000u32,
            r@.pr == 0u32,
            r@.sr == 0u32,
            forall|i: int| 0 <= i < 24 ==> r@.regs[i] == 0u32,
            forall|i: int| 0 <= i < 32 ==> r@.fregs[i] == 0u32,
            r@.macl == 0u32 && r@.mach == 0u32 && r@.dbr == 0u32 && r@.gbr == 0u32,
            r@.vbr == 0u32 && r@.ssr == 0u32 && r@.spc == 0u32 && r@.fpscr == 0u32,
            r@.fpul == 0u32 && r@.max == 0u32,
    {
        let registers: Vec<GeneralRegister> = vec![GeneralRegister { value: 0u32 }; 24];
        let fpu_registers: Vec<FloatingPointRegister> =
            vec![FloatingPointRegister { value: 0u32 }; 32];
        proof {
            assert forall|i: int| 0 <= i < 24 implies registers@[i] == (GeneralRegister {
                value: 0u32,
            }) by {
                assert(cloned(GeneralRegister { value: 0u32 }, registers@[i]));
            }
            assert forall|i: int| 0 <= i < 32 implies fpu_registers@[i] == (FloatingPointRegister {
                value: 0u32,
            }) by {
                assert(cloned(FloatingPointRegister { value: 0u32 }, fpu_registers@[i]));
            }
        }
        Cpu {
            pc: 0xA0000000,
            pr: 0,
            status: StatusRegister { value: 0 },
            registers,
            fpu_registers,
            macl: GeneralRegister { value: 0 },
            mach: GeneralRegister { value: 0 },
            dbr: GeneralRegister { value: 0 },
            gbr: GeneralRegister { value: 0 },
            vbr: GeneralRegister { value: 0 },
            ssr: GeneralRegister { value: 0 },
            spc: GeneralRegister { value: 0 },
            fpscr: GeneralRegister { value: 0 },
            fpul: GeneralRegister { value: 0 },
            max: 0,
        }
    }

    /// The visible general register named by the operand, resolved
    /// through the bank selection of the status register.
    pub fn reg(&self, index: Operand) -> (r: u32)
        requires
            self.wf(),
            index is RegisterOperand,
            operand_value(index) < 16,
        ensures
            r == self@.reg(operand_value(index) as int),
    {
        let i = index.unwrap() as usize;
        let bank: usize = if self.status.is_banked() && self.status.is_privileged() && i < 8 {
            16
        } else {
            0
        };
        self.registers[bank + i].value
    }

    /// Writes the visible general register named by the operand.
    pub fn set_reg(&mut self, index: Operand, v: u32)
        requires
            old(self).wf(),
            index is RegisterOperand,
            operand_value(index) < 16,
        ensures
            final(self).wf(),
            final(self)@ == old(self)@.with_reg(operand_value(index) as int, v),
    {
        let i = index.unwrap() as usize;
        let bank: usize = if self.status.is_banked() && self.status.is_privileged() && i < 8 {
            16
        } else {
            0
        };
        self.registers[bank + i] = GeneralRegister { value: v };
        proof {
            lemma_regs_view_update(
                old(self).registers@,
                old(self)@.phys(operand_value(index) as int),
                v,
            );
            assert(self@ =~= old(self)@.with_reg(operand_value(index) as int, v));
        }
    }

    /// The opposite-bank low register named by the operand.
    pub fn banked(&self, reg: Operand) -> (r: GeneralRegister)
        requires
            self.wf(),
            reg is RegisterOperand,
            operand_value(reg) < 8,
        ensures
            r.value == self@.alt_reg(operand_value(reg) as int),
    {
        let i = reg.unwrap() as usize;
        let bank: usize = if self.status.is_banked() && self.status.is_privileged() && i < 8 {
            0
        } else {
            16
        };
        self.registers[bank + i]
    }

    /// The visible floating register named by the operand, resolved
    /// through the FPSCR bank bit.
    pub fn fpu(&self, reg: Operand) -> (r: FloatingPointRegister)
        requires
            self.wf(),
            reg is RegisterOperand,
            operand_value(reg) < 16,
        ensures
            r.value == self@.freg(operand_value(reg) as int),
    {
        let bank: usize = if self.fpscr.value & 0x200000 != 0 {
            16
        } else {
            0
        };
        self.fpu_registers[bank + reg.unwrap() as usize]
    }

    /// Writes the visible floating register named by the operand.
    pub fn set_fpu(&mut self, reg: Operand, v: u32)
        requires
            old(self).wf(),
            reg is RegisterOperand,
            operand_value(reg) < 16,
        ensures
            final(self).wf(),
            final(self)@ == old(self)@.with_freg(operand_value(reg) as int, v),
    {
        let bank: usize = if self.fpscr.value & 0x200000 != 0 {
            16
        } else {
            0
        };
        let i = bank + reg.unwrap() as usize;
        self.fpu_registers[i] = FloatingPointRegister { value: v };
        proof {
            lemma_fregs_view_update(
                old(self).fpu_registers@,
                old(self)@.fbank() + operand_value(reg) as int,
                v,
            );
            assert(self@ =~= old(self)@.with_freg(operand_value(reg) as int, v));
        }
    }

    /// Sets the T bit.
    pub fn set_t(&mut self, b: bool)
        ensures
            final(self).wf() == old(self).wf(),
            final(self)@ == old(self)@.with_t(b),
    {
        self.status.set_carry_cond(b);
        proof {
            assert(self@ =~= old(self)@.with_t(b));
        }
    }

    /// Sets the S (saturation) bit.
    pub fn set_s(&mut self, b: bool)
        ensures
            final(self).wf() == old(self).wf(),
            final(self)@ == old(self)@.with_s(b),
    {
        self.status.set_saturated_cond(b);
        proof {
            assert(self@ =~= old(self)@.with_s(b));
        }
    }

    /// Sets the program counter.
    pub fn set_pc(&mut self, v: u32)
        ensures
            final(self).wf() == old(self).wf(),
            final(self)@ == (CpuView { pc: v, ..old(self)@ }),
    {
        self.pc = v;
        proof {
            assert(self@ =~= (CpuView { pc: v, ..old(self)@ }));
        }
    }

    /// Sets the link register.
    pub fn set_pr(&mut self, v: u32)
        ensures
            final(self).wf() == old(self).wf(),
            final(self)@ == (CpuView { pr: v, ..old(self)@ }),
    {
        self.pr = v;
        proof {
            assert(self@ =~= (CpuView { pr: v, ..old(self)@ }));
        }
    }

    /// Sets the whole status register.
    pub fn set_sr(&mut self, v: u32)
        ensures
            final(self).wf() == old(self).wf(),
            final(self)@ == (CpuView { sr: v, ..old(self)@ }),
    {
        self.status = StatusRegister { value: v };
        proof {
            assert(self@ =~= (CpuView { sr: v, ..old(self)@ }));
        }
    }

    /// Sets MACL.
    pub fn set_macl(&mut self, v: u32)
        ensures
            final(self).wf() == old(self).wf(),
            final(self)@ == (CpuView { macl: v, ..old(self)@ }),
    {
        self.macl = GeneralRegister { value: v };
        proof {
            assert(self@ =~= (CpuView { macl: v, ..old(self)@ }));
        }
    }

    /// Sets MACH.
    pub fn set_mach(&mut self, v: u32)
        ensures
            final(self).wf() == old(self).wf(),
            final(self)@ == (CpuView { mach: v, ..old(self)@ }),
    {
        self.mach = GeneralRegister { value: v };
        proof {
            assert(self@ =~= (CpuView { mach: v, ..old(self)@ }));
        }
    }

    /// Sets DBR.
    pub fn set_dbr(&mut self, v: u32)
        ensures
            final(self).wf() == old(self).wf(),
            final(self)@ == (CpuView { dbr: v, ..old(self)@ }),
    {
        self.dbr = GeneralRegister { value: v };
        proof {
            assert(self@ =~= (CpuView { dbr: v, ..old(self)@ }));
        }
    }

    /// Sets GBR.
    pub fn set_gbr(&mut self, v: u32)
        ensures
            final(self).wf() == old(self).wf(),
            final(self)@ == (CpuView { gbr: v, ..old(self)@ }),
    {
        self.gbr = GeneralRegister { value: v };
        proof {
            assert(self@ =~= (CpuView { gbr: v, ..old(self)@ }));
        }
    }

    /// Sets VBR.
    pub fn set_vbr(&mut self, v: u32)
        ensures
            final(self).wf() == old(self).wf(),
            final(self)@ == (CpuView { vbr: v, ..old(self)@ }),
    {
        self.vbr = GeneralRegister { value: v };
        proof {
            assert(self@ =~= (CpuView { vbr: v, ..old(self)@ }));
        }
    }

    /// Sets SSR.
    pub fn set_ssr(&mut self, v: u32)
        ensures
            final(self).wf() == old(self).wf(),
            final(self)@ == (CpuView { ssr: v, ..old(self)@ }),
    {
        self.ssr = GeneralRegister { value: v };
        proof {
            assert(self@ =~= (CpuView { ssr: v, ..old(self)@ }));
        }
    }

    /// Sets SPC.
    pub fn set_spc(&mut self, v: u32)
        ensures
            final(self).wf() == old(self).wf(),
            final(self)@ == (CpuView { spc: v, ..old(self)@ }),
    {
        self.spc = GeneralRegister { value: v };
        proof {
            assert(self@ =~= (CpuView { spc: v, ..old(self)@ }));
        }
    }

    /// Sets FPSCR.
    pub fn set_fpscr(&mut self, v: u32)
        ensures
            final(self).wf() == old(self).wf(),
            final(self)@ == (CpuView { fpscr: v, ..old(self)@ }),
    {
        self.fpscr = GeneralRegister { value: v };
        proof {
            assert(self@ =~= (CpuView { fpscr: v, ..old(self)@ }));
        }
    }

    /// Sets FPUL.
    pub fn set_fpul(&mut self, v: u32)
        ensures
            final(self).wf() == old(self).wf(),
            final(self)@ == (CpuView { fpul: v, ..old(self)@ }),
    {
        self.fpul = GeneralRegister { value: v };
        proof {
            assert(self@ =~= (CpuView { fpul: v, ..old(self)@ }));
        }
    }

    /// One fetch-decode-execute step. A cached field executes directly; a
    /// raw field is decoded, the decoded form cached in its slot, and then
    /// executed; the program counter advances by 2 afterwards either way.
    /// The executed instruction may itself overwrite PC (branches) and run
    /// the instruction in its delay slot through one nested step.
    pub fn step(&mut self, mem: &mut Memory)
        requires
            old(self).wf(),
            old(mem).wf(),
            step_pre(old(self)@, old(mem)@, 0),
        ensures
            final(self).wf(),
            final(mem).wf(),
            step_post(old(self)@, old(mem)@, final(self)@, final(mem)@, 0),
    {
        self.step_at(mem, 0);
    }

    /// The step body, at nesting depth 0 (a top-level step) or 1 (the
    /// delay slot of a branch). A branch in a delay slot does not nest
    /// further: it is refused and leaves the state unchanged.
    pub(crate) fn step_at(&mut self, mem: &mut Memory, depth: u8)
        requires
            old(self).wf(),
            old(mem).wf(),
            depth <= 1,
            step_pre(old(self)@, old(mem)@, depth as int),
        ensures
            final(self).wf(),
            final(mem).wf(),
            step_post(old(self)@, old(mem)@, final(self)@, final(mem)@, depth as int),
        decreases 1int - depth, 2int,
    {
        if self.pc > self.max && self.pc < 0xa0000000 {
            self.max = self.pc;
        }
        proof {
            assert(self@ =~= with_max(old(self)@));
        }
        let ghost c0m = self@;
        let field = *mem.access(self.pc as usize);
        match field {
            MemoryField::InstructionCell(inst) => {
                InstructionExecuter::execute_at(self, mem, inst, depth);
                let ghost cm = self@;
                let pc2 = crate::instruction_executer::wadd(self.pc, 2);
                self.set_pc(pc2);
                proof {
                    reveal_with_fuel(crate::instruction_executer::step_post, 2);
                    reveal_with_fuel(crate::instruction_executer::exec_post, 2);
                    assert(exec_post(inst, c0m, old(mem)@, cm, mem@, depth as int));
                    assert(self@ == (CpuView { pc: w32(cm.pc + 2), ..cm }));
                    assert(old(mem)@.cells[spec_widx(old(self)@.pc as int)]
                        == MemoryField::InstructionCell(inst));
                    assert(crate::instruction_executer::frame(old(self)@, old(mem)@, self@, mem@));
                    assert(crate::instruction_executer::trig_cpu(cm));
                    assert(step_post(old(self)@, old(mem)@, self@, mem@, depth as int));
                }
            },
            MemoryField::MemoryCell(val) => {
                let inst = InstructionDecoder::decode(val);
                let slot = mem.access_mut(self.pc as usize);
                *slot = MemoryField::InstructionCell(inst);
                let ghost mc = mem@;
                proof {
                    assert(mc.cells =~= old(mem)@.cells.update(
                        spec_widx(old(self)@.pc as int),
                        MemoryField::InstructionCell(spec_decode(val)),
                    ));
                    assert(mc =~= (MemView {
                        cells: old(mem)@.cells.update(
                            spec_widx(old(self)@.pc as int),
                            MemoryField::InstructionCell(spec_decode(val)),
                        ),
                        ..old(mem)@
                    }));
                }
                InstructionExecuter::execute_at(self, mem, inst, depth);
                let ghost cm = self@;
                let pc2 = crate::instruction_executer::wadd(self.pc, 2);
                self.set_pc(pc2);
                proof {
                    reveal_with_fuel(crate::instruction_executer::step_post, 2);
                    reveal_with_fuel(crate::instruction_executer::exec_post, 2);
                    assert(crate::instruction_executer::trig_cpu(cm));
                    assert(exec_post(inst, c0m, mc, cm, mem@, depth as int));
                    assert(self@ == (CpuView { pc: w32(cm.pc + 2), ..cm }));
                    assert(step_post(old(self)@, old(mem)@, self@, mem@, depth as int));
                }
            },
        }
    }
}

} // verus!
