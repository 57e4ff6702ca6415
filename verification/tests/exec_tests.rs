use dreamoxide_core::Cpu;
use dreamoxide_core::GeneralRegister;
use dreamoxide_core::FloatingPointRegister;
use dreamoxide_core::Instruction;
use dreamoxide_core::InstructionExecuter;
use dreamoxide_core::Memory;
use dreamoxide_core::Operand;

fn r(n: u8) -> Operand {
    Operand::RegisterOperand(n)
}

fn imm(v: u8) -> Operand {
    Operand::ImmediateOperand(v)
}

fn machine() -> (Cpu, Memory) {
    let mut cpu = Cpu::new();
    cpu.pc = 0x100;
    (cpu, Memory::with_words(0x1000))
}

fn set(cpu: &mut Cpu, n: usize, v: u32) {
    cpu.registers[n] = GeneralRegister { value: v };
}

fn get(cpu: &Cpu, n: usize) -> u32 {
    cpu.registers[n].value
}

#[test]
fn add_wraps_and_preserves_others() {
    let (mut cpu, mut mem) = machine();
    set(&mut cpu, 0, 0xFFFF_FFFF);
    set(&mut cpu, 1, 0x0000_0005);
    set(&mut cpu, 2, 0xDEAD_BEEF);
    InstructionExecuter::execute(&mut cpu, &mut mem, Instruction::Add(r(0), r(1)));
    assert_eq!(get(&cpu, 0), 0x0000_0004);
    assert_eq!(get(&cpu, 1), 0x0000_0005);
    assert_eq!(get(&cpu, 2), 0xDEAD_BEEF);
    assert_eq!(cpu.status.value & 1, 0);
}

#[test]
fn add_constant_sign_extends() {
    let (mut cpu, mut mem) = machine();
    set(&mut cpu, 3, 10);
    InstructionExecuter::execute(&mut cpu, &mut mem, Instruction::AddConstant(r(3), imm(0xFE)));
    assert_eq!(get(&cpu, 3), 8);
}

#[test]
fn addc_uses_and_sets_carry() {
    let (mut cpu, mut mem) = machine();
    set(&mut cpu, 0, 0xFFFF_FFFF);
    set(&mut cpu, 1, 1);
    InstructionExecuter::execute(&mut cpu, &mut mem, Instruction::AddWithCarry(r(0), r(1)));
    assert_eq!(get(&cpu, 0), 0);
    assert_eq!(cpu.status.value & 1, 1);
    // carry now feeds the next add
    set(&mut cpu, 2, 5);
    set(&mut cpu, 3, 6);
    InstructionExecuter::execute(&mut cpu, &mut mem, Instruction::AddWithCarry(r(2), r(3)));
    assert_eq!(get(&cpu, 2), 12);
    assert_eq!(cpu.status.value & 1, 0);
}

#[test]
fn addv_signals_signed_overflow() {
    let (mut cpu, mut mem) = machine();
    set(&mut cpu, 0, 0x7FFF_FFFF);
    set(&mut cpu, 1, 1);
    InstructionExecuter::execute(&mut cpu, &mut mem, Instruction::AddOverflow(r(0), r(1)));
    assert_eq!(get(&cpu, 0), 0x8000_0000);
    assert_eq!(cpu.status.value & 1, 1);
    set(&mut cpu, 2, 3);
    set(&mut cpu, 3, 4);
    InstructionExecuter::execute(&mut cpu, &mut mem, Instruction::AddOverflow(r(2), r(3)));
    assert_eq!(get(&cpu, 2), 7);
    assert_eq!(cpu.status.value & 1, 0);
}

#[test]
fn sub_wraps() {
    let (mut cpu, mut mem) = machine();
    set(&mut cpu, 0, 3);
    set(&mut cpu, 1, 5);
    InstructionExecuter::execute(&mut cpu, &mut mem, Instruction::Sub(r(0), r(1)));
    assert_eq!(get(&cpu, 0), 0xFFFF_FFFE);
}

#[test]
fn shll_sets_t_from_bit31() {
    let (mut cpu, mut mem) = machine();
    set(&mut cpu, 0, 0x8000_0001);
    InstructionExecuter::execute(&mut cpu, &mut mem, Instruction::Shll(r(0)));
    assert_eq!(get(&cpu, 0), 0x0000_0002);
    assert_eq!(cpu.status.value & 1, 1);
    set(&mut cpu, 1, 0x4000_0000);
    InstructionExecuter::execute(&mut cpu, &mut mem, Instruction::Shll(r(1)));
    assert_eq!(get(&cpu, 1), 0x8000_0000);
    assert_eq!(cpu.status.value & 1, 0);
}

#[test]
fn shlr_sets_t_from_bit0() {
    let (mut cpu, mut mem) = machine();
    set(&mut cpu, 0, 0x0000_0003);
    InstructionExecuter::execute(&mut cpu, &mut mem, Instruction::Shlr(r(0)));
    assert_eq!(get(&cpu, 0), 1);
    assert_eq!(cpu.status.value & 1, 1);
    set(&mut cpu, 1, 0x8000_0000);
    InstructionExecuter::execute(&mut cpu, &mut mem, Instruction::Shlr(r(1)));
    assert_eq!(get(&cpu, 1), 0x4000_0000);
    assert_eq!(cpu.status.value & 1, 0);
}

#[test]
fn fixed_shifts_leave_t_alone() {
    let (mut cpu, mut mem) = machine();
    cpu.status.value = 1;
    set(&mut cpu, 0, 0xFFFF_FFFF);
    InstructionExecuter::execute(&mut cpu, &mut mem, Instruction::Shll8(r(0)));
    assert_eq!(get(&cpu, 0), 0xFFFF_FF00);
    assert_eq!(cpu.status.value & 1, 1);
    InstructionExecuter::execute(&mut cpu, &mut mem, Instruction::Shlr16(r(0)));
    assert_eq!(get(&cpu, 0), 0x0000_FFFF);
    assert_eq!(cpu.status.value & 1, 1);
}

#[test]
fn shar_keeps_sign_rotr_rotates() {
    let (mut cpu, mut mem) = machine();
    set(&mut cpu, 0, 0x8000_0002);
    InstructionExecuter::execute(&mut cpu, &mut mem, Instruction::Shar(r(0)));
    assert_eq!(get(&cpu, 0), 0xC000_0001);
    assert_eq!(cpu.status.value & 1, 0);
    set(&mut cpu, 1, 0x0000_0001);
    InstructionExecuter::execute(&mut cpu, &mut mem, Instruction::Rotr(r(1)));
    assert_eq!(get(&cpu, 1), 0x8000_0000);
    assert_eq!(cpu.status.value & 1, 1);
}

#[test]
fn dt_decrements_and_tests() {
    let (mut cpu, mut mem) = machine();
    set(&mut cpu, 0, 2);
    InstructionExecuter::execute(&mut cpu, &mut mem, Instruction::Dt(r(0)));
    assert_eq!(get(&cpu, 0), 1);
    assert_eq!(cpu.status.value & 1, 0);
    InstructionExecuter::execute(&mut cpu, &mut mem, Instruction::Dt(r(0)));
    assert_eq!(get(&cpu, 0), 0);
    assert_eq!(cpu.status.value & 1, 1);
}

#[test]
fn compares_signed_and_unsigned() {
    let (mut cpu, mut mem) = machine();
    set(&mut cpu, 0, 0xFFFF_FFFF); // -1 signed, max unsigned
    set(&mut cpu, 1, 1);
    InstructionExecuter::execute(&mut cpu, &mut mem, Instruction::CmpHi(r(0), r(1)));
    assert_eq!(cpu.status.value & 1, 1);
    InstructionExecuter::execute(&mut cpu, &mut mem, Instruction::CmpGt(r(0), r(1)));
    assert_eq!(cpu.status.value & 1, 0);
    InstructionExecuter::execute(&mut cpu, &mut mem, Instruction::CmpPz(r(0)));
    assert_eq!(cpu.status.value & 1, 0);
    InstructionExecuter::execute(&mut cpu, &mut mem, Instruction::CmpPl(r(1)));
    assert_eq!(cpu.status.value & 1, 1);
    InstructionExecuter::execute(&mut cpu, &mut mem, Instruction::CmpEq(r(0), r(0)));
    assert_eq!(cpu.status.value & 1, 1);
}

#[test]
fn cmpstr_finds_equal_byte() {
    let (mut cpu, mut mem) = machine();
    set(&mut cpu, 0, 0x1122_3344);
    set(&mut cpu, 1, 0x5566_3378);
    InstructionExecuter::execute(&mut cpu, &mut mem, Instruction::CmpStr(r(0), r(1)));
    assert_eq!(cpu.status.value & 1, 1);
    set(&mut cpu, 1, 0x5566_7788);
    InstructionExecuter::execute(&mut cpu, &mut mem, Instruction::CmpStr(r(0), r(1)));
    assert_eq!(cpu.status.value & 1, 0);
}

#[test]
fn sign_extension_boundaries() {
    let (mut cpu, mut mem) = machine();
    InstructionExecuter::execute(
        &mut cpu,
        &mut mem,
        Instruction::MovConstantSign(r(0), imm(0xFF)),
    );
    assert_eq!(get(&cpu, 0), 0xFFFF_FFFF);
    InstructionExecuter::execute(
        &mut cpu,
        &mut mem,
        Instruction::MovConstantSign(r(1), imm(0x7F)),
    );
    assert_eq!(get(&cpu, 1), 0x0000_007F);
}

#[test]
fn extensions_and_swaps() {
    let (mut cpu, mut mem) = machine();
    set(&mut cpu, 1, 0x1234_56F9);
    InstructionExecuter::execute(&mut cpu, &mut mem, Instruction::ExtUB(r(0), r(1)));
    assert_eq!(get(&cpu, 0), 0xF9);
    InstructionExecuter::execute(&mut cpu, &mut mem, Instruction::ExtSB(r(0), r(1)));
    assert_eq!(get(&cpu, 0), 0xFFFF_FFF9);
    InstructionExecuter::execute(&mut cpu, &mut mem, Instruction::ExtUW(r(0), r(1)));
    assert_eq!(get(&cpu, 0), 0x56F9);
    InstructionExecuter::execute(&mut cpu, &mut mem, Instruction::ExtSW(r(0), r(1)));
    assert_eq!(get(&cpu, 0), 0x0000_56F9);
    InstructionExecuter::execute(&mut cpu, &mut mem, Instruction::SwapB(r(2), r(1)));
    assert_eq!(get(&cpu, 2), 0x1234_F956);
    InstructionExecuter::execute(&mut cpu, &mut mem, Instruction::SwapW(r(2), r(1)));
    assert_eq!(get(&cpu, 2), 0x56F9_1234);
}

#[test]
fn multiplies() {
    let (mut cpu, mut mem) = machine();
    set(&mut cpu, 0, 0x0001_0003);
    set(&mut cpu, 1, 0x0002_0005);
    InstructionExecuter::execute(&mut cpu, &mut mem, Instruction::MulUW(r(0), r(1)));
    assert_eq!(cpu.macl.value, 15);
    InstructionExecuter::execute(&mut cpu, &mut mem, Instruction::MulL(r(0), r(1)));
    assert_eq!(cpu.macl.value, 0x0001_0003u32.wrapping_mul(0x0002_0005));
    set(&mut cpu, 2, 0xFFFF_FFFF); // -1
    set(&mut cpu, 3, 5);
    InstructionExecuter::execute(&mut cpu, &mut mem, Instruction::MulSW(r(2), r(3)));
    assert_eq!(cpu.macl.value, (-5i32) as u32);
}

#[test]
fn logic_immediates_touch_r0() {
    let (mut cpu, mut mem) = machine();
    set(&mut cpu, 0, 0xFF);
    InstructionExecuter::execute(&mut cpu, &mut mem, Instruction::AndImm(imm(0x0F)));
    assert_eq!(get(&cpu, 0), 0x0F);
    InstructionExecuter::execute(&mut cpu, &mut mem, Instruction::OrImm(imm(0xA0)));
    assert_eq!(get(&cpu, 0), 0xAF);
    InstructionExecuter::execute(&mut cpu, &mut mem, Instruction::XorImm(imm(0xFF)));
    assert_eq!(get(&cpu, 0), 0x50);
    InstructionExecuter::execute(&mut cpu, &mut mem, Instruction::TstImm(imm(0x0F)));
    assert_eq!(cpu.status.value & 1, 1);
    InstructionExecuter::execute(&mut cpu, &mut mem, Instruction::TstImm(imm(0x50)));
    assert_eq!(cpu.status.value & 1, 0);
}

#[test]
fn movt_and_system_bits() {
    let (mut cpu, mut mem) = machine();
    InstructionExecuter::execute(&mut cpu, &mut mem, Instruction::Sett);
    InstructionExecuter::execute(&mut cpu, &mut mem, Instruction::MovT(r(4)));
    assert_eq!(get(&cpu, 4), 1);
    InstructionExecuter::execute(&mut cpu, &mut mem, Instruction::Clrt);
    InstructionExecuter::execute(&mut cpu, &mut mem, Instruction::MovT(r(4)));
    assert_eq!(get(&cpu, 4), 0);
    InstructionExecuter::execute(&mut cpu, &mut mem, Instruction::Sets);
    assert_eq!(cpu.status.value & 2, 2);
    InstructionExecuter::execute(&mut cpu, &mut mem, Instruction::Clrs);
    assert_eq!(cpu.status.value & 2, 0);
}

#[test]
fn system_register_transfers() {
    let (mut cpu, mut mem) = machine();
    set(&mut cpu, 0, 0x1234_5678);
    InstructionExecuter::execute(&mut cpu, &mut mem, Instruction::LdcGbr(r(0)));
    assert_eq!(cpu.gbr.value, 0x1234_5678);
    InstructionExecuter::execute(&mut cpu, &mut mem, Instruction::StcGbr(r(5)));
    assert_eq!(get(&cpu, 5), 0x1234_5678);
    InstructionExecuter::execute(&mut cpu, &mut mem, Instruction::LdsPr(r(0)));
    assert_eq!(cpu.pr, 0x1234_5678);
    InstructionExecuter::execute(&mut cpu, &mut mem, Instruction::LdcSr(r(0)));
    assert_eq!(cpu.status.value, 0x1234_5678 & 0x7000_83F3);
    InstructionExecuter::execute(&mut cpu, &mut mem, Instruction::LdsFpscr(r(0)));
    assert_eq!(cpu.fpscr.value, 0x1234_5678 & 0x003F_FFFF);
}

#[test]
fn memory_moves_byte_word_long() {
    let (mut cpu, mut mem) = machine();
    set(&mut cpu, 1, 0x200);
    set(&mut cpu, 2, 0xCAFE_BABE);
    InstructionExecuter::execute(&mut cpu, &mut mem, Instruction::MovDataLStore(r(1), r(2)));
    assert_eq!(mem.read_u32(0x200), 0xCAFE_BABE);
    InstructionExecuter::execute(&mut cpu, &mut mem, Instruction::MovDataSignLLoad(r(3), r(1)));
    assert_eq!(get(&cpu, 3), 0xCAFE_BABE);
    InstructionExecuter::execute(&mut cpu, &mut mem, Instruction::MovDataSignWLoad(r(4), r(1)));
    assert_eq!(get(&cpu, 4), 0xFFFF_BABE);
    InstructionExecuter::execute(&mut cpu, &mut mem, Instruction::MovDataSignBLoad(r(5), r(1)));
    assert_eq!(get(&cpu, 5), 0xFFFF_FFBE);
}

#[test]
fn auto_modifying_moves() {
    let (mut cpu, mut mem) = machine();
    set(&mut cpu, 1, 0x208);
    set(&mut cpu, 2, 0x1122_3344);
    InstructionExecuter::execute(&mut cpu, &mut mem, Instruction::MovDataLStore4(r(1), r(2)));
    assert_eq!(get(&cpu, 1), 0x204);
    assert_eq!(mem.read_u32(0x204), 0x1122_3344);
    InstructionExecuter::execute(&mut cpu, &mut mem, Instruction::MovDataSignLLoad4(r(3), r(1)));
    assert_eq!(get(&cpu, 3), 0x1122_3344);
    assert_eq!(get(&cpu, 1), 0x208);
    // when source and destination coincide the post-increment is suppressed
    set(&mut cpu, 6, 0x204);
    InstructionExecuter::execute(&mut cpu, &mut mem, Instruction::MovDataSignLLoad4(r(6), r(6)));
    assert_eq!(get(&cpu, 6), 0x1122_3344);
}

#[test]
fn r0_indexed_and_struct_moves() {
    let (mut cpu, mut mem) = machine();
    set(&mut cpu, 0, 4);
    set(&mut cpu, 1, 0x300);
    set(&mut cpu, 2, 0xAABB_CCDD);
    InstructionExecuter::execute(&mut cpu, &mut mem, Instruction::MovDataStoreR0L(r(1), r(2)));
    assert_eq!(mem.read_u32(0x304), 0xAABB_CCDD);
    InstructionExecuter::execute(&mut cpu, &mut mem, Instruction::MovDataLoadR0L(r(3), r(1)));
    assert_eq!(get(&cpu, 3), 0xAABB_CCDD);
    // mov.l R3, @(2, R1) writes at R1 + 8; the operand packs (m=3, d=2)
    InstructionExecuter::execute(
        &mut cpu,
        &mut mem,
        Instruction::MovStructStoreL(r(1), imm(0x32)),
    );
    assert_eq!(mem.read_u32(0x308), 0xAABB_CCDD);
    InstructionExecuter::execute(
        &mut cpu,
        &mut mem,
        Instruction::MovStructLoadL(r(4), imm(0x12)),
    );
    assert_eq!(get(&cpu, 4), 0xAABB_CCDD);
}

#[test]
fn gbr_relative_moves_scale_by_size() {
    let (mut cpu, mut mem) = machine();
    cpu.gbr = GeneralRegister { value: 0x400 };
    set(&mut cpu, 0, 0x41);
    InstructionExecuter::execute(
        &mut cpu,
        &mut mem,
        Instruction::MovGlobalStoreB(Operand::DisplacementOperand(4)),
    );
    assert_eq!(mem.read_u8(0x404), 0x41);
    set(&mut cpu, 0, 0xBEEF);
    InstructionExecuter::execute(
        &mut cpu,
        &mut mem,
        Instruction::MovGlobalStoreW(Operand::DisplacementOperand(4)),
    );
    assert_eq!(mem.read_u16(0x408), 0xBEEF);
    set(&mut cpu, 0, 0xDEAD_BEEF);
    InstructionExecuter::execute(
        &mut cpu,
        &mut mem,
        Instruction::MovGlobalStoreL(Operand::DisplacementOperand(4)),
    );
    assert_eq!(mem.read_u32(0x410), 0xDEAD_BEEF);
    set(&mut cpu, 0, 0);
    InstructionExecuter::execute(
        &mut cpu,
        &mut mem,
        Instruction::MovGlobalLoadL(Operand::DisplacementOperand(4)),
    );
    assert_eq!(get(&cpu, 0), 0xDEAD_BEEF);
}

#[test]
fn byte_rmw_at_gbr_r0() {
    let (mut cpu, mut mem) = machine();
    cpu.gbr = GeneralRegister { value: 0x500 };
    set(&mut cpu, 0, 2);
    mem.write_u8(0x502, 0b1010_0110);
    InstructionExecuter::execute(&mut cpu, &mut mem, Instruction::AndB(imm(0b1100_0110)));
    assert_eq!(mem.read_u8(0x502), 0b1000_0110);
    InstructionExecuter::execute(&mut cpu, &mut mem, Instruction::OrB(imm(0b0000_1001)));
    assert_eq!(mem.read_u8(0x502), 0b1000_1111);
    InstructionExecuter::execute(&mut cpu, &mut mem, Instruction::XorB(imm(0b1111_0000)));
    assert_eq!(mem.read_u8(0x502), 0b0111_1111);
    InstructionExecuter::execute(&mut cpu, &mut mem, Instruction::TstB(imm(0x80)));
    assert_eq!(cpu.status.value & 1, 1);
}

#[test]
fn tas_reads_tests_and_sets_bit7() {
    let (mut cpu, mut mem) = machine();
    set(&mut cpu, 1, 0x600);
    InstructionExecuter::execute(&mut cpu, &mut mem, Instruction::Tas(r(1)));
    assert_eq!(cpu.status.value & 1, 1);
    assert_eq!(mem.read_u8(0x600), 0x80);
    InstructionExecuter::execute(&mut cpu, &mut mem, Instruction::Tas(r(1)));
    assert_eq!(cpu.status.value & 1, 0);
    assert_eq!(mem.read_u8(0x600), 0x80);
}

#[test]
fn macl_accumulates_and_advances() {
    let (mut cpu, mut mem) = machine();
    mem.write_u32(0x700, 6);
    set(&mut cpu, 1, 0x700);
    set(&mut cpu, 2, 0x800);
    cpu.macl = GeneralRegister { value: 10 };
    InstructionExecuter::execute(&mut cpu, &mut mem, Instruction::MacL(r(1), r(2)));
    // both factors read from the destination-register address
    assert_eq!(cpu.macl.value, 10 + 36);
    assert_eq!(cpu.mach.value, 0);
    assert_eq!(get(&cpu, 1), 0x704);
    assert_eq!(get(&cpu, 2), 0x804);
}

#[test]
fn fpu_moves_and_bank_swap() {
    let (mut cpu, mut mem) = machine();
    cpu.fpu_registers[1] = FloatingPointRegister { value: 0x4048_F5C3 };
    InstructionExecuter::execute(&mut cpu, &mut mem, Instruction::FMov(r(0), r(1)));
    assert_eq!(cpu.fpu_registers[0].value, 0x4048_F5C3);
    // bank swap: accesses now resolve to the upper bank
    InstructionExecuter::execute(&mut cpu, &mut mem, Instruction::Frchg);
    assert_eq!(cpu.fpscr.value & 0x0020_0000, 0x0020_0000);
    cpu.fpu_registers[17] = FloatingPointRegister { value: 0x3F80_0000 };
    InstructionExecuter::execute(&mut cpu, &mut mem, Instruction::FMov(r(2), r(1)));
    assert_eq!(cpu.fpu_registers[18].value, 0x3F80_0000);
}

#[test]
fn fadd_matches_ieee_single() {
    let (mut cpu, mut mem) = machine();
    cpu.fpu_registers[0] = FloatingPointRegister { value: 1.0f32.to_bits() };
    cpu.fpu_registers[1] = FloatingPointRegister { value: 2.0f32.to_bits() };
    InstructionExecuter::execute(&mut cpu, &mut mem, Instruction::FAdd(r(0), r(1)));
    assert_eq!(cpu.fpu_registers[0].value, 3.0f32.to_bits());
    cpu.fpu_registers[2] = FloatingPointRegister { value: 0.1f32.to_bits() };
    cpu.fpu_registers[3] = FloatingPointRegister { value: 0.2f32.to_bits() };
    InstructionExecuter::execute(&mut cpu, &mut mem, Instruction::FAdd(r(2), r(3)));
    assert_eq!(cpu.fpu_registers[2].value, (0.1f32 + 0.2f32).to_bits());
}

#[test]
fn fpu_memory_transfers() {
    let (mut cpu, mut mem) = machine();
    mem.write_u32(0x800, 0x3F80_0000);
    mem.write_u32(0x804, 0x4000_0000);
    set(&mut cpu, 1, 0x800);
    InstructionExecuter::execute(&mut cpu, &mut mem, Instruction::FMovLoadS4(r(0), r(1)));
    assert_eq!(cpu.fpu_registers[0].value, 0x3F80_0000);
    assert_eq!(get(&cpu, 1), 0x804);
    set(&mut cpu, 1, 0x800);
    InstructionExecuter::execute(&mut cpu, &mut mem, Instruction::FMovLoadD8(r(2), r(1)));
    assert_eq!(cpu.fpu_registers[2].value, 0x3F80_0000);
    assert_eq!(cpu.fpu_registers[3].value, 0x4000_0000);
    assert_eq!(get(&cpu, 1), 0x808);
    set(&mut cpu, 4, 0x900);
    InstructionExecuter::execute(&mut cpu, &mut mem, Instruction::FMovStoreS4(r(4), r(2)));
    assert_eq!(get(&cpu, 4), 0x8FC);
    assert_eq!(mem.read_u32(0x8FC), 0x3F80_0000);
    set(&mut cpu, 4, 0x910);
    InstructionExecuter::execute(&mut cpu, &mut mem, Instruction::FMovStoreD8(r(4), r(2)));
    assert_eq!(get(&cpu, 4), 0x908);
    assert_eq!(mem.read_u32(0x908), 0x3F80_0000);
    assert_eq!(mem.read_u32(0x90C), 0x4000_0000);
}

#[test]
fn banked_registers_switch_with_status() {
    let (mut cpu, mut mem) = machine();
    // privileged + banked: R0-R7 resolve to the shadow bank
    cpu.status.value = 0x6000_0000;
    set(&mut cpu, 16, 0x11);
    InstructionExecuter::execute(&mut cpu, &mut mem, Instruction::MovData(r(8), r(0)));
    assert_eq!(get(&cpu, 8), 0x11);
    // StcBanked reads the inactive bank
    cpu.registers[2] = GeneralRegister { value: 0x22 };
    InstructionExecuter::execute(&mut cpu, &mut mem, Instruction::StcBanked(r(9), 2));
    assert_eq!(get(&cpu, 9), 0x22);
}

#[test]
fn unknown_and_nop_do_nothing() {
    let (mut cpu, mut mem) = machine();
    set(&mut cpu, 0, 7);
    let before = cpu.status.value;
    InstructionExecuter::execute(&mut cpu, &mut mem, Instruction::Unknown);
    InstructionExecuter::execute(&mut cpu, &mut mem, Instruction::Nop);
    InstructionExecuter::execute(&mut cpu, &mut mem, Instruction::Pref(r(0)));
    assert_eq!(get(&cpu, 0), 7);
    assert_eq!(cpu.status.value, before);
}

#[test]
fn initial_cpu_state() {
    let cpu = Cpu::new();
    assert_eq!(cpu.pc, 0xA000_0000);
    assert_eq!(cpu.pr, 0);
    assert_eq!(cpu.status.value, 0);
    assert!(cpu.registers.iter().all(|g| g.value == 0));
    assert!(cpu.fpu_registers.iter().all(|f| f.value == 0));
    assert_eq!(cpu.gbr.value, 0);
    assert_eq!(cpu.macl.value, 0);
}

#[test]
fn register_accessors_resolve_banks() {
    let mut cpu = Cpu::new();
    cpu.registers[3] = GeneralRegister { value: 0x33 };
    assert_eq!(cpu.reg(r(3)), 0x33);
    assert_eq!(cpu.banked(r(3)).value, 0); // the shadow slot is separate
    cpu.registers[19] = GeneralRegister { value: 0x44 };
    assert_eq!(cpu.banked(r(3)).value, 0x44);
    cpu.status.value = 0x6000_0000; // privileged + banked
    assert_eq!(cpu.reg(r(3)), 0x44);
    assert_eq!(cpu.banked(r(3)).value, 0x33);
    cpu.set_reg(r(3), 0x55);
    assert_eq!(cpu.registers[19].value, 0x55);
    let mut cpu2 = Cpu::new();
    cpu2.fpu_registers[5] = FloatingPointRegister { value: 0x99 };
    assert_eq!(cpu2.fpu(r(5)).value, 0x99);
    cpu2.set_fpu(r(6), 0xAA);
    assert_eq!(cpu2.fpu_registers[6].value, 0xAA);
}
