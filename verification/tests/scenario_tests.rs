use dreamoxide_core::Cpu;
use dreamoxide_core::GeneralRegister;
use dreamoxide_core::Instruction;
use dreamoxide_core::InstructionExecuter;
use dreamoxide_core::MappedIO;
use dreamoxide_core::Memory;
use dreamoxide_core::MemoryRange;
use dreamoxide_core::Operand;
use std::sync::mpsc::channel;

// Enough 16-bit fields to cover the system-RAM window where the programs
// are loaded (folded address 0x0C000000 and a little beyond 0x0C020000).
const WORDS: usize = 0x0602_0000;

fn machine_at(pc: u32) -> (Cpu, Memory) {
    let mut cpu = Cpu::new();
    cpu.pc = pc;
    (cpu, Memory::with_words(WORDS))
}

#[test]
fn r0_arithmetic_program() {
    // mov #5, R0 ; add #3, R0 ; rts
    let (mut cpu, mut mem) = machine_at(0x8C000000);
    let image: Vec<u8> = vec![0x05, 0xE0, 0x03, 0x70, 0x0B, 0x00];
    mem.load_image(&image, 0x8C000000);
    cpu.step(&mut mem);
    assert_eq!(cpu.registers[0].value, 5);
    cpu.step(&mut mem);
    assert_eq!(cpu.registers[0].value, 8);
    cpu.step(&mut mem);
    // rts without a call: the delay slot past the program is a zero cell
    // (decoded as a store), and PC lands on PR = 0
    assert_eq!(cpu.registers[0].value, 0x0000_0008);
    assert_eq!(cpu.status.value & 1, 0);
    assert_eq!(cpu.pc, 0);
}

#[test]
fn delayed_bra_runs_its_slot_first() {
    // bra +1 ; mov #0x2A, R1 (delay slot) ; nop ; mov #0x55, R2 (target)
    let (mut cpu, mut mem) = machine_at(0x8C000000);
    let image: Vec<u8> = vec![0x01, 0xA0, 0x2A, 0xE1, 0x09, 0x00, 0x55, 0xE2];
    mem.load_image(&image, 0x8C000000);
    cpu.step(&mut mem);
    // the slot ran before control moved
    assert_eq!(cpu.registers[1].value, 0x2A);
    assert_eq!(cpu.pc, 0x8C000006);
    cpu.step(&mut mem);
    assert_eq!(cpu.registers[2].value, 0x55);
}

#[test]
fn pc_relative_long_load() {
    // mov.l @(0, PC), R0 with the literal at (PC & !3) + 4
    let (mut cpu, mut mem) = machine_at(0x8C000000);
    let image: Vec<u8> = vec![0x00, 0xD0];
    mem.load_image(&image, 0x8C000000);
    mem.write_u32(0x8C000004, 0xCAFEBABE);
    cpu.step(&mut mem);
    assert_eq!(cpu.registers[0].value, 0xCAFEBABE);
}

#[test]
fn gbr_relative_byte_store() {
    // mov.b R0, @(4, GBR)
    let (mut cpu, mut mem) = machine_at(0x8C000000);
    cpu.gbr = GeneralRegister { value: 0x8C010000 };
    cpu.registers[0] = GeneralRegister { value: 0x41 };
    let image: Vec<u8> = vec![0x04, 0xC0];
    mem.load_image(&image, 0x8C000000);
    cpu.step(&mut mem);
    assert_eq!(mem.read_u8(0x8C010004), 0x41);
}

#[test]
fn mmio_write_and_read_round_trip() {
    let mut cpu = Cpu::new();
    let mut mem = Memory::with_words(0x1000);
    let (stx, srx) = channel::<(usize, Option<u32>)>();
    let (rtx, rrx) = channel::<u32>();
    mem.register_mapped_io(MappedIO {
        range: MemoryRange(0x00702C00, 0x00702C00),
        sender: stx,
        receiver: rrx,
    });
    // the CPU writes 0x7 through a store
    cpu.registers[1] = GeneralRegister { value: 0x00702C00 };
    cpu.registers[0] = GeneralRegister { value: 0x7 };
    InstructionExecuter::execute(
        &mut cpu,
        &mut mem,
        Instruction::MovDataLStore(
            Operand::RegisterOperand(1),
            Operand::RegisterOperand(0),
        ),
    );
    assert_eq!(srx.try_recv().unwrap(), (0x00702C00, Some(0x7)));
    // a read returns exactly what the peripheral sends next
    rtx.send(0xFEED).unwrap();
    InstructionExecuter::execute(
        &mut cpu,
        &mut mem,
        Instruction::MovDataSignLLoad(
            Operand::RegisterOperand(2),
            Operand::RegisterOperand(1),
        ),
    );
    assert_eq!(cpu.registers[2].value, 0xFEED);
    assert_eq!(srx.try_recv().unwrap(), (0x00702C00, None));
}

#[test]
fn decode_cache_promotion() {
    let (mut cpu, mut mem) = machine_at(0x8C000000);
    mem.write_u16(0x8C000000, 0x3012);
    assert!(mem.access(0x8C000000).is_memory());
    cpu.step(&mut mem);
    // the first step wrote the decoded form back into the slot
    let cached = mem.access(0x8C000000).get_instruction();
    assert!(cached.is_some());
    assert_eq!(
        cached.unwrap(),
        dreamoxide_core::InstructionDecoder::decode(0x3012)
    );
    // a second step at the same address finds the slot already decoded
    cpu.pc = 0x8C000000;
    cpu.step(&mut mem);
    assert!(mem.access(0x8C000000).is_instruction());
    assert_eq!(
        mem.access(0x8C000000).get_instruction().unwrap(),
        dreamoxide_core::InstructionDecoder::decode(0x3012)
    );
}

#[test]
fn delayed_conditional_branches() {
    // bfs +1 ; mov #3, R1 (delay slot)
    let mut cpu = Cpu::new();
    let mut mem = Memory::with_words(0x1000);
    mem.write_u16(0x100, 0x8F01);
    mem.write_u16(0x102, 0xE103);
    cpu.pc = 0x100;
    cpu.status.value = 0; // T clear: taken
    cpu.step(&mut mem);
    assert_eq!(cpu.registers[1].value, 3);
    assert_eq!(cpu.pc, 0x106);
    let mut cpu2 = Cpu::new();
    cpu2.pc = 0x100;
    cpu2.status.value = 1; // T set: not taken, falls past the slot
    cpu2.step(&mut mem);
    assert_eq!(cpu2.registers[1].value, 3);
    assert_eq!(cpu2.pc, 0x104);
}

#[test]
fn jsr_records_return_and_rts_returns() {
    // jsr @R1 ; nop (slot) ; ... target: rts ; nop (slot)
    let mut cpu = Cpu::new();
    let mut mem = Memory::with_words(0x1000);
    mem.write_u16(0x100, 0x410B); // jsr @R1
    mem.write_u16(0x102, 0x0009); // nop, delay slot
    mem.write_u16(0x200, 0x000B); // rts
    mem.write_u16(0x202, 0x0009); // nop, delay slot
    cpu.pc = 0x100;
    cpu.registers[1] = GeneralRegister { value: 0x200 };
    cpu.step(&mut mem);
    assert_eq!(cpu.pr, 0x104);
    assert_eq!(cpu.pc, 0x200);
    cpu.step(&mut mem);
    assert_eq!(cpu.pc, 0x104);
}

#[test]
fn plain_conditional_branches() {
    // bt +3 at 0x100: target 0x100 + 4 + 6
    let mut cpu = Cpu::new();
    let mut mem = Memory::with_words(0x1000);
    mem.write_u16(0x100, 0x8903);
    cpu.pc = 0x100;
    cpu.status.value = 1;
    cpu.step(&mut mem);
    assert_eq!(cpu.pc, 0x10A);
    let mut cpu2 = Cpu::new();
    cpu2.pc = 0x100;
    cpu2.status.value = 0;
    cpu2.step(&mut mem);
    assert_eq!(cpu2.pc, 0x102);
}

#[test]
fn can_step_guards_the_interpreter() {
    let mut cpu = Cpu::new();
    let mut mem = Memory::with_words(0x1000);
    cpu.pc = 0x100;
    mem.write_u16(0x100, 0x0009); // nop
    assert!(cpu.can_step(&mem));
    // an operation the engine does not define
    mem.write_u16(0x100, 0x3014); // div1
    assert!(!cpu.can_step(&mem));
    // a load whose address lies outside the backing store
    mem.write_u16(0x100, 0x6122); // mov.l @R2, R1
    cpu.registers[2] = GeneralRegister { value: 0x0C00_0000 };
    assert!(!cpu.can_step(&mem));
    cpu.registers[2] = GeneralRegister { value: 0x200 };
    assert!(cpu.can_step(&mem));
    // a delayed branch checks its delay slot as well
    mem.write_u16(0x100, 0xA001); // bra
    mem.write_u16(0x102, 0x3014); // div1 in the slot
    assert!(!cpu.can_step(&mem));
    mem.write_u16(0x102, 0x0009); // nop in the slot
    assert!(cpu.can_step(&mem));
    // an undecodable word is a defined no-op, so stepping is fine
    mem.write_u16(0x100, 0xFFFF);
    assert!(cpu.can_step(&mem));
    cpu.step(&mut mem);
    assert_eq!(cpu.pc, 0x102);
}
