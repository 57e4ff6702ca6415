use dreamoxide_core::MappedIO;
use dreamoxide_core::Memory;
use dreamoxide_core::MemoryField;
use dreamoxide_core::MemoryRange;
use dreamoxide_core::Operand;
use dreamoxide_core::StatusRegister;
use std::sync::mpsc::channel;

#[test]
fn round_trip_u32() {
    let mut mem = Memory::with_words(0x1000);
    mem.write_u32(0x100, 0xCAFEBABE);
    assert_eq!(mem.read_u32(0x100), 0xCAFEBABE);
    mem.write_u32(0x100, 0);
    assert_eq!(mem.read_u32(0x100), 0);
}

#[test]
fn round_trip_u16() {
    let mut mem = Memory::with_words(0x1000);
    mem.write_u16(0x102, 0xBEEF);
    assert_eq!(mem.read_u16(0x102), 0xBEEF);
}

#[test]
fn u8_write_preserves_adjacent_byte() {
    let mut mem = Memory::with_words(0x1000);
    mem.write_u16(0x200, 0x1234);
    mem.write_u8(0x200, 0xAB); // low byte of the word
    assert_eq!(mem.read_u16(0x200), 0x12AB);
    assert_eq!(mem.read_u8(0x200), 0xAB);
    assert_eq!(mem.read_u8(0x201), 0x12);
    mem.write_u8(0x201, 0xCD); // high byte of the word
    assert_eq!(mem.read_u16(0x200), 0xCDAB);
    assert_eq!(mem.read_u8(0x200), 0xAB);
}

#[test]
fn u32_layout_low_half_first() {
    let mut mem = Memory::with_words(0x1000);
    mem.write_u32(0x300, 0x11223344);
    assert_eq!(mem.read_u16(0x300), 0x3344);
    assert_eq!(mem.read_u16(0x302), 0x1122);
}

#[test]
fn read_i8_sign_extends() {
    let mut mem = Memory::with_words(0x1000);
    mem.write_u8(0x400, 0xFE);
    assert_eq!(mem.read_i8(0x400), -2);
}

#[test]
fn map_folds_top_bits() {
    assert_eq!(Memory::map(0x8C000000), 0x0C000000);
    assert_eq!(Memory::map(0xA0000000), 0x00000000);
    assert_eq!(Memory::map(0x0C001234), 0x0C001234);
    assert_eq!(Memory::map(0xFF000010), 0x1F000010);
    // folding is stable under a pre-masked address
    assert_eq!(Memory::map(0x8C000010), Memory::map(0x8C000010 & 0x1FFFFFFF));
}

#[test]
fn mirrored_addresses_reach_same_cell() {
    let mut mem = Memory::with_words(0x1000);
    mem.write_u32(0x123 * 4, 0x5555AAAA);
    assert_eq!(mem.read_u32(0xA0000000 + 0x123 * 4), 0x5555AAAA);
    assert_eq!(mem.read_u32(0x80000000 + 0x123 * 4), 0x5555AAAA);
}

#[test]
fn sign_extend_helpers() {
    assert_eq!(Memory::sign_extend_u8(0x7F), 127);
    assert_eq!(Memory::sign_extend_u8(0x80), -128);
    assert_eq!(Memory::sign_extend_u8(0xFF), -1);
    assert_eq!(Memory::sign_extend_u16(0x7FFF), 32767);
    assert_eq!(Memory::sign_extend_u16(0x8000), -32768);
    assert_eq!(Memory::sign_extend_u16(0xFFFF), -1);
}

#[test]
fn writes_demote_cached_cells() {
    let mut mem = Memory::with_words(0x1000);
    let inst = dreamoxide_core::InstructionDecoder::decode(0x0009);
    *mem.access_mut(0x500) = MemoryField::InstructionCell(inst);
    assert!(mem.access(0x500).is_instruction());
    mem.write_u16(0x500, 0x1234);
    assert!(mem.access(0x500).is_memory());
    assert_eq!(mem.read_u16(0x500), 0x1234);
}

#[test]
fn memory_field_accessors() {
    let mut f = MemoryField::MemoryCell(7);
    assert!(f.is_memory());
    assert!(!f.is_instruction());
    assert_eq!(f.get_memory(), 7);
    assert_eq!(f.get_instruction(), None);
    f.set_cell_value(9);
    assert_eq!(f.get_memory(), 9);
    let inst = dreamoxide_core::InstructionDecoder::decode(0x0009);
    let mut c = MemoryField::InstructionCell(inst);
    assert!(c.is_instruction());
    assert_eq!(c.get_instruction(), Some(inst));
    assert_eq!(c.get_memory(), 0);
    c.set_cell_value(3);
    assert!(c.is_instruction());
}

#[test]
fn operand_accessors() {
    let a = Operand::RegisterOperand(3);
    let b = Operand::ImmediateOperand(0xFF);
    let c = Operand::DisplacementOperand(9);
    assert!(a.is_register() && !a.is_immediate() && !a.is_displacement());
    assert!(b.is_immediate() && !b.is_register());
    assert!(c.is_displacement());
    assert_eq!(a.unwrap(), 3);
    assert_eq!(b.unwrap(), 0xFF);
    assert_eq!(c.unwrap(), 9);
}

#[test]
fn status_register_bits() {
    let mut sr = StatusRegister { value: 0 };
    assert!(sr.is_user_mode());
    sr.value = 0x4000_0000;
    assert!(sr.is_privileged() && !sr.is_user_mode());
    sr.value = 0x2000_0000;
    assert!(sr.is_banked());
    sr.value = 0x1000_0000;
    assert!(sr.is_interrupt());
    sr.value = 0x8000;
    assert!(sr.is_fpu_disabled());
    sr.value = 0x200;
    assert!(sr.is_m());
    sr.value = 0x100;
    assert!(sr.is_q());
    sr.value = 0x60;
    assert_eq!(sr.imask(), 3);
    sr.value = 0;
    sr.set_saturated_cond(true);
    assert!(sr.is_saturated());
    sr.set_saturated_cond(false);
    assert!(!sr.is_saturated());
    sr.set_carry_cond(true);
    assert!(sr.is_carry());
    sr.set_carry_cond(false);
    assert!(!sr.is_carry());
}

#[test]
fn memory_range_is_inclusive() {
    let range = MemoryRange(0x10, 0x20);
    assert!(range.is_within(0x10));
    assert!(range.is_within(0x18));
    assert!(range.is_within(0x20));
    assert!(!range.is_within(0x0F));
    assert!(!range.is_within(0x21));
}

#[test]
fn load_image_packs_byte_pairs() {
    let mut mem = Memory::with_words(0x1000);
    let image: Vec<u8> = vec![0x05, 0xE0, 0x03, 0x70];
    let n = mem.load_image(&image, 0x100);
    assert_eq!(n, 4);
    assert_eq!(mem.read_u16(0x100), 0xE005);
    assert_eq!(mem.read_u16(0x102), 0x7003);
}

#[test]
fn mapped_write_routes_to_registered_sender() {
    let mut mem = Memory::with_words(0x1000);
    let (stx, srx) = channel::<(usize, Option<u32>)>();
    let (_rtx, rrx) = channel::<u32>();
    mem.register_mapped_io(MappedIO {
        range: MemoryRange(0x00702C00, 0x00702C00),
        sender: stx,
        receiver: rrx,
    });
    assert!(mem.is_io_register(0x00702C00));
    assert!(!mem.is_io_register(0x00702BFF));
    mem.write_u32(0x00702C00, 0x7);
    assert_eq!(srx.try_recv().unwrap(), (0x00702C00, Some(0x7)));
    // an unrouted write still lands in the backing store
    mem.write_u32(0x100, 0x42);
    assert!(srx.try_recv().is_err());
    assert_eq!(mem.read_u32(0x100), 0x42);
}

#[test]
fn mapped_read_blocks_on_response_value() {
    let mut mem = Memory::with_words(0x1000);
    let (stx, srx) = channel::<(usize, Option<u32>)>();
    let (rtx, rrx) = channel::<u32>();
    mem.register_mapped_io(MappedIO {
        range: MemoryRange(0x00702C00, 0x00702C04),
        sender: stx,
        receiver: rrx,
    });
    rtx.send(0x12345678).unwrap();
    assert_eq!(mem.read_u32(0x00702C00), 0x12345678);
    assert_eq!(srx.try_recv().unwrap(), (0x00702C00, None));
}
