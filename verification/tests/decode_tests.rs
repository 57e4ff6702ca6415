use dreamoxide_core::Instruction;
use dreamoxide_core::InstructionDecoder;
use dreamoxide_core::InstructionGroup;
use dreamoxide_core::Operand;

fn r(n: u8) -> Operand {
    Operand::RegisterOperand(n)
}

fn imm(v: u8) -> Operand {
    Operand::ImmediateOperand(v)
}

fn disp(v: u8) -> Operand {
    Operand::DisplacementOperand(v)
}

#[test]
fn decode_alu_forms() {
    assert_eq!(InstructionDecoder::decode(0x301C), Instruction::Add(r(0), r(1)));
    assert_eq!(InstructionDecoder::decode(0x3128), Instruction::Sub(r(1), r(2)));
    assert_eq!(InstructionDecoder::decode(0x321E), Instruction::AddWithCarry(r(2), r(1)));
    assert_eq!(InstructionDecoder::decode(0x321F), Instruction::AddOverflow(r(2), r(1)));
    assert_eq!(InstructionDecoder::decode(0x7203), Instruction::AddConstant(r(2), imm(3)));
    assert_eq!(InstructionDecoder::decode(0x2309), Instruction::And(r(3), r(0)));
    assert_eq!(InstructionDecoder::decode(0x230B), Instruction::Or(r(3), r(0)));
    assert_eq!(InstructionDecoder::decode(0x230A), Instruction::Xor(r(3), r(0)));
    assert_eq!(InstructionDecoder::decode(0x6073), Instruction::MovData(r(0), r(7)));
    assert_eq!(InstructionDecoder::decode(0x600B), Instruction::ExtUB(r(0), r(0)));
    assert_eq!(InstructionDecoder::decode(0x612C), Instruction::ExtUW(r(1), r(2)));
    assert_eq!(InstructionDecoder::decode(0x612E), Instruction::ExtSB(r(1), r(2)));
    assert_eq!(InstructionDecoder::decode(0x612F), Instruction::ExtSW(r(1), r(2)));
}

#[test]
fn decode_compare_and_test_forms() {
    assert_eq!(InstructionDecoder::decode(0x3120), Instruction::CmpEq(r(1), r(2)));
    assert_eq!(InstructionDecoder::decode(0x3122), Instruction::CmpHs(r(1), r(2)));
    assert_eq!(InstructionDecoder::decode(0x3123), Instruction::CmpGe(r(1), r(2)));
    assert_eq!(InstructionDecoder::decode(0x3126), Instruction::CmpHi(r(1), r(2)));
    assert_eq!(InstructionDecoder::decode(0x3127), Instruction::CmpGt(r(1), r(2)));
    assert_eq!(InstructionDecoder::decode(0x4111), Instruction::CmpPz(r(1)));
    assert_eq!(InstructionDecoder::decode(0x4115), Instruction::CmpPl(r(1)));
    assert_eq!(InstructionDecoder::decode(0x212C), Instruction::CmpStr(r(1), r(2)));
    assert_eq!(InstructionDecoder::decode(0x8805), Instruction::CmpEqImm(imm(5)));
    assert_eq!(InstructionDecoder::decode(0x2128), Instruction::Tst(r(1), r(2)));
    assert_eq!(InstructionDecoder::decode(0xC880), Instruction::TstImm(imm(0x80)));
    assert_eq!(InstructionDecoder::decode(0x4A1B), Instruction::Tas(r(10)));
    assert_eq!(InstructionDecoder::decode(0x4510), Instruction::Dt(r(5)));
}

#[test]
fn decode_shift_forms() {
    assert_eq!(InstructionDecoder::decode(0x4300), Instruction::Shll(r(3)));
    assert_eq!(InstructionDecoder::decode(0x4308), Instruction::Shll2(r(3)));
    assert_eq!(InstructionDecoder::decode(0x4318), Instruction::Shll8(r(3)));
    assert_eq!(InstructionDecoder::decode(0x4328), Instruction::Shll16(r(3)));
    assert_eq!(InstructionDecoder::decode(0x4301), Instruction::Shlr(r(3)));
    assert_eq!(InstructionDecoder::decode(0x4309), Instruction::Shlr2(r(3)));
    assert_eq!(InstructionDecoder::decode(0x4319), Instruction::Shlr8(r(3)));
    assert_eq!(InstructionDecoder::decode(0x4329), Instruction::Shlr16(r(3)));
    assert_eq!(InstructionDecoder::decode(0x4321), Instruction::Shar(r(3)));
    assert_eq!(InstructionDecoder::decode(0x4305), Instruction::Rotr(r(3)));
    assert_eq!(InstructionDecoder::decode(0x4304), Instruction::Rotl(r(3)));
}

#[test]
fn decode_branch_forms() {
    assert_eq!(InstructionDecoder::decode(0x8903), Instruction::Bt(disp(3)));
    assert_eq!(InstructionDecoder::decode(0x8BFE), Instruction::Bf(disp(0xFE)));
    assert_eq!(InstructionDecoder::decode(0x8D01), Instruction::Bts(disp(1)));
    assert_eq!(InstructionDecoder::decode(0x8F01), Instruction::Bfs(disp(1)));
    assert_eq!(InstructionDecoder::decode(0xA001), Instruction::Bra(r(0), disp(1)));
    assert_eq!(InstructionDecoder::decode(0xB102), Instruction::Bsr(r(1), disp(2)));
    assert_eq!(InstructionDecoder::decode(0x0023), Instruction::Braf(r(0)));
    assert_eq!(InstructionDecoder::decode(0x0003), Instruction::Bsrf(r(0)));
    assert_eq!(InstructionDecoder::decode(0x402B), Instruction::Jmp(r(0)));
    assert_eq!(InstructionDecoder::decode(0x400B), Instruction::Jsr(r(0)));
    assert_eq!(InstructionDecoder::decode(0x000B), Instruction::Rts);
}

#[test]
fn decode_move_forms() {
    assert_eq!(InstructionDecoder::decode(0xE105), Instruction::MovConstantSign(r(1), imm(5)));
    assert_eq!(InstructionDecoder::decode(0x9102), Instruction::MovConstantLoadW(r(1), disp(2)));
    assert_eq!(InstructionDecoder::decode(0xD000), Instruction::MovConstantLoadL(r(0), disp(0)));
    assert_eq!(InstructionDecoder::decode(0x2120), Instruction::MovDataBStore(r(1), r(2)));
    assert_eq!(InstructionDecoder::decode(0x2121), Instruction::MovDataWStore(r(1), r(2)));
    assert_eq!(InstructionDecoder::decode(0x2122), Instruction::MovDataLStore(r(1), r(2)));
    assert_eq!(InstructionDecoder::decode(0x2124), Instruction::MovDataBStore1(r(1), r(2)));
    assert_eq!(InstructionDecoder::decode(0x2125), Instruction::MovDataWStore2(r(1), r(2)));
    assert_eq!(InstructionDecoder::decode(0x2126), Instruction::MovDataLStore4(r(1), r(2)));
    assert_eq!(InstructionDecoder::decode(0x6120), Instruction::MovDataSignBLoad(r(1), r(2)));
    assert_eq!(InstructionDecoder::decode(0x6121), Instruction::MovDataSignWLoad(r(1), r(2)));
    assert_eq!(InstructionDecoder::decode(0x6122), Instruction::MovDataSignLLoad(r(1), r(2)));
    assert_eq!(InstructionDecoder::decode(0x6124), Instruction::MovDataSignBLoad1(r(1), r(2)));
    assert_eq!(InstructionDecoder::decode(0x6125), Instruction::MovDataSignWLoad2(r(1), r(2)));
    assert_eq!(InstructionDecoder::decode(0x6126), Instruction::MovDataSignLLoad4(r(1), r(2)));
    assert_eq!(InstructionDecoder::decode(0x0124), Instruction::MovDataStoreR0B(r(1), r(2)));
    assert_eq!(InstructionDecoder::decode(0x0125), Instruction::MovDataStoreR0W(r(1), r(2)));
    assert_eq!(InstructionDecoder::decode(0x0126), Instruction::MovDataStoreR0L(r(1), r(2)));
    assert_eq!(InstructionDecoder::decode(0x012C), Instruction::MovDataLoadR0B(r(1), r(2)));
    assert_eq!(InstructionDecoder::decode(0x012D), Instruction::MovDataLoadR0W(r(1), r(2)));
    assert_eq!(InstructionDecoder::decode(0x012E), Instruction::MovDataLoadR0L(r(1), r(2)));
    assert_eq!(InstructionDecoder::decode(0x1234), Instruction::MovStructStoreL(r(2), imm(0x34)));
    assert_eq!(InstructionDecoder::decode(0x5234), Instruction::MovStructLoadL(r(2), imm(0x34)));
    assert_eq!(
        InstructionDecoder::decode(0x8032),
        Instruction::MovStructStoreB(r(3), disp(2))
    );
    assert_eq!(
        InstructionDecoder::decode(0x8132),
        Instruction::MovStructStoreW(r(3), disp(2))
    );
    assert_eq!(InstructionDecoder::decode(0x8432), Instruction::MovStructLoadB(r(3), disp(2)));
    assert_eq!(InstructionDecoder::decode(0x8532), Instruction::MovStructLoadW(r(3), disp(2)));
    assert_eq!(InstructionDecoder::decode(0xC004), Instruction::MovGlobalStoreB(disp(4)));
    assert_eq!(InstructionDecoder::decode(0xC104), Instruction::MovGlobalStoreW(disp(4)));
    assert_eq!(InstructionDecoder::decode(0xC204), Instruction::MovGlobalStoreL(disp(4)));
    assert_eq!(InstructionDecoder::decode(0xC404), Instruction::MovGlobalLoadB(disp(4)));
    assert_eq!(InstructionDecoder::decode(0xC504), Instruction::MovGlobalLoadW(disp(4)));
    assert_eq!(InstructionDecoder::decode(0xC604), Instruction::MovGlobalLoadL(disp(4)));
    assert_eq!(InstructionDecoder::decode(0xC702), Instruction::MovA(disp(2)));
    assert_eq!(InstructionDecoder::decode(0x0029), Instruction::MovT(r(0)));
    assert_eq!(InstructionDecoder::decode(0x6188), Instruction::SwapB(r(1), r(8)));
    assert_eq!(InstructionDecoder::decode(0x6189), Instruction::SwapW(r(1), r(8)));
}

#[test]
fn decode_system_forms() {
    assert_eq!(InstructionDecoder::decode(0x0008), Instruction::Clrt);
    assert_eq!(InstructionDecoder::decode(0x0018), Instruction::Sett);
    assert_eq!(InstructionDecoder::decode(0x0048), Instruction::Clrs);
    assert_eq!(InstructionDecoder::decode(0x0058), Instruction::Sets);
    assert_eq!(InstructionDecoder::decode(0x0009), Instruction::Nop);
    assert_eq!(InstructionDecoder::decode(0x400E), Instruction::LdcSr(r(0)));
    assert_eq!(InstructionDecoder::decode(0x4407), Instruction::LdcLSr(r(4)));
    assert_eq!(InstructionDecoder::decode(0x4417), Instruction::LdcLGbr(r(4)));
    assert_eq!(InstructionDecoder::decode(0x442A), Instruction::LdsPr(r(4)));
    assert_eq!(InstructionDecoder::decode(0x446A), Instruction::LdsFpscr(r(4)));
    assert_eq!(InstructionDecoder::decode(0x0012), Instruction::StcGbr(r(0)));
    assert_eq!(InstructionDecoder::decode(0x00A2), Instruction::StcBanked(r(0), 2));
    assert_eq!(InstructionDecoder::decode(0x000A), Instruction::StsMacH(r(0)));
    assert_eq!(InstructionDecoder::decode(0x001A), Instruction::StsMacL(r(0)));
    assert_eq!(InstructionDecoder::decode(0x0177), Instruction::MulL(r(1), r(7)));
    assert_eq!(InstructionDecoder::decode(0x217F), Instruction::MulSW(r(1), r(7)));
    assert_eq!(InstructionDecoder::decode(0x217E), Instruction::MulUW(r(1), r(7)));
    assert_eq!(InstructionDecoder::decode(0x017F), Instruction::MacL(r(1), r(7)));
    assert_eq!(InstructionDecoder::decode(0x0183), Instruction::Pref(r(1)));
    assert_eq!(InstructionDecoder::decode(0x01C3), Instruction::MovCA(r(1)));
    assert_eq!(InstructionDecoder::decode(0xFFFF), Instruction::Unknown);
    assert_eq!(InstructionDecoder::decode(0x0FFF), Instruction::MacL(r(15), r(15)));
}

#[test]
fn decode_fpu_forms() {
    assert_eq!(InstructionDecoder::decode(0xF120), Instruction::FAdd(r(1), r(2)));
    assert_eq!(InstructionDecoder::decode(0xF12C), Instruction::FMov(r(1), r(2)));
    // even destination: pair load; odd destination: single load
    assert_eq!(InstructionDecoder::decode(0xF239), Instruction::FMovLoadD8(r(2), r(3)));
    assert_eq!(InstructionDecoder::decode(0xF339), Instruction::FMovLoadS4(r(3), r(3)));
    // even source: pair store (register index halved); odd source: single
    assert_eq!(InstructionDecoder::decode(0xF24B), Instruction::FMovStoreD8(r(2), r(2)));
    assert_eq!(InstructionDecoder::decode(0xF23B), Instruction::FMovStoreS4(r(2), r(3)));
    assert_eq!(InstructionDecoder::decode(0xFFFD), Instruction::Frchg);
}

#[test]
fn decode_is_pure() {
    for w in [0x301Cu16, 0xE005, 0x0009, 0xFFFF, 0xA001] {
        assert_eq!(InstructionDecoder::decode(w), InstructionDecoder::decode(w));
    }
}

#[test]
fn alters_pc_exactly_for_bf_bt_jmp() {
    assert!(InstructionDecoder::alters_pc(Instruction::Bf(disp(1))));
    assert!(InstructionDecoder::alters_pc(Instruction::Bt(disp(1))));
    assert!(InstructionDecoder::alters_pc(Instruction::Jmp(r(1))));
    assert!(!InstructionDecoder::alters_pc(Instruction::Bra(r(0), disp(1))));
    assert!(!InstructionDecoder::alters_pc(Instruction::Bfs(disp(1))));
    assert!(!InstructionDecoder::alters_pc(Instruction::Rts));
    assert!(!InstructionDecoder::alters_pc(Instruction::Add(r(0), r(1))));
    assert!(!InstructionDecoder::alters_pc(Instruction::Nop));
}

#[test]
fn instruction_groups_and_parallelizable() {
    assert_eq!(
        InstructionDecoder::instruction_group(Instruction::Add(r(0), r(1))),
        InstructionGroup::EX
    );
    assert_eq!(
        InstructionDecoder::instruction_group(Instruction::CmpEq(r(0), r(1))),
        InstructionGroup::MT
    );
    assert_eq!(
        InstructionDecoder::instruction_group(Instruction::Bra(r(0), disp(1))),
        InstructionGroup::BR
    );
    assert_eq!(
        InstructionDecoder::instruction_group(Instruction::Nop),
        InstructionGroup::Unknown
    );
    // two MT operations may pair; equal groups otherwise may not
    assert!(InstructionDecoder::parallelizable(InstructionGroup::MT, InstructionGroup::MT));
    assert!(!InstructionDecoder::parallelizable(InstructionGroup::EX, InstructionGroup::EX));
    assert!(!InstructionDecoder::parallelizable(InstructionGroup::BR, InstructionGroup::BR));
    // CO never pairs
    assert!(!InstructionDecoder::parallelizable(InstructionGroup::CO, InstructionGroup::EX));
    assert!(!InstructionDecoder::parallelizable(InstructionGroup::EX, InstructionGroup::CO));
    // different non-CO groups pair
    assert!(InstructionDecoder::parallelizable(InstructionGroup::EX, InstructionGroup::BR));
    assert!(InstructionDecoder::parallelizable(InstructionGroup::MT, InstructionGroup::EX));
}

#[test]
fn alters_pc_matches_variants_for_every_word() {
    for w in 0..=0xFFFFu16 {
        let i = InstructionDecoder::decode(w);
        let expected = matches!(
            i,
            Instruction::Bf(_) | Instruction::Bt(_) | Instruction::Jmp(_)
        );
        assert_eq!(InstructionDecoder::alters_pc(i), expected);
    }
}

#[test]
fn decode_total_over_all_words() {
    // every pattern decodes to some variant; spot that decoding twice agrees
    for w in (0..=0xFFFFu16).step_by(97) {
        assert_eq!(InstructionDecoder::decode(w), InstructionDecoder::decode(w));
    }
}
