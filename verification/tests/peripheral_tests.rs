use dreamoxide_core::Bsc;
use dreamoxide_core::Dsp;
use dreamoxide_core::Memory;

#[test]
fn bsc_registers_write_and_read_back() {
    let mut mem = Memory::with_words(0x1000);
    let mut bsc = Bsc::new(&mut mem);
    bsc.write_pctra(0xAAAA_5555);
    assert_eq!(bsc.pctra, 0xAAAA_5555);
    bsc.write_pctrb(0x1234_5678);
    assert_eq!(bsc.pctrb, 0x1234_5678);
    bsc.write_pdtra(0x00F0);
    assert_eq!(bsc.pdtra, 0x00F0);
    bsc.write_pdtrb(0x0F00);
    assert_eq!(bsc.pdtrb, 0x0F00);
}

#[test]
fn bsc_pdtra_read_combines_input_mask_and_quirk() {
    let mut mem = Memory::with_words(0x1000);
    let mut bsc = Bsc::new(&mut mem);
    // lines 8 and 9 configured as inputs (bits 16-19 = 0b1010), the two
    // low lines not driven as outputs: the quirk latches them high
    bsc.write_pctra(0x000A_0000);
    bsc.write_pdtra(0x0000);
    let v = bsc.read_pdtra();
    assert_eq!(bsc.pdtra, 0x0003);
    assert_eq!(v, 0x0300 | 0x0003);
    // now drive line 0 as an output with a low value: the quirk clears
    bsc.write_pctra(0x0000_0001);
    bsc.write_pdtra(0x0000);
    let v2 = bsc.read_pdtra();
    assert_eq!(bsc.pdtra, 0x0000);
    assert_eq!(v2, 0x0000);
}

#[test]
fn bsc_pdtrb_read_applies_quirk_only() {
    let mut mem = Memory::with_words(0x1000);
    let mut bsc = Bsc::new(&mut mem);
    bsc.write_pctrb(0);
    bsc.write_pdtrb(0x00F4);
    let v = bsc.read_pdtrb();
    assert_eq!(v, 0x00F7);
    assert_eq!(bsc.pdtrb, 0x00F7);
}

#[test]
fn bsc_serves_requests_from_memory_accesses() {
    let mut mem = Memory::with_words(0x1000);
    let mut bsc = Bsc::new(&mut mem);
    // a store into the mapped range queues a write request
    mem.write_u32(0x1F80002C, 0xDEAD_BEEF);
    assert!(bsc.run_once());
    assert_eq!(bsc.pctra, 0xDEAD_BEEF);
    mem.write_u32(0x1F800030, 0x1234);
    assert!(bsc.run_once());
    assert_eq!(bsc.pdtra, 0x1234);
}

#[test]
fn dsp_av_ctrl_round_trip() {
    let mut mem = Memory::with_words(0x1000);
    let mut dsp = Dsp::new(&mut mem);
    assert_eq!(dsp.av_ctrl, 1);
    mem.write_u32(0x00702C00, 0x7);
    assert!(dsp.run_once());
    assert_eq!(dsp.av_ctrl, 0x7);
    assert_eq!(dsp.read_av_ctrl(), 0x7);
    dsp.write_av_ctrl(9);
    assert_eq!(dsp.av_ctrl, 9);
}

#[test]
fn handlers_dispatch_by_address() {
    let mut mem = Memory::with_words(0x1000);
    let mut bsc = Bsc::new(&mut mem);
    bsc.handle_write(0x1F800040, 0x55);
    assert_eq!(bsc.pctrb, 0x55);
    assert_eq!(bsc.handle_read(0x1F800040), 0x55);
    bsc.handle_write(0x1F800044, 0x4);
    assert_eq!(bsc.pdtrb, 0x4);
    // an unknown address reads as zero and changes nothing
    assert_eq!(bsc.handle_read(0x1F800000), 0);
    assert_eq!(bsc.pctrb, 0x55);
}

#[test]
fn dsp_handle_request_dispatch() {
    let mut mem = Memory::with_words(0x1000);
    let mut dsp = Dsp::new(&mut mem);
    // a write to the AV control address stores and is not answered
    assert_eq!(dsp.handle_request(0x00702C00, Some(0x42)), None);
    assert_eq!(dsp.av_ctrl, 0x42);
    // a write elsewhere is ignored
    assert_eq!(dsp.handle_request(0x00702C04, Some(0x7)), None);
    assert_eq!(dsp.av_ctrl, 0x42);
    // a read of the AV control address answers the register
    assert_eq!(dsp.handle_request(0x00702C00, None), Some(0x42));
    // a read elsewhere answers 0
    assert_eq!(dsp.handle_request(0x00702C04, None), Some(0));
}
