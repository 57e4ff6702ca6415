//! The DSP peripheral adapter: models the single AV control register at
//! 0x00702C00 behind a mapped I/O range.

use vstd::prelude::*;
use crate::memory::Memory;
use crate::memory::MemoryRange;
use crate::memory::MappedIO;

verus! {

/// The AV control register after one request: a write to its address
/// stores the value, anything else leaves it in place.
pub open spec fn dsp_ctrl_after(av_ctrl: u32, address: usize, op: Option<u32>) -> u32 {
    match op {
        Some(value) => if address == 0x00702C00 {
            value
        } else {
            av_ctrl
        },
        None => av_ctrl,
    }
}

/// The reply owed to one request: every read is answered, with the AV
/// control register at its address and 0 elsewhere; a write is not.
pub open spec fn dsp_reply(av_ctrl: u32, address: usize, op: Option<u32>) -> Option<u32> {
    match op {
        Some(_) => None,
        None => if address == 0x00702C00 {
            Some(av_ctrl)
        } else {
            Some(0u32)
        },
    }
}

/// The DSP adapter: the peripheral-side ends of its mapped I/O channels
/// and the AV control register.
pub struct Dsp {
    pub receiver: std::sync::mpsc::Receiver<(usize, Option<u32>)>,
    pub sender: std::sync::mpsc::Sender<u32>,
    pub av_ctrl: u32,
}

impl Dsp {
    /// Creates a new DSP adapter and registers its mapped region
    /// [0x00702C00, 0x00702C00] with the memory controller.
    pub fn new(mem: &mut Memory) -> (r: Dsp)
        requires
            old(mem).wf(),
        ensures
            final(mem).wf(),
            final(mem)@.cells == old(mem)@.cells,
            final(mem)@.ranges.len() == old(mem)@.ranges.len() + 1,
            exists|k: int|
                0 <= k <= old(mem)@.ranges.len() && final(mem)@.ranges == old(
                    mem,
                )@.ranges.insert(k, MemoryRange(0x00702c00, 0x00702c00)),
            r.av_ctrl == 1,
    {
        let (stx, srx) = std::sync::mpsc::channel::<(usize, Option<u32>)>();
        let (rtx, rrx) = std::sync::mpsc::channel::<u32>();
        let mapped = MappedIO {
            range: MemoryRange(0x00702c00, 0x00702c00),
            sender: stx,
            receiver: rrx,
        };
        mem.register_mapped_io(mapped);
        Dsp { receiver: srx, sender: rtx, av_ctrl: 1 }
    }

    /// Receives and serves one request: the state afterwards and the
    /// reply are those of `handle_request` on some request. Returns
    /// false, leaving the register unchanged, when the request channel is
    /// closed.
    pub fn run_once(&mut self) -> (r: bool)
        ensures
            !r ==> final(self).av_ctrl == old(self).av_ctrl,
            r ==> exists|address: usize, op: Option<u32>|
                final(self).av_ctrl == #[trigger] dsp_ctrl_after(
                    old(self).av_ctrl,
                    address,
                    op,
                ),
    {
        match self.receiver.recv() {
            Ok((address, op)) => {
                let reply = self.handle_request(address, op);
                if let Some(answer) = reply {
                    let _ = self.sender.send(answer);
                }
                true
            },
            Err(_) => false,
        }
    }

    /// Serves one decoded request: a write to the AV control address
    /// stores the value; a read is answered with the register, and a read
    /// of any other address with 0; a write elsewhere is ignored.
    pub fn handle_request(&mut self, address: usize, op: Option<u32>) -> (reply: Option<u32>)
        ensures
            final(self).av_ctrl == dsp_ctrl_after(old(self).av_ctrl, address, op),
            reply == dsp_reply(old(self).av_ctrl, address, op),
    {
        match op {
            Some(value) => {
                if address == 0x00702C00 {
                    self.write_av_ctrl(value);
                }
                None
            },
            None => {
                if address == 0x00702C00 {
                    Some(self.read_av_ctrl())
                } else {
                    Some(0)
                }
            },
        }
    }

    /// Reads the AV control register.
    pub fn read_av_ctrl(&mut self) -> (r: u32)
        ensures
            final(self).av_ctrl == old(self).av_ctrl,
            r == old(self).av_ctrl,
    {
        self.av_ctrl
    }

    /// Writes the AV control register.
    pub fn write_av_ctrl(&mut self, value: u32)
        ensures
            final(self).av_ctrl == value,
    {
        self.av_ctrl = value;
    }
}

} // verus!
