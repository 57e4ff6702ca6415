//! The bus controller peripheral: models the port control and data
//! registers PCTRA/PDTRA/PCTRB/PDTRB behind a mapped I/O range. Each pair
//! of bits in a control register selects the direction of one I/O line
//! (2 selects input, any other non-zero value output); a read of a data
//! register combines the wired-in high bits under the input mask with the
//! stored value, after a pull-up quirk on the two low lines.

use vstd::prelude::*;
use crate::memory::Memory;
use crate::memory::MemoryRange;
use crate::memory::MappedIO;

verus! {

/// The direction bits of line `k`: bits `2k` and `2k + 1` of a port
/// control register.
pub open spec fn line_bits(pctr: u32, k: u32) -> u32 {
    (pctr >> (2 * k)) & 0x3u32
}

/// The input mask over the first `n` lines: bit `k` is set when line `k`
/// is configured as an input (direction bits equal to 2).
pub open spec fn input_mask_rec(pctr: u32, n: nat) -> u16
    decreases n,
{
    if n == 0 {
        0u16
    } else if line_bits(pctr, (n - 1) as u32) == 2 {
        input_mask_rec(pctr, (n - 1) as nat) | (1u16 << ((n - 1) as u16))
    } else {
        input_mask_rec(pctr, (n - 1) as nat)
    }
}

/// The output mask over the first `n` lines: bit `k` is set when line `k`
/// is configured as an output (direction bits non-zero and not 2).
pub open spec fn output_mask_rec(pctr: u32, n: nat) -> u16
    decreases n,
{
    if n == 0 {
        0u16
    } else if line_bits(pctr, (n - 1) as u32) != 2 && line_bits(pctr, (n - 1) as u32) != 0 {
        output_mask_rec(pctr, (n - 1) as nat) | (1u16 << ((n - 1) as u16))
    } else {
        output_mask_rec(pctr, (n - 1) as nat)
    }
}

/// The data register after the bus quirk: when the two low lines read as
/// high (stored high or not driven as outputs), they latch high, else
/// they latch low.
pub open spec fn quirked(pdtr: u16, output_mask: u16) -> u16 {
    if (pdtr | !output_mask) & 0x3u16 == 0x3u16 {
        pdtr | 0x3u16
    } else {
        pdtr & !0x3u16
    }
}

/// The four port registers (PCTRA, PDTRA, PCTRB, PDTRB) after one
/// request: a write stores the value in the addressed register; a read of
/// a data register applies its pull-up quirk; any other request leaves
/// everything in place.
pub open spec fn bsc_regs_after(
    s: (u32, u16, u32, u16),
    address: usize,
    op: Option<u32>,
) -> (u32, u16, u32, u16) {
    match op {
        Some(value) => (
            if address == 0x1f80002c {
                value
            } else {
                s.0
            },
            if address == 0x1f800030 {
                value as u16
            } else {
                s.1
            },
            if address == 0x1f800040 {
                value
            } else {
                s.2
            },
            if address == 0x1f800044 {
                value as u16
            } else {
                s.3
            },
        ),
        None => if address == 0x1f800030 {
            (s.0, quirked(s.1, output_mask_rec(s.0, 16)), s.2, s.3)
        } else if address == 0x1f800044 {
            (s.0, s.1, s.2, quirked(s.3, output_mask_rec(s.2, 16)))
        } else {
            s
        },
    }
}

/// The reply owed to one request: every read is answered — the control
/// registers as stored, the data registers after their quirk (PDTRA
/// combined with the wired-in bits under the input mask), 0 for any other
/// address; a write is not answered.
pub open spec fn bsc_reply(s: (u32, u16, u32, u16), address: usize, op: Option<u32>) -> Option<
    u32,
> {
    match op {
        Some(_) => None,
        None => if address == 0x1f80002c {
            Some(s.0)
        } else if address == 0x1f800030 {
            Some(
                (((0x300u16 & input_mask_rec(s.0, 16)) | quirked(
                    s.1,
                    output_mask_rec(s.0, 16),
                )) as u32),
            )
        } else if address == 0x1f800040 {
            Some(s.2)
        } else if address == 0x1f800044 {
            Some((quirked(s.3, output_mask_rec(s.2, 16)) as u32))
        } else {
            Some(0u32)
        },
    }
}

/// The bus controller: the peripheral-side ends of its mapped I/O
/// channels and its four port registers.
pub struct Bsc {
    pub receiver: std::sync::mpsc::Receiver<(usize, Option<u32>)>,
    pub sender: std::sync::mpsc::Sender<u32>,
    pub pctra: u32,
    pub pdtra: u16,
    pub pctrb: u32,
    pub pdtrb: u16,
}

impl Bsc {
    /// The four port registers as one value.
    pub open spec fn regs(&self) -> (u32, u16, u32, u16) {
        (self.pctra, self.pdtra, self.pctrb, self.pdtrb)
    }

    /// Creates a new bus controller and registers its mapped region
    /// [0x1F80002C, 0x1F800048] with the memory controller.
    pub fn new(mem: &mut Memory) -> (r: Bsc)
        requires
            old(mem).wf(),
        ensures
            final(mem).wf(),
            final(mem)@.cells == old(mem)@.cells,
            final(mem)@.ranges.len() == old(mem)@.ranges.len() + 1,
            exists|k: int|
                0 <= k <= old(mem)@.ranges.len() && final(mem)@.ranges == old(
                    mem,
                )@.ranges.insert(k, MemoryRange(0x1f80002c, 0x1f800048)),
            r.pctra == 0 && r.pdtra == 0 && r.pctrb == 0 && r.pdtrb == 0,
    {
        let (stx, srx) = std::sync::mpsc::channel::<(usize, Option<u32>)>();
        let (rtx, rrx) = std::sync::mpsc::channel::<u32>();
        let mapped = MappedIO { range: MemoryRange(0x1f80002c, 0x1f800048), sender: stx, receiver: rrx };
        mem.register_mapped_io(mapped);
        Bsc { receiver: srx, sender: rtx, pctra: 0, pdtra: 0, pctrb: 0, pdtrb: 0 }
    }

    /// Receives and serves one request: a write decodes to the addressed
    /// register; a read computes the addressed value and sends it back.
    /// The registers afterwards are those of one dispatched request.
    /// Returns false, leaving the registers unchanged, when the request
    /// channel is closed.
    pub fn run_once(&mut self) -> (r: bool)
        ensures
            !r ==> final(self).regs() == old(self).regs(),
            r ==> exists|address: usize, op: Option<u32>|
                final(self).regs() == #[trigger] bsc_regs_after(old(self).regs(), address, op),
    {
        match self.receiver.recv() {
            Ok((address, Some(value))) => {
                self.handle_write(address, value);
                proof {
                    assert(self.regs() == bsc_regs_after(
                        old(self).regs(),
                        address,
                        Some(value),
                    ));
                }
                true
            },
            Ok((address, None)) => {
                let answer = self.handle_read(address);
                let _ = self.sender.send(answer);
                proof {
                    assert(self.regs() == bsc_regs_after(
                        old(self).regs(),
                        address,
                        None::<u32>,
                    ));
                }
                true
            },
            Err(_) => false,
        }
    }

    /// Dispatches a write request by address; any other address is
    /// ignored.
    pub fn handle_write(&mut self, address: usize, value: u32)
        ensures
            final(self).regs() == bsc_regs_after(old(self).regs(), address, Some(value)),
            final(self).pctra == (if address == 0x1f80002c {
                value
            } else {
                old(self).pctra
            }),
            final(self).pdtra == (if address == 0x1f800030 {
                value as u16
            } else {
                old(self).pdtra
            }),
            final(self).pctrb == (if address == 0x1f800040 {
                value
            } else {
                old(self).pctrb
            }),
            final(self).pdtrb == (if address == 0x1f800044 {
                value as u16
            } else {
                old(self).pdtrb
            }),
    {
        if address == 0x1f80002c {
            self.write_pctra(value);
        } else if address == 0x1f800030 {
            self.write_pdtra(value as u16);
        } else if address == 0x1f800040 {
            self.write_pctrb(value);
        } else if address == 0x1f800044 {
            self.write_pdtrb(value as u16);
        }
    }

    /// Dispatches a read request by address: the control registers read
    /// as stored, the data registers read through their quirk, and any
    /// other address reads as 0 leaving every register in place.
    pub fn handle_read(&mut self, address: usize) -> (r: u32)
        ensures
            final(self).regs() == bsc_regs_after(old(self).regs(), address, None::<u32>),
            Some(r) == bsc_reply(old(self).regs(), address, None::<u32>),
    {
        if address == 0x1f80002c {
            self.pctra
        } else if address == 0x1f800030 {
            self.read_pdtra() as u32
        } else if address == 0x1f800040 {
            self.pctrb
        } else if address == 0x1f800044 {
            self.read_pdtrb() as u32
        } else {
            0
        }
    }

    /// Reads port data register A: applies the pull-up quirk to the two
    /// low lines of the stored value, then combines the wired-in bits
    /// 8 and 9 under the input mask with the stored value.
    pub fn read_pdtra(&mut self) -> (r: u16)
        ensures
            final(self).pctra == old(self).pctra,
            final(self).pctrb == old(self).pctrb,
            final(self).pdtrb == old(self).pdtrb,
            final(self).pdtra == quirked(old(self).pdtra, output_mask_rec(old(self).pctra, 16)),
            r == (0x300u16 & input_mask_rec(old(self).pctra, 16)) | final(self).pdtra,
    {
        let masks = Self::port_masks(self.pctra);
        let input_mask = masks.0;
        let output_mask = masks.1;
        if (self.pdtra | !output_mask) & 0x3 == 0x3 {
            self.pdtra = self.pdtra | 0x3;
        } else {
            self.pdtra = self.pdtra & !0x3;
        }
        (0x300 & input_mask) | self.pdtra
    }

    /// Reads port data register B: applies the pull-up quirk to the two
    /// low lines of the stored value and returns it.
    pub fn read_pdtrb(&mut self) -> (r: u16)
        ensures
            final(self).pctra == old(self).pctra,
            final(self).pctrb == old(self).pctrb,
            final(self).pdtra == old(self).pdtra,
            final(self).pdtrb == quirked(old(self).pdtrb, output_mask_rec(old(self).pctrb, 16)),
            r == final(self).pdtrb,
    {
        let masks = Self::port_masks(self.pctrb);
        let output_mask = masks.1;
        if (self.pdtrb | !output_mask) & 0x3 == 0x3 {
            self.pdtrb = self.pdtrb | 0x3;
        } else {
            self.pdtrb = self.pdtrb & !0x3;
        }
        self.pdtrb
    }

    /// Computes the input and output masks of a port control register:
    /// one direction per line, two bits per line.
    fn port_masks(pctr: u32) -> (r: (u16, u16))
        ensures
            r.0 == input_mask_rec(pctr, 16),
            r.1 == output_mask_rec(pctr, 16),
    {
        let mut input_mask: u16 = 0;
        let mut output_mask: u16 = 0;
        let mut i: u16 = 0;
        while i < 16
            invariant
                i <= 16,
                input_mask == input_mask_rec(pctr, i as nat),
                output_mask == output_mask_rec(pctr, i as nat),
            decreases 16 - i,
        {
            let bits = (pctr >> (2 * (i as u32))) & 0x03;
            if bits == 2 {
                input_mask = input_mask | (1u16 << i);
            } else if bits != 0 {
                output_mask = output_mask | (1u16 << i);
            }
            proof {
                assert(bits == line_bits(pctr, i as u32));
                assert(((i + 1) as nat - 1) as u32 == i as u32);
                assert(((i + 1) as nat - 1) as u16 == i);
            }
            i = i + 1;
        }
        (input_mask, output_mask)
    }

    /// Writes port control register A.
    pub fn write_pctra(&mut self, value: u32)
        ensures
            final(self).pctra == value,
            final(self).pdtra == old(self).pdtra,
            final(self).pctrb == old(self).pctrb,
            final(self).pdtrb == old(self).pdtrb,
    {
        self.pctra = value;
    }

    /// Writes port control register B.
    pub fn write_pctrb(&mut self, value: u32)
        ensures
            final(self).pctrb == value,
            final(self).pctra == old(self).pctra,
            final(self).pdtra == old(self).pdtra,
            final(self).pdtrb == old(self).pdtrb,
    {
        self.pctrb = value;
    }

    /// Writes port data register A.
    pub fn write_pdtra(&mut self, value: u16)
        ensures
            final(self).pdtra == value,
            final(self).pctra == old(self).pctra,
            final(self).pctrb == old(self).pctrb,
            final(self).pdtrb == old(self).pdtrb,
    {
        self.pdtra = value;
    }

    /// Writes port data register B.
    pub fn write_pdtrb(&mut self, value: u16)
        ensures
            final(self).pdtrb == value,
            final(self).pctra == old(self).pctra,
            final(self).pdtra == old(self).pdtra,
            final(self).pctrb == old(self).pctrb,
    {
        self.pdtrb = value;
    }
}

} // verus!
