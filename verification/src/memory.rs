//! The memory controller: a flat backing store of 16-bit fields indexed
//! through the address fold, a registry of memory-mapped I/O ranges routed
//! over channels, and typed accessors for bytes, words and double words.

use vstd::prelude::*;
use crate::memory_field::MemoryField;

verus! {

/// An inclusive range `[low, high]` of folded addresses.
#[derive(Copy, Clone, PartialEq, Eq, Structural, Debug)]
pub struct MemoryRange(pub usize, pub usize);

impl MemoryRange {
    /// Checks if the given address falls within the memory range,
    /// both ends included.
    pub fn is_within(&self, address: usize) -> (r: bool)
        ensures
            r == (self.0 <= address && address <= self.1),
    {
        let MemoryRange(l, h) = *self;
        address >= l && address <= h
    }
}

/// A memory-mapped I/O registration: an address range owned by one
/// peripheral, the channel that carries requests to it, and the channel
/// that carries its read responses back.
pub struct MappedIO {
    /// The memory address range for the mapped region.
    pub range: MemoryRange,
    /// The sending channel for issuing read/write requests to the region.
    pub sender: std::sync::mpsc::Sender<(usize, Option<u32>)>,
    /// The receiving channel for read responses from the region.
    pub receiver: std::sync::mpsc::Receiver<u32>,
}

/// The mathematical model of a memory: the sequence of fields, the
/// registered I/O ranges in order, and the cached bounds over their union.
pub ghost struct MemView {
    pub cells: Seq<MemoryField>,
    pub ranges: Seq<MemoryRange>,
    pub lo: int,
    pub hi: int,
}

/// The address fold: the top three bits of a logical address are masked
/// off, collapsing every architectural mirror onto the 29-bit physical
/// range.
pub open spec fn spec_map(pointer: int) -> int {
    pointer % 0x2000_0000
}

/// The index of the 16-bit field that holds the given address.
pub open spec fn spec_widx(address: int) -> int {
    spec_map(address) / 2
}

/// Whether a folded address lies in some registered I/O range.
pub open spec fn spec_routed(m: MemView, folded: int) -> bool {
    exists|k: int|
        0 <= k < m.ranges.len() && (#[trigger] m.ranges[k]).0 <= folded <= m.ranges[k].1
}

/// The raw 16-bit word stored for an address; 0 where a cached
/// instruction sits instead.
pub open spec fn raw_word(m: MemView, address: int) -> u16 {
    match m.cells[spec_widx(address)] {
        MemoryField::MemoryCell(v) => v,
        MemoryField::InstructionCell(_) => 0u16,
    }
}

/// The raw 32-bit value at an address: low half at `address`, high half at
/// `address + 2`.
pub open spec fn raw_dword(m: MemView, address: int) -> u32 {
    (raw_word(m, address + 2) * 0x10000 + raw_word(m, address)) as u32
}

/// The byte at offset `off` (0 = low, 1 = high) of a 16-bit word.
pub open spec fn spec_get_byte(w: u16, off: int) -> u8 {
    if off == 0 {
        (w % 0x100) as u8
    } else {
        (w / 0x100) as u8
    }
}

/// The word `w` with its byte at offset `off` replaced by `b`.
pub open spec fn spec_put_byte(w: u16, off: int, b: u8) -> u16 {
    if off == 0 {
        ((w / 0x100) * 0x100 + b) as u16
    } else {
        (b * 0x100 + (w % 0x100)) as u16
    }
}

/// A 16-bit access is defined when the address is routed to a peripheral,
/// or its field is in bounds and holds a raw cell.
pub open spec fn can_read16(m: MemView, address: int) -> bool {
    spec_routed(m, spec_map(address)) || (spec_widx(address) < m.cells.len()
        && m.cells[spec_widx(address)] is MemoryCell)
}

/// A 32-bit read is defined when the address is routed, or both halves are
/// in bounds and raw.
pub open spec fn can_read32(m: MemView, address: int) -> bool {
    address + 2 <= usize::MAX && (spec_routed(m, spec_map(address)) || (spec_widx(address)
        < m.cells.len() && spec_widx(address + 2) < m.cells.len() && m.cells[spec_widx(address)] is MemoryCell
        && m.cells[spec_widx(address + 2)] is MemoryCell))
}

/// A 16-bit write is defined when the address is routed or merely in
/// bounds: it overwrites whatever field is there.
pub open spec fn can_write16(m: MemView, address: int) -> bool {
    spec_routed(m, spec_map(address)) || spec_widx(address) < m.cells.len()
}

/// A 32-bit write is defined when the address is routed or both halves are
/// in bounds.
pub open spec fn can_write32(m: MemView, address: int) -> bool {
    address + 2 <= usize::MAX && (spec_routed(m, spec_map(address)) || (spec_widx(address)
        < m.cells.len() && spec_widx(address + 2) < m.cells.len()))
}

/// A byte write must read the enclosing word to preserve its other byte,
/// so it needs that word to be raw when the address is not routed.
pub open spec fn can_rw8(m: MemView, address: int) -> bool {
    can_read16(m, address)
}

/// The invariant of the I/O registry: the cached bounds cover every
/// registered range, and the registrations are ordered by lower bound.
pub open spec fn registry_inv(m: MemView) -> bool {
    &&& forall|k: int|
        0 <= k < m.ranges.len() ==> m.lo <= (#[trigger] m.ranges[k]).0 && m.ranges[k].1 <= m.hi
    &&& forall|k1: int, k2: int|
        0 <= k1 < k2 < m.ranges.len() ==> (#[trigger] m.ranges[k1]).0 <= (
        #[trigger] m.ranges[k2]).0
}

/// The backing store, I/O registry, and cached registry bounds.
pub struct Memory {
    pub data: Vec<MemoryField>,
    pub mapped: Vec<MappedIO>,
    pub min_mapped: usize,
    pub max_mapped: usize,
}

impl View for Memory {
    type V = MemView;

    open spec fn view(&self) -> MemView {
        MemView {
            cells: self.data@,
            ranges: Seq::new(self.mapped@.len(), |k: int| self.mapped@[k].range),
            lo: self.min_mapped as int,
            hi: self.max_mapped as int,
        }
    }
}

impl Memory {
    /// The registry invariant, tied to the concrete structure.
    pub open spec fn wf(&self) -> bool {
        registry_inv(self@)
    }

    /// Creates a memory with the given number of 16-bit fields, all zero,
    /// and no I/O registrations.
    pub fn with_words(words: usize) -> (r: Memory)
        ensures
            r.wf(),
            r@.cells.len() == words,
            forall|k: int| 0 <= k < words ==> r@.cells[k] == MemoryField::MemoryCell(0u16),
            r@.ranges.len() == 0,
            r@.lo == usize::MAX,
            r@.hi == 0,
    {
        let data: Vec<MemoryField> = vec![MemoryField::MemoryCell(0u16); words];
        proof {
            assert forall|k: int| 0 <= k < words implies data@[k] == MemoryField::MemoryCell(0u16)
            by {
                assert(cloned(MemoryField::MemoryCell(0u16), data@[k]));
            }
        }
        let r = Memory { data, mapped: Vec::new(), min_mapped: usize::MAX, max_mapped: 0 };
        proof {
            assert(r@.ranges =~= Seq::<MemoryRange>::empty());
        }
        r
    }

    /// Creates a memory unit whose fields cover the whole folded 29-bit
    /// address range. Although logical addresses span 32 bits, the fold
    /// leaves at most `0x2000_0000` byte addresses, two per field.
    pub fn new() -> (r: Memory)
        ensures
            r.wf(),
            r@.cells.len() == 0x1000_0000,
            forall|k: int| 0 <= k < 0x1000_0000 ==> r@.cells[k] == MemoryField::MemoryCell(0u16),
            r@.ranges.len() == 0,
    {
        Memory::with_words(0x1000_0000)
    }

    /// Maps the given address to the backing-store address: the three most
    /// significant bits are removed, which also collapses the mirror
    /// windows of VRAM (0xA5000000) and of the memory-mapped registers
    /// (0xFF000000) onto their physical ranges.
    pub fn map(pointer: usize) -> (r: usize)
        ensures
            r == spec_map(pointer as int),
            r < 0x2000_0000,
    {
        let mapped = pointer & 0x1FFFFFFF;
        proof {
            assert(pointer & 0x1FFFFFFF == pointer % 0x2000_0000) by (bit_vector);
        }
        mapped
    }

    /// A first quick check whether the folded address can be owned by a
    /// registered peripheral: it lies within the cached bounds of the
    /// registry.
    pub fn is_io_register(&self, pointer: usize) -> (r: bool)
        ensures
            r == (self@.lo <= pointer <= self@.hi),
    {
        pointer >= self.min_mapped && pointer <= self.max_mapped
    }

    /// Registers a mapped I/O region: widens the cached bounds and inserts
    /// the registration in order of its lower bound.
    pub fn register_mapped_io(&mut self, mapped: MappedIO)
        requires
            old(self).wf(),
        ensures
            final(self).wf(),
            final(self)@.cells == old(self)@.cells,
            final(self)@.ranges.len() == old(self)@.ranges.len() + 1,
            exists|k: int|
                0 <= k <= old(self)@.ranges.len() && final(self)@.ranges == old(self)@.ranges.insert(k, mapped.range),
            final(self)@.lo == if mapped.range.0 < old(self)@.lo {
                mapped.range.0 as int
            } else {
                old(self)@.lo
            },
            final(self)@.hi == if mapped.range.1 > old(self)@.hi {
                mapped.range.1 as int
            } else {
                old(self)@.hi
            },
    {
        let MemoryRange(mi, ma) = mapped.range;
        if mi < self.min_mapped {
            self.min_mapped = mi;
        }
        if ma > self.max_mapped {
            self.max_mapped = ma;
        }
        let ghost v0 = self@;
        proof {
            assert(v0.ranges =~= old(self)@.ranges);
            assert(v0.cells == old(self)@.cells);
        }
        let mut pos: usize = 0;
        while pos < self.mapped.len() && self.mapped[pos].range.0 <= mi
            invariant
                pos <= self.mapped.len(),
                self@ == v0,
                forall|j: int| 0 <= j < pos ==> (#[trigger] v0.ranges[j]).0 <= mi,
            decreases self.mapped.len() - pos,
        {
            proof {
                assert(v0.ranges[pos as int] == self.mapped@[pos as int].range);
            }
            pos += 1;
        }
        proof {
            assert(pos < v0.ranges.len() ==> v0.ranges[pos as int].0 > mi);
        }
        let ghost m0 = self.mapped@;
        self.mapped.insert(pos, mapped);
        proof {
            let r1 = self@.ranges;
            m0.insert_ensures(pos as int, mapped);
            v0.ranges.insert_ensures(pos as int, mapped.range);
            assert forall|k: int| 0 <= k < r1.len() implies #[trigger] r1[k] == v0.ranges.insert(
                pos as int,
                mapped.range,
            )[k] by {
                let p = pos as int;
                if k < p {
                    assert(self.mapped@[k] == m0[k]);
                } else if k > p {
                    assert(self.mapped@[k] == m0[k - 1]);
                }
            }
            assert(r1 =~= v0.ranges.insert(pos as int, mapped.range));
            assert forall|k1: int, k2: int|
                0 <= k1 < k2 < r1.len() implies (#[trigger] r1[k1]).0 <= (#[trigger] r1[k2]).0 by {
                let p = pos as int;
                let rr = v0.ranges.insert(p, mapped.range);
                assert(r1[k1] == rr[k1] && r1[k2] == rr[k2]);
                if p < v0.ranges.len() {
                    assert(v0.ranges[p].0 > mi);
                }
                if k1 < p && k2 > p {
                    assert(rr[k1] == v0.ranges[k1] && rr[(k2 - 1) + 1] == v0.ranges[k2 - 1]);
                } else if k1 == p && k2 > p {
                    assert(rr[(k2 - 1) + 1] == v0.ranges[k2 - 1]);
                    assert(p <= k2 - 1 < v0.ranges.len());
                    if p < k2 - 1 {
                        assert(v0.ranges[p].0 <= v0.ranges[k2 - 1].0);
                    }
                } else if k1 > p {
                    assert(rr[(k1 - 1) + 1] == v0.ranges[k1 - 1]);
                    assert(rr[(k2 - 1) + 1] == v0.ranges[k2 - 1]);
                } else if k2 == p {
                    assert(rr[k1] == v0.ranges[k1]);
                } else {
                    assert(rr[k1] == v0.ranges[k1] && rr[k2] == v0.ranges[k2]);
                }
            }
            assert forall|k: int|
                0 <= k < r1.len() implies self@.lo <= (#[trigger] r1[k]).0 && r1[k].1 <= self@.hi
            by {
                let p = pos as int;
                let rr = v0.ranges.insert(p, mapped.range);
                assert(r1[k] == rr[k]);
                if k < p {
                    assert(rr[k] == v0.ranges[k]);
                } else if k > p {
                    assert(rr[(k - 1) + 1] == v0.ranges[k - 1]);
                }
            }
        }
    }

    /// Whether the folded address lies in some registered I/O range,
    /// without performing any access.
    pub fn is_mapped(&self, address: usize) -> (r: bool)
        requires
            self.wf(),
        ensures
            r == spec_routed(self@, spec_map(address as int)),
    {
        let addr = Memory::map(address);
        if !self.is_io_register(addr) {
            proof {
                if spec_routed(self@, addr as int) {
                    let k = choose|k: int|
                        0 <= k < self@.ranges.len() && (#[trigger] self@.ranges[k]).0 <= addr
                            <= self@.ranges[k].1;
                    assert(self@.lo <= self@.ranges[k].0);
                }
            }
            return false;
        }
        let mut k: usize = 0;
        while k < self.mapped.len()
            invariant
                k <= self.mapped.len(),
                forall|j: int|
                    0 <= j < k ==> !((#[trigger] self@.ranges[j]).0 <= addr <= self@.ranges[j].1),
                addr == spec_map(address as int),
            decreases self.mapped.len() - k,
        {
            if self.mapped[k].range.is_within(addr) {
                proof {
                    assert(self@.ranges[k as int] == self.mapped@[k as int].range);
                }
                return true;
            }
            proof {
                assert(self@.ranges[k as int] == self.mapped@[k as int].range);
            }
            k += 1;
        }
        false
    }

    /// Routes a write: when the folded address lies in a registered range,
    /// sends `(address, Some(value))` to that range's peripheral and
    /// reports success; otherwise reports that the backing store must take
    /// the write.
    pub fn try_mapped_write(&self, address: usize, value: u32) -> (r: bool)
        requires
            self.wf(),
        ensures
            r == spec_routed(self@, spec_map(address as int)),
    {
        let addr = Memory::map(address);
        if !self.is_io_register(addr) {
            proof {
                if spec_routed(self@, addr as int) {
                    let k = choose|k: int|
                        0 <= k < self@.ranges.len() && (#[trigger] self@.ranges[k]).0 <= addr
                            <= self@.ranges[k].1;
                    assert(self@.lo <= self@.ranges[k].0);
                }
            }
            return false;
        }
        let mut k: usize = 0;
        while k < self.mapped.len()
            invariant
                k <= self.mapped.len(),
                forall|j: int|
                    0 <= j < k ==> !((#[trigger] self@.ranges[j]).0 <= addr <= self@.ranges[j].1),
                addr == spec_map(address as int),
            decreases self.mapped.len() - k,
        {
            if self.mapped[k].range.is_within(addr) {
                proof {
                    assert(self@.ranges[k as int] == self.mapped@[k as int].range);
                }
                let _ = self.mapped[k].sender.send((addr, Some(value)));
                return true;
            }
            proof {
                assert(self@.ranges[k as int] == self.mapped@[k as int].range);
            }
            k += 1;
        }
        false
    }

    /// Routes a read: when the folded address lies in a registered range,
    /// sends `(address, None)` to that range's peripheral, blocks on its
    /// response channel and returns the word received (0 when the channel
    /// is gone); otherwise `None`.
    pub fn try_mapped_read(&self, address: usize) -> (r: Option<u32>)
        requires
            self.wf(),
        ensures
            r is Some <==> spec_routed(self@, spec_map(address as int)),
    {
        let addr = Memory::map(address);
        if !self.is_io_register(addr) {
            proof {
                if spec_routed(self@, addr as int) {
                    let k = choose|k: int|
                        0 <= k < self@.ranges.len() && (#[trigger] self@.ranges[k]).0 <= addr
                            <= self@.ranges[k].1;
                    assert(self@.lo <= self@.ranges[k].0);
                }
            }
            return None;
        }
        let mut k: usize = 0;
        while k < self.mapped.len()
            invariant
                k <= self.mapped.len(),
                forall|j: int|
                    0 <= j < k ==> !((#[trigger] self@.ranges[j]).0 <= addr <= self@.ranges[j].1),
                addr == spec_map(address as int),
            decreases self.mapped.len() - k,
        {
            if self.mapped[k].range.is_within(addr) {
                proof {
                    assert(self@.ranges[k as int] == self.mapped@[k as int].range);
                }
                let _ = self.mapped[k].sender.send((addr, None));
                let answer = match self.mapped[k].receiver.recv() {
                    Ok(v) => v,
                    Err(_) => 0,
                };
                return Some(answer);
            }
            proof {
                assert(self@.ranges[k as int] == self.mapped@[k as int].range);
            }
            k += 1;
        }
        None
    }

    /// Sign-extends an unsigned byte to a signed integer.
    pub fn sign_extend_u8(val: u8) -> (r: i32)
        ensures
            r as int == if val < 0x80 {
                val as int
            } else {
                val as int - 0x100
            },
    {
        if val < 0x80 {
            val as i32
        } else {
            val as i32 - 0x100
        }
    }

    /// Sign-extends an unsigned 16-bit word to a signed integer.
    pub fn sign_extend_u16(val: u16) -> (r: i32)
        ensures
            r as int == if val < 0x8000 {
                val as int
            } else {
                val as int - 0x10000
            },
    {
        if val < 0x8000 {
            val as i32
        } else {
            val as i32 - 0x10000
        }
    }

    /// Reads an unsigned byte: byte 0 of the containing word for an even
    /// address, byte 1 for an odd one.
    pub fn read_u8(&self, address: usize) -> (r: u8)
        requires
            self.wf(),
            can_read16(self@, address as int),
        ensures
            !spec_routed(self@, spec_map(address as int)) ==> r == spec_get_byte(
                raw_word(self@, address as int),
                address as int % 2,
            ),
    {
        let offset = address % 2;
        let val = self.read_u16(address);
        if offset == 0 {
            (val % 0x100) as u8
        } else {
            (val / 0x100) as u8
        }
    }

    /// Reads a signed byte.
    pub fn read_i8(&self, address: usize) -> (r: i8)
        requires
            self.wf(),
            can_read16(self@, address as int),
        ensures
            !spec_routed(self@, spec_map(address as int)) ==> r == spec_get_byte(
                raw_word(self@, address as int),
                address as int % 2,
            ) as i8,
    {
        self.read_u8(address) as i8
    }

    /// Reads a 16-bit word, routed to a peripheral when its address is
    /// registered. A read from a cached instruction cell is undefined and
    /// excluded by the precondition.
    pub fn read_u16(&self, address: usize) -> (r: u16)
        requires
            self.wf(),
            can_read16(self@, address as int),
        ensures
            !spec_routed(self@, spec_map(address as int)) ==> r == raw_word(
                self@,
                address as int,
            ),
    {
        if let Some(v) = self.try_mapped_read(address) {
            return (v % 0x10000) as u16;
        }
        match *self.access(address) {
            MemoryField::MemoryCell(v) => v,
            MemoryField::InstructionCell(_) => 0,
        }
    }

    /// Reads a 16-bit word from the backing store alone, without routing.
    pub fn read_u16_raw(&self, address: usize) -> (r: u16)
        requires
            spec_widx(address as int) < self@.cells.len(),
            self@.cells[spec_widx(address as int)] is MemoryCell,
        ensures
            r == raw_word(self@, address as int),
    {
        match *self.access(address) {
            MemoryField::MemoryCell(v) => v,
            MemoryField::InstructionCell(_) => 0,
        }
    }

    /// Reads a 32-bit value: the low half at `address`, the high half at
    /// `address + 2`, unless the address routes to a peripheral, which
    /// then answers the whole word.
    pub fn read_u32(&self, address: usize) -> (r: u32)
        requires
            self.wf(),
            can_read32(self@, address as int),
        ensures
            !spec_routed(self@, spec_map(address as int)) ==> r == raw_dword(
                self@,
                address as int,
            ),
    {
        if let Some(v) = self.try_mapped_read(address) {
            return v;
        }
        let v1 = self.read_u16_raw(address) as u32;
        let v2 = self.read_u16_raw(address + 2) as u32;
        v2 * 0x10000 + v1
    }

    /// Writes a byte, preserving the other byte of the enclosing word, or
    /// routes the write when the address is registered.
    pub fn write_u8(&mut self, address: usize, value: u8)
        requires
            old(self).wf(),
            can_rw8(old(self)@, address as int),
        ensures
            final(self).wf(),
            final(self)@.ranges == old(self)@.ranges,
            final(self)@.lo == old(self)@.lo,
            final(self)@.hi == old(self)@.hi,
            spec_routed(old(self)@, spec_map(address as int)) ==> final(self)@.cells == old(self)@.cells,
            !spec_routed(old(self)@, spec_map(address as int)) ==> final(self)@.cells == old(self)@.cells.update(
                spec_widx(address as int),
                MemoryField::MemoryCell(
                    spec_put_byte(
                        raw_word(old(self)@, address as int),
                        address as int % 2,
                        value,
                    ),
                ),
            ),
    {
        if self.try_mapped_write(address, value as u32) {
            return ;
        }
        let w = self.read_u16_raw(address);
        let nw: u16 = if address % 2 == 0 {
            (w / 0x100) * 0x100 + value as u16
        } else {
            (value as u16) * 0x100 + (w % 0x100)
        };
        let idx = Memory::map(address) / 2;
        self.data[idx] = MemoryField::MemoryCell(nw);
        proof {
            assert(self@.ranges =~= old(self)@.ranges);
        }
    }

    /// Writes a 16-bit word, demoting any cached instruction in the slot
    /// back to a raw cell, or routes the write when the address is
    /// registered.
    pub fn write_u16(&mut self, address: usize, value: u16)
        requires
            old(self).wf(),
            can_write16(old(self)@, address as int),
        ensures
            final(self).wf(),
            final(self)@.ranges == old(self)@.ranges,
            final(self)@.lo == old(self)@.lo,
            final(self)@.hi == old(self)@.hi,
            spec_routed(old(self)@, spec_map(address as int)) ==> final(self)@.cells == old(self)@.cells,
            !spec_routed(old(self)@, spec_map(address as int)) ==> final(self)@.cells == old(self)@.cells.update(spec_widx(address as int), MemoryField::MemoryCell(value)),
    {
        if self.try_mapped_write(address, value as u32) {
            return ;
        }
        let idx = Memory::map(address) / 2;
        self.data[idx] = MemoryField::MemoryCell(value);
        proof {
            assert(self@.ranges =~= old(self)@.ranges);
        }
    }

    /// Writes a 32-bit value: low half at `address`, high half at
    /// `address + 2`, demoting cached slots, or routes the whole word when
    /// the address is registered.
    pub fn write_u32(&mut self, address: usize, value: u32)
        requires
            old(self).wf(),
            can_write32(old(self)@, address as int),
        ensures
            final(self).wf(),
            final(self)@.ranges == old(self)@.ranges,
            final(self)@.lo == old(self)@.lo,
            final(self)@.hi == old(self)@.hi,
            spec_routed(old(self)@, spec_map(address as int)) ==> final(self)@.cells == old(self)@.cells,
            !spec_routed(old(self)@, spec_map(address as int)) ==> final(self)@.cells == old(self)@.cells.update(
                spec_widx(address as int),
                MemoryField::MemoryCell((value % 0x10000) as u16),
            ).update(
                spec_widx(address as int + 2),
                MemoryField::MemoryCell((value / 0x10000) as u16),
            ),
    {
        if self.try_mapped_write(address, value) {
            return ;
        }
        let lo = (value % 0x10000) as u16;
        let hi = (value / 0x10000) as u16;
        let idx1 = Memory::map(address) / 2;
        self.data[idx1] = MemoryField::MemoryCell(lo);
        let idx2 = Memory::map(address + 2) / 2;
        self.data[idx2] = MemoryField::MemoryCell(hi);
        proof {
            assert(self@.ranges =~= old(self)@.ranges);
        }
    }

    /// Borrows the field that holds the given address.
    pub fn access(&self, address: usize) -> (r: &MemoryField)
        requires
            spec_widx(address as int) < self@.cells.len(),
        ensures
            *r == self@.cells[spec_widx(address as int)],
    {
        &self.data[Memory::map(address) / 2]
    }

    /// Mutably borrows the field that holds the given address.
    pub fn access_mut(&mut self, address: usize) -> (r: &mut MemoryField)
        requires
            spec_widx(address as int) < old(self)@.cells.len(),
        ensures
            *r == old(self)@.cells[spec_widx(address as int)],
            final(self)@.cells == old(self)@.cells.update(
                spec_widx(address as int),
                *final(r),
            ),
            final(self)@.ranges == old(self)@.ranges,
            final(self)@.lo == old(self)@.lo,
            final(self)@.hi == old(self)@.hi,
    {
        let idx = Memory::map(address) / 2;
        &mut self.data[idx]
    }

    /// Loads a program image into memory starting at `start`. Bytes are
    /// consumed in pairs `(b0, b1)` and stored as the 16-bit word
    /// `(b1 << 8) | b0`, per the boot convention; an odd final byte is not
    /// consumed. Returns the number of bytes of the image.
    pub fn load_image(&mut self, image: &Vec<u8>, start: usize) -> (r: usize)
        requires
            old(self).wf(),
            start + image.len() <= usize::MAX,
            image.len() < 0x2000_0000,
            forall|j: int|
                0 <= j < image@.len() / 2 ==> #[trigger] spec_widx(start as int + 2 * j) < old(
                    self,
                )@.cells.len(),
        ensures
            final(self).wf(),
            r == image.len(),
            final(self)@.ranges == old(self)@.ranges,
            final(self)@.lo == old(self)@.lo,
            final(self)@.hi == old(self)@.hi,
            final(self)@.cells.len() == old(self)@.cells.len(),
            forall|j: int|
                0 <= j < image@.len() / 2 ==> final(self)@.cells[#[trigger] spec_widx(
                    start as int + 2 * j,
                )] == MemoryField::MemoryCell((image@[2 * j + 1] * 0x100 + image@[2 * j]) as u16),
            forall|k: int|
                0 <= k < old(self)@.cells.len() && (forall|j: int|
                    0 <= j < image@.len() / 2 ==> k != #[trigger] spec_widx(start as int + 2 * j))
                    ==> #[trigger] final(self)@.cells[k] == old(self)@.cells[k],
    {
        let size = image.len();
        let mut j: usize = 0;
        while j < size / 2
            invariant
                self.wf(),
                j <= size / 2,
                size == image.len(),
                size < 0x2000_0000,
                start + size <= usize::MAX,
                self@.ranges == old(self)@.ranges,
                self@.lo == old(self)@.lo,
                self@.hi == old(self)@.hi,
                self@.cells.len() == old(self)@.cells.len(),
                forall|jj: int|
                    0 <= jj < image@.len() / 2 ==> #[trigger] spec_widx(start as int + 2 * jj)
                        < self@.cells.len(),
                forall|jj: int|
                    0 <= jj < j ==> self@.cells[#[trigger] spec_widx(start as int + 2 * jj)]
                        == MemoryField::MemoryCell(
                        (image@[2 * jj + 1] * 0x100 + image@[2 * jj]) as u16,
                    ),
                forall|k: int|
                    0 <= k < old(self)@.cells.len() && (forall|jj: int|
                        0 <= jj < j ==> k != #[trigger] spec_widx(start as int + 2 * jj))
                        ==> #[trigger] self@.cells[k] == old(self)@.cells[k],
            decreases size / 2 - j,
        {
            let b0 = image[2 * j];
            let b1 = image[2 * j + 1];
            let v: u16 = (b1 as u16) * 0x100 + (b0 as u16);
            let a = start + 2 * j;
            proof {
                assert(a as int == start as int + 2 * (j as int));
                assert(spec_widx(start as int + 2 * (j as int)) < self@.cells.len());
            }
            let idx = Memory::map(a) / 2;
            proof {
                assert(idx as int == spec_widx(a as int));
            }
            self.data[idx] = MemoryField::MemoryCell(v);
            proof {
                assert(self@.ranges =~= old(self)@.ranges);
                assert forall|jj: int| 0 <= jj < j implies #[trigger] spec_widx(
                    start as int + 2 * jj,
                ) != spec_widx(start as int + 2 * (j as int)) by {
                    lemma_widx_distinct(start as int, jj, j as int);
                }
            }
            j += 1;
        }
        size
    }
}

/// Distinct pair offsets within the folded range land in distinct fields.
pub proof fn lemma_widx_distinct(start: int, j1: int, j2: int)
    requires
        0 <= start,
        0 <= j1 < j2,
        2 * j2 - 2 * j1 < 0x2000_0000,
    ensures
        spec_widx(start + 2 * j1) != spec_widx(start + 2 * j2),
{
    let a = start + 2 * j1;
    let b = start + 2 * j2;
    let fa = spec_map(a);
    let fb = spec_map(b);
    assert(fa % 2 == a % 2 && fb % 2 == b % 2) by {
        lemma_fold_parity(a);
        lemma_fold_parity(b);
    }
    assert(fa != fb) by {
        if fa == fb {
            assert((b - a) % 0x2000_0000 == 0) by {
                vstd::arithmetic::div_mod::lemma_sub_mod_noop(b, a, 0x2000_0000);
            }
            assert(0 < b - a < 0x2000_0000);
            vstd::arithmetic::div_mod::lemma_small_mod((b - a) as nat, 0x2000_0000nat);
        }
    }
    assert(fa == 2 * (fa / 2) + fa % 2);
    assert(fb == 2 * (fb / 2) + fb % 2);
}

/// The address fold preserves parity.
pub proof fn lemma_fold_parity(a: int)
    requires
        0 <= a,
    ensures
        spec_map(a) % 2 == a % 2,
{
    vstd::arithmetic::div_mod::lemma_mod_mod(a, 2, 0x1000_0000);
}

/// Writing a 16-bit word at an unrouted address and reading it back yields
/// the word written.
pub proof fn lemma_round_trip_u16(m0: MemView, m1: MemView, address: int, v: u16)
    requires
        !spec_routed(m0, spec_map(address)),
        spec_widx(address) < m0.cells.len(),
        m1.cells == m0.cells.update(spec_widx(address), MemoryField::MemoryCell(v)),
        m1.ranges == m0.ranges,
    ensures
        !spec_routed(m1, spec_map(address)),
        raw_word(m1, address) == v,
{
    assert(spec_routed(m1, spec_map(address)) ==> spec_routed(m0, spec_map(address)));
}

/// Writing a 32-bit value at an unrouted address and reading 32 bits back
/// yields the value written: the two halves land in distinct fields and
/// recombine exactly.
pub proof fn lemma_round_trip_u32(m0: MemView, m1: MemView, address: int, v: u32)
    requires
        0 <= address,
        !spec_routed(m0, spec_map(address)),
        spec_widx(address) < m0.cells.len(),
        spec_widx(address + 2) < m0.cells.len(),
        m1.cells == m0.cells.update(
            spec_widx(address),
            MemoryField::MemoryCell((v % 0x10000) as u16),
        ).update(spec_widx(address + 2), MemoryField::MemoryCell((v / 0x10000) as u16)),
        m1.ranges == m0.ranges,
    ensures
        raw_dword(m1, address) == v,
{
    lemma_widx_adjacent(address);
}

/// The two 16-bit fields of a 32-bit access are always distinct.
pub proof fn lemma_widx_adjacent(address: int)
    requires
        0 <= address,
    ensures
        spec_widx(address + 2) != spec_widx(address),
{
    let f = spec_map(address);
    if f + 2 < 0x2000_0000 {
        assert(spec_map(address + 2) == f + 2);
    } else {
        assert(spec_map(address + 2) == f + 2 - 0x2000_0000);
    }
}

/// Writing a byte stores that byte at its offset and preserves the other
/// byte of the enclosing word.
pub proof fn lemma_write_u8_preserves_neighbor(w: u16, off: int, b: u8)
    requires
        off == 0 || off == 1,
    ensures
        spec_get_byte(spec_put_byte(w, off, b), off) == b,
        spec_get_byte(spec_put_byte(w, off, b), 1 - off) == spec_get_byte(w, 1 - off),
{
}

} // verus!
