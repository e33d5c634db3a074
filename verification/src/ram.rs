//! Random-access memory device.
//!
//! A `Ram` owns an inclusive address range and one byte of storage per
//! address in it, initialised to `0xEA` (the NOP opcode) so that unprogrammed
//! memory behaves as an infinite NOP slide. Reads and writes are indexed by
//! `address - start`.

use vstd::prelude::*;

use crate::bus::BusItem;

verus! {

/// The fill byte fresh RAM is initialised with: `0xEA`, the NOP opcode.
pub const RAM_FILL: u8 = 0xEA;

/// In-process byte-array memory covering one inclusive address range.
pub struct Ram {
    start: u16,
    end: u16,
    data: Vec<u8>,
}

impl Ram {
    /// First address of the owned range.
    pub closed spec fn spec_start(&self) -> u16 {
        self.start
    }

    /// Last address of the owned range (inclusive).
    pub closed spec fn spec_end(&self) -> u16 {
        self.end
    }

    /// The stored bytes; index `i` holds the byte of address `start + i`.
    pub closed spec fn spec_data(&self) -> Seq<u8> {
        self.data@
    }

    /// The range is ordered and the storage covers it exactly.
    pub closed spec fn wf(&self) -> bool {
        &&& self.start <= self.end
        &&& self.data@.len() == self.end - self.start + 1
    }

    /// Create RAM for the inclusive range `start..=end`, filled with `0xEA`
    /// so that unprogrammed memory behaves as a NOP slide.
    pub fn new(start: u16, end: u16) -> (r: Ram)
        requires
            start <= end,
        ensures
            r.wf(),
            r.spec_start() == start,
            r.spec_end() == end,
            r.spec_data() == Seq::new((end - start + 1) as nat, |i: int| RAM_FILL),
    {
        Ram::new_filled(start, end, RAM_FILL)
    }

    /// Create RAM for the inclusive range `start..=end`, every byte set to
    /// `fill`.
    pub fn new_filled(start: u16, end: u16, fill: u8) -> (r: Ram)
        requires
            start <= end,
        ensures
            r.wf(),
            r.spec_start() == start,
            r.spec_end() == end,
            r.spec_data() == Seq::new((end - start + 1) as nat, |i: int| fill),
    {
        let len: usize = (end - start) as usize + 1;
        let mut data: Vec<u8> = Vec::new();
        let mut i: usize = 0;
        while i < len
            invariant
                i <= len,
                data@.len() == i,
                forall|j: int| 0 <= j < i ==> data@[j] == fill,
            decreases len - i,
        {
            data.push(fill);
            i = i + 1;
        }
        let r = Ram { start, end, data };
        proof {
            assert(r.spec_data() =~= Seq::new((end - start + 1) as nat, |i: int| fill));
        }
        r
    }

    /// Bulk-write a program image at `offset` bytes past the range start.
    pub fn write_all(&mut self, offset: u16, data: &[u8])
        requires
            old(self).wf(),
            offset + data@.len() <= old(self).spec_data().len(),
        ensures
            final(self).wf(),
            final(self).spec_start() == old(self).spec_start(),
            final(self).spec_end() == old(self).spec_end(),
            final(self).spec_data().len() == old(self).spec_data().len(),
            forall|i: int|
                0 <= i < old(self).spec_data().len() ==> final(self).spec_data()[i] == (if offset
                    <= i < offset + data@.len() {
                    data@[i - offset]
                } else {
                    old(self).spec_data()[i]
                }),
    {
        let mut i: usize = 0;
        while i < data.len()
            invariant
                self.wf(),
                self.start == old(self).start,
                self.end == old(self).end,
                i <= data@.len(),
                offset + data@.len() <= self.data@.len(),
                self.data@.len() == old(self).data@.len(),
                forall|j: int|
                    0 <= j < old(self).data@.len() ==> self.data@[j] == (if offset <= j < offset
                        + i {
                        data@[j - offset]
                    } else {
                        old(self).data@[j]
                    }),
            decreases data@.len() - i,
        {
            let idx: usize = offset as usize + i;
            self.data[idx] = data[i];
            i = i + 1;
        }
    }
}

impl BusItem for Ram {
    open spec fn item_start(&self) -> u16 {
        self.spec_start()
    }

    open spec fn item_end(&self) -> u16 {
        self.spec_end()
    }

    open spec fn item_mem(&self) -> Seq<u8> {
        self.spec_data()
    }

    open spec fn item_wf(&self) -> bool {
        self.wf()
    }

    proof fn item_wf_facts(&self) {
    }

    fn address_range(&self) -> (r: (u16, u16)) {
        (self.start, self.end)
    }

    fn read(&self, address: u16, read_only: bool) -> (b: u8) {
        self.data[(address - self.start) as usize]
    }

    fn write(&mut self, address: u16, value: u8) {
        let idx: usize = (address - self.start) as usize;
        self.data[idx] = value;
    }
}

} // verus!
