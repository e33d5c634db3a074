//! The processor status register.
//!
//! `P` is a set over eight flags serialised in the bit layout `NV-BDIZC`
//! (Negative, Overflow, Unused, Break, Decimal, InterruptDisable, Zero,
//! Carry, from bit 7 down to bit 0). The register is modelled as a struct of
//! eight booleans; `bits` and `from_bits` convert to and from the packed byte
//! that stack pushes and pops traffic in, and the two round-trip lemmas below
//! pin that packing down.

use vstd::prelude::*;

verus! {

/// The eight flags of the 6502 status register, named as on the data sheet.
#[derive(Clone, Copy, PartialEq, Eq, Structural, Debug)]
pub enum StatusFlags {
    Carry,
    Zero,
    Interrupt,
    Decimal,
    Break,
    Unused,
    Overflow,
    Negative,
}

/// One status register value: the set of flags currently raised.
#[derive(Clone, Copy, PartialEq, Eq, Structural, Debug)]
pub struct Status {
    pub carry: bool,
    pub zero: bool,
    pub interrupt: bool,
    pub decimal: bool,
    pub brk: bool,
    pub unused: bool,
    pub overflow: bool,
    pub negative: bool,
}

impl Status {
    /// The packed `NV-BDIZC` byte this flag set serialises to.
    pub open spec fn spec_bits(self) -> u8 {
        ((if self.carry {
            1int
        } else {
            0int
        }) + (if self.zero {
            2int
        } else {
            0int
        }) + (if self.interrupt {
            4int
        } else {
            0int
        }) + (if self.decimal {
            8int
        } else {
            0int
        }) + (if self.brk {
            16int
        } else {
            0int
        }) + (if self.unused {
            32int
        } else {
            0int
        }) + (if self.overflow {
            64int
        } else {
            0int
        }) + (if self.negative {
            128int
        } else {
            0int
        })) as u8
    }

    /// The flag set encoded by a packed `NV-BDIZC` byte.
    pub open spec fn spec_from_bits(bits: u8) -> Status {
        Status {
            carry: bits % 2 == 1,
            zero: (bits / 2) % 2 == 1,
            interrupt: (bits / 4) % 2 == 1,
            decimal: (bits / 8) % 2 == 1,
            brk: (bits / 16) % 2 == 1,
            unused: (bits / 32) % 2 == 1,
            overflow: (bits / 64) % 2 == 1,
            negative: (bits / 128) % 2 == 1,
        }
    }

    /// The status value with every flag clear.
    pub open spec fn spec_empty() -> Status {
        Status {
            carry: false,
            zero: false,
            interrupt: false,
            decimal: false,
            brk: false,
            unused: false,
            overflow: false,
            negative: false,
        }
    }

    /// Construct the all-clear status value.
    pub fn empty() -> (r: Status)
        ensures
            r == Status::spec_empty(),
    {
        Status {
            carry: false,
            zero: false,
            interrupt: false,
            decimal: false,
            brk: false,
            unused: false,
            overflow: false,
            negative: false,
        }
    }

    /// Whether a single flag is raised.
    pub open spec fn spec_get(self, flag: StatusFlags) -> bool {
        match flag {
            StatusFlags::Carry => self.carry,
            StatusFlags::Zero => self.zero,
            StatusFlags::Interrupt => self.interrupt,
            StatusFlags::Decimal => self.decimal,
            StatusFlags::Break => self.brk,
            StatusFlags::Unused => self.unused,
            StatusFlags::Overflow => self.overflow,
            StatusFlags::Negative => self.negative,
        }
    }

    /// This status with one flag forced to `set`.
    pub open spec fn spec_with(self, flag: StatusFlags, set: bool) -> Status {
        match flag {
            StatusFlags::Carry => Status { carry: set, ..self },
            StatusFlags::Zero => Status { zero: set, ..self },
            StatusFlags::Interrupt => Status { interrupt: set, ..self },
            StatusFlags::Decimal => Status { decimal: set, ..self },
            StatusFlags::Break => Status { brk: set, ..self },
            StatusFlags::Unused => Status { unused: set, ..self },
            StatusFlags::Overflow => Status { overflow: set, ..self },
            StatusFlags::Negative => Status { negative: set, ..self },
        }
    }

    /// Read one flag.
    pub fn get(&self, flag: StatusFlags) -> (r: bool)
        ensures
            r == self.spec_get(flag),
    {
        match flag {
            StatusFlags::Carry => self.carry,
            StatusFlags::Zero => self.zero,
            StatusFlags::Interrupt => self.interrupt,
            StatusFlags::Decimal => self.decimal,
            StatusFlags::Break => self.brk,
            StatusFlags::Unused => self.unused,
            StatusFlags::Overflow => self.overflow,
            StatusFlags::Negative => self.negative,
        }
    }

    /// Force one flag to `set`, leaving the others alone.
    pub fn set(&mut self, flag: StatusFlags, set: bool)
        ensures
            *final(self) == old(self).spec_with(flag, set),
    {
        match flag {
            StatusFlags::Carry => self.carry = set,
            StatusFlags::Zero => self.zero = set,
            StatusFlags::Interrupt => self.interrupt = set,
            StatusFlags::Decimal => self.decimal = set,
            StatusFlags::Break => self.brk = set,
            StatusFlags::Unused => self.unused = set,
            StatusFlags::Overflow => self.overflow = set,
            StatusFlags::Negative => self.negative = set,
        }
    }

    /// Pack the flags into their `NV-BDIZC` byte.
    pub fn bits(&self) -> (r: u8)
        ensures
            r == self.spec_bits(),
    {
        let mut r: u8 = 0;
        if self.carry {
            r = r + 1;
        }
        if self.zero {
            r = r + 2;
        }
        if self.interrupt {
            r = r + 4;
        }
        if self.decimal {
            r = r + 8;
        }
        if self.brk {
            r = r + 16;
        }
        if self.unused {
            r = r + 32;
        }
        if self.overflow {
            r = r + 64;
        }
        if self.negative {
            r = r + 128;
        }
        r
    }

    /// Unpack an `NV-BDIZC` byte into its flag set.
    pub fn from_bits(bits: u8) -> (r: Status)
        ensures
            r == Status::spec_from_bits(bits),
    {
        Status {
            carry: bits % 2 == 1,
            zero: (bits / 2) % 2 == 1,
            interrupt: (bits / 4) % 2 == 1,
            decimal: (bits / 8) % 2 == 1,
            brk: (bits / 16) % 2 == 1,
            unused: (bits / 32) % 2 == 1,
            overflow: (bits / 64) % 2 == 1,
            negative: (bits / 128) % 2 == 1,
        }
    }
}

/// Unpacking the packed byte of a flag set gives the flag set back.
pub proof fn lemma_bits_round_trip(s: Status)
    ensures
        Status::spec_from_bits(s.spec_bits()) == s,
{
    let b = s.spec_bits();
    assert(Status::spec_from_bits(b) == s);
}

/// Packing the flag set of a byte gives the byte back: `NV-BDIZC` packing
/// loses no information.
pub proof fn lemma_from_bits_round_trip(bits: u8)
    ensures
        Status::spec_from_bits(bits).spec_bits() == bits,
{
    assert(bits == bits % 2 + 2 * (bits / 2));
    assert(bits / 2 == (bits / 2) % 2 + 2 * (bits / 4));
    assert(bits / 4 == (bits / 4) % 2 + 2 * (bits / 8));
    assert(bits / 8 == (bits / 8) % 2 + 2 * (bits / 16));
    assert(bits / 16 == (bits / 16) % 2 + 2 * (bits / 32));
    assert(bits / 32 == (bits / 32) % 2 + 2 * (bits / 64));
    assert(bits / 64 == (bits / 64) % 2 + 2 * (bits / 128));
    assert(bits / 128 == (bits / 128) % 2);
}

} // verus!
