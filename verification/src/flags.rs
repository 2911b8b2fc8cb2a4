//! The processor status register as a set of named flags.

use vstd::prelude::*;

verus! {

/// One bit of the processor status register.
#[derive(Clone, Copy, Debug, PartialEq, Eq, Structural)]
pub enum Flag {
    Carry,
    Zero,
    InterruptDisable,
    Decimal,
    Break,
    Overflow,
    Negative,
}

impl Flag {
    /// The bit that stands for the flag in the status byte.
    pub open spec fn spec_mask(self) -> u8 {
        match self {
            Flag::Carry => 0x01,
            Flag::Zero => 0x02,
            Flag::InterruptDisable => 0x04,
            Flag::Decimal => 0x08,
            Flag::Break => 0x10,
            Flag::Overflow => 0x40,
            Flag::Negative => 0x80,
        }
    }

    /// The bit that stands for the flag in the status byte.
    #[verifier::when_used_as_spec(spec_mask)]
    pub fn mask(self) -> (m: u8)
        ensures
            m == self.spec_mask(),
    {
        match self {
            Flag::Carry => 0x01,
            Flag::Zero => 0x02,
            Flag::InterruptDisable => 0x04,
            Flag::Decimal => 0x08,
            Flag::Break => 0x10,
            Flag::Overflow => 0x40,
            Flag::Negative => 0x80,
        }
    }
}

/// The status register: the flags that are set, kept as the bits of one byte.
#[derive(Clone, Copy, Debug, PartialEq, Eq, Structural)]
pub struct CPUFlags {
    pub bits: u8,
}

impl View for CPUFlags {
    type V = Set<Flag>;

    /// The flags that are set.
    open spec fn view(&self) -> Set<Flag> {
        Set::new(|f: Flag| self.bits & f.spec_mask() != 0)
    }
}

/// The bits of the status byte that stand for a flag.
pub const ALL_FLAG_BITS: u8 = 0xDF;

/// A byte with exactly one of the seven flag bits set.
spec fn is_flag_bit(m: u8) -> bool {
    m == 0x01 || m == 0x02 || m == 0x04 || m == 0x08 || m == 0x10 || m == 0x40 || m == 0x80
}

/// How setting, clearing and masking change the test of one flag bit.
proof fn lemma_or_bit(b: u8, m1: u8, m2: u8)
    by (bit_vector)
    requires
        is_flag_bit(m1),
        is_flag_bit(m2),
    ensures
        ((b | m1) & m2 != 0) <==> (m1 == m2 || b & m2 != 0),
        ((b & !m1) & m2 != 0) <==> (m1 != m2 && b & m2 != 0),
        0u8 & m2 == 0,
        ((b & 0xDF) & m2 != 0) <==> (b & m2 != 0),
{
}

impl CPUFlags {
    /// The register with no flag set.
    pub open spec fn spec_empty() -> CPUFlags {
        CPUFlags { bits: 0 }
    }

    /// The register with `flag` set and every other bit as it was.
    pub open spec fn spec_insert(self, flag: Flag) -> CPUFlags {
        CPUFlags { bits: self.bits | flag.spec_mask() }
    }

    /// The register with `flag` cleared and every other bit as it was.
    pub open spec fn spec_remove(self, flag: Flag) -> CPUFlags {
        CPUFlags { bits: self.bits & !flag.spec_mask() }
    }

    /// The register with `flag` set if `on` holds and cleared if not.
    pub open spec fn spec_set(self, flag: Flag, on: bool) -> CPUFlags {
        if on {
            self.spec_insert(flag)
        } else {
            self.spec_remove(flag)
        }
    }

    /// Setting a flag adds it to the set and changes no other membership.
    pub proof fn lemma_insert(self, flag: Flag)
        ensures
            self.spec_insert(flag)@ == self@.insert(flag),
    {
        assert forall|g: Flag|
            self.spec_insert(flag)@.contains(g) == self@.insert(flag).contains(g) by {
            lemma_or_bit(self.bits, flag.spec_mask(), g.spec_mask());
        }
        assert(self.spec_insert(flag)@ =~= self@.insert(flag));
    }

    /// Clearing a flag takes it out of the set and changes no other membership.
    pub proof fn lemma_remove(self, flag: Flag)
        ensures
            self.spec_remove(flag)@ == self@.remove(flag),
    {
        assert forall|g: Flag|
            self.spec_remove(flag)@.contains(g) == self@.remove(flag).contains(g) by {
            lemma_or_bit(self.bits, flag.spec_mask(), g.spec_mask());
        }
        assert(self.spec_remove(flag)@ =~= self@.remove(flag));
    }

    /// After `spec_set`, `flag` is a member exactly if `on` holds; the other flags keep
    /// their membership.
    pub proof fn lemma_set(self, flag: Flag, on: bool)
        ensures
            self.spec_set(flag, on)@ == if on {
                self@.insert(flag)
            } else {
                self@.remove(flag)
            },
            self.spec_set(flag, on)@.contains(flag) == on,
            forall|g: Flag| g != flag ==> self.spec_set(flag, on)@.contains(g) == self@.contains(g),
    {
        self.lemma_insert(flag);
        self.lemma_remove(flag);
    }

    /// The register with no flag set.
    pub fn empty() -> (flags: CPUFlags)
        ensures
            flags == CPUFlags::spec_empty(),
            flags@ == Set::<Flag>::empty(),
    {
        let flags = CPUFlags { bits: 0 };
        proof {
            assert forall|g: Flag| !flags@.contains(g) by {
                lemma_or_bit(0, g.spec_mask(), g.spec_mask());
            }
            assert(flags@ =~= Set::<Flag>::empty());
        }
        flags
    }

    /// The register read from a status byte; the one bit that stands for no flag is dropped.
    pub fn from_bits_truncate(bits: u8) -> (flags: CPUFlags)
        ensures
            flags.bits == bits & ALL_FLAG_BITS,
            flags@ == (CPUFlags { bits })@,
    {
        let flags = CPUFlags { bits: bits & ALL_FLAG_BITS };
        proof {
            assert forall|g: Flag| flags@.contains(g) == (CPUFlags { bits })@.contains(g) by {
                lemma_or_bit(bits, g.spec_mask(), g.spec_mask());
            }
            assert(flags@ =~= (CPUFlags { bits })@);
        }
        flags
    }

    /// The status byte.
    pub fn bits(&self) -> (bits: u8)
        ensures
            bits == self.bits,
    {
        self.bits
    }

    /// Whether `flag` is set.
    pub fn contains(&self, flag: Flag) -> (present: bool)
        ensures
            present == self@.contains(flag),
    {
        self.bits & flag.mask() != 0
    }

    /// Sets `flag`.
    pub fn insert(&mut self, flag: Flag)
        ensures
            *final(self) == old(self).spec_insert(flag),
            final(self)@ == old(self)@.insert(flag),
    {
        proof {
            self.lemma_insert(flag);
        }
        self.bits = self.bits | flag.mask();
    }

    /// Clears `flag`.
    pub fn remove(&mut self, flag: Flag)
        ensures
            *final(self) == old(self).spec_remove(flag),
            final(self)@ == old(self)@.remove(flag),
    {
        proof {
            self.lemma_remove(flag);
        }
        self.bits = self.bits & !flag.mask();
    }

    /// Sets `flag` if `on` holds, clears it if not.
    pub fn set(&mut self, flag: Flag, on: bool)
        ensures
            *final(self) == old(self).spec_set(flag, on),
            final(self)@.contains(flag) == on,
            forall|g: Flag| g != flag ==> final(self)@.contains(g) == old(self)@.contains(g),
    {
        proof {
            self.lemma_set(flag, on);
        }
        if on {
            self.insert(flag);
        } else {
            self.remove(flag);
        }
    }
}

} // verus!
