//! The switches of a send request.
//!
//! A request carries any combination of six independent switches. The set is
//! kept as a bit mask; its model is the mathematical set of switches that
//! are on.

use vstd::prelude::*;

verus! {

/// One switch of a send request.
#[derive(Debug, Clone, Copy, PartialEq, Eq, Hash, Structural)]
pub enum SmsFlag {
    /// Ask the gateway for debug output.
    Debug,
    /// Keep the message out of the gateway's log.
    NoLog,
    /// Deliver as a flash message.
    Flash,
    /// Go through the motions without sending.
    Test,
    /// Skip the blacklist.
    NoBl,
    /// Let the gateway convert characters.
    Convert,
}

impl SmsFlag {
    /// The bit that stands for this switch in a mask.
    pub open spec fn bit(self) -> u32 {
        match self {
            SmsFlag::Debug => 0x01,
            SmsFlag::NoLog => 0x02,
            SmsFlag::Flash => 0x04,
            SmsFlag::Test => 0x08,
            SmsFlag::NoBl => 0x10,
            SmsFlag::Convert => 0x20,
        }
    }

    /// The bit that stands for this switch in a mask.
    pub fn mask(self) -> (m: u32)
        ensures
            m == self.bit(),
    {
        match self {
            SmsFlag::Debug => 0x01,
            SmsFlag::NoLog => 0x02,
            SmsFlag::Flash => 0x04,
            SmsFlag::Test => 0x08,
            SmsFlag::NoBl => 0x10,
            SmsFlag::Convert => 0x20,
        }
    }
}

/// The mask with the bits of all six switches.
pub const ALL_BITS: u32 = 0x3f;

/// Two switches share a bit only if they are the same switch, and every
/// switch has its bit inside `ALL_BITS`.
pub proof fn lemma_bits_apart(f: SmsFlag, g: SmsFlag)
    ensures
        (f.bit() & g.bit() != 0) <==> f == g,
        f.bit() & ALL_BITS == f.bit(),
        f.bit() != 0,
{
    assert(0x01u32 & 0x01u32 != 0 && 0x02u32 & 0x02u32 != 0 && 0x04u32 & 0x04u32 != 0 && 0x08u32
        & 0x08u32 != 0 && 0x10u32 & 0x10u32 != 0 && 0x20u32 & 0x20u32 != 0) by (bit_vector);
    assert(0x01u32 & 0x02u32 == 0 && 0x01u32 & 0x04u32 == 0 && 0x01u32 & 0x08u32 == 0 && 0x01u32
        & 0x10u32 == 0 && 0x01u32 & 0x20u32 == 0 && 0x02u32 & 0x04u32 == 0 && 0x02u32 & 0x08u32
        == 0 && 0x02u32 & 0x10u32 == 0 && 0x02u32 & 0x20u32 == 0 && 0x04u32 & 0x08u32 == 0
        && 0x04u32 & 0x10u32 == 0 && 0x04u32 & 0x20u32 == 0 && 0x08u32 & 0x10u32 == 0 && 0x08u32
        & 0x20u32 == 0 && 0x10u32 & 0x20u32 == 0) by (bit_vector);
    assert(forall|a: u32, b: u32| #[trigger] (a & b) == b & a) by (bit_vector);
    assert(0x01u32 & 0x3fu32 == 0x01u32 && 0x02u32 & 0x3fu32 == 0x02u32 && 0x04u32 & 0x3fu32
        == 0x04u32 && 0x08u32 & 0x3fu32 == 0x08u32 && 0x10u32 & 0x3fu32 == 0x10u32 && 0x20u32
        & 0x3fu32 == 0x20u32) by (bit_vector);
}

/// A set of switches.
#[derive(Debug, Clone, Copy, PartialEq, Eq)]
pub struct SmsFlags {
    bits: u32,
}

impl View for SmsFlags {
    type V = Set<SmsFlag>;

    /// The switches that are on.
    open spec fn view(&self) -> Set<SmsFlag> {
        Set::new(|f: SmsFlag| self.spec_bits() & f.bit() != 0)
    }
}

impl SmsFlags {
    /// No bit outside the six switches is ever set.
    #[verifier::type_invariant]
    spec fn known_bits_only(self) -> bool {
        self.bits & ALL_BITS == self.bits
    }

    /// The mask of this set.
    pub closed spec fn spec_bits(self) -> u32 {
        self.bits
    }

    /// The set with no switch on.
    pub fn empty() -> (r: Self)
        ensures
            r@ == Set::<SmsFlag>::empty(),
            r.spec_bits() == 0,
    {
        assert(0u32 & 0x3fu32 == 0u32) by (bit_vector);
        assert(forall|m: u32| 0u32 & m == 0u32) by (bit_vector);
        let r = SmsFlags { bits: 0 };
        r
    }

    /// The set with every switch on.
    pub fn all() -> (r: Self)
        ensures
            r@ == Set::<SmsFlag>::full(),
            r.spec_bits() == ALL_BITS,
    {
        assert(0x3fu32 & 0x3fu32 == 0x3fu32) by (bit_vector);
        let r = SmsFlags { bits: ALL_BITS };
        assert forall|f: SmsFlag| r@.contains(f) by {
            lemma_bits_apart(f, f);
            let b = f.bit();
            assert(b & 0x3fu32 == b && b != 0 ==> 0x3fu32 & b != 0) by (bit_vector);
        }
        r
    }

    /// The set with the one switch `flag` on.
    pub fn only(flag: SmsFlag) -> (r: Self)
        ensures
            r@ == set![flag],
            r.spec_bits() == flag.bit(),
    {
        proof {
            lemma_bits_apart(flag, flag);
        }
        let r = SmsFlags { bits: flag.mask() };
        assert forall|g: SmsFlag| r@.contains(g) <==> g == flag by {
            lemma_bits_apart(flag, g);
        }
        r
    }

    /// The set whose switches are the bits of `bits`; bits that stand for no
    /// switch are dropped.
    pub fn from_bits_truncate(bits: u32) -> (r: Self)
        ensures
            r.spec_bits() == bits & ALL_BITS,
            forall|f: SmsFlag| r@.contains(f) <==> bits & f.bit() != 0,
    {
        assert((bits & 0x3fu32) & 0x3fu32 == bits & 0x3fu32) by (bit_vector);
        let r = SmsFlags { bits: bits & ALL_BITS };
        assert forall|f: SmsFlag| r@.contains(f) <==> bits & f.bit() != 0 by {
            lemma_bits_apart(f, f);
            let b = f.bit();
            assert(b & 0x3fu32 == b ==> (bits & 0x3fu32) & b == bits & b) by (bit_vector);
        }
        r
    }

    /// The set in which each switch is on or off as its argument says.
    pub fn from_switches(
        debug: bool,
        nolog: bool,
        flash: bool,
        test: bool,
        nobl: bool,
        convert: bool,
    ) -> (r: Self)
        ensures
            r@.contains(SmsFlag::Debug) == debug,
            r@.contains(SmsFlag::NoLog) == nolog,
            r@.contains(SmsFlag::Flash) == flash,
            r@.contains(SmsFlag::Test) == test,
            r@.contains(SmsFlag::NoBl) == nobl,
            r@.contains(SmsFlag::Convert) == convert,
    {
        let mut flags = SmsFlags::empty();
        if debug {
            flags = flags.with(SmsFlag::Debug);
        }
        if nolog {
            flags = flags.with(SmsFlag::NoLog);
        }
        if flash {
            flags = flags.with(SmsFlag::Flash);
        }
        if test {
            flags = flags.with(SmsFlag::Test);
        }
        if nobl {
            flags = flags.with(SmsFlag::NoBl);
        }
        if convert {
            flags = flags.with(SmsFlag::Convert);
        }
        flags
    }

    /// The mask of this set: one bit for each switch that is on.
    pub fn bits(&self) -> (bits: u32)
        ensures
            bits == self.spec_bits(),
            bits & ALL_BITS == bits,
    {
        proof {
            use_type_invariant(self);
        }
        self.bits
    }

    /// Whether no switch is on.
    pub fn is_empty(&self) -> (b: bool)
        ensures
            b <==> self@ == Set::<SmsFlag>::empty(),
    {
        proof {
            use_type_invariant(self);
            let bits = self.bits;
            if bits == 0 {
                assert(forall|m: u32| 0u32 & m == 0u32) by (bit_vector);
                assert(self@ =~= Set::<SmsFlag>::empty());
            } else {
                assert(bits & 0x3fu32 == bits && bits != 0 ==> bits & 0x01u32 != 0 || bits
                    & 0x02u32 != 0 || bits & 0x04u32 != 0 || bits & 0x08u32 != 0 || bits
                    & 0x10u32 != 0 || bits & 0x20u32 != 0) by (bit_vector);
                assert(self@.contains(SmsFlag::Debug) || self@.contains(SmsFlag::NoLog)
                    || self@.contains(SmsFlag::Flash) || self@.contains(SmsFlag::Test)
                    || self@.contains(SmsFlag::NoBl) || self@.contains(SmsFlag::Convert));
            }
        }
        self.bits == 0
    }

    /// Whether the switch `flag` is on.
    pub fn has(&self, flag: SmsFlag) -> (b: bool)
        ensures
            b == self@.contains(flag),
    {
        self.bits & flag.mask() != 0
    }

    /// Whether every switch of `other` is on in this set.
    pub fn contains(&self, other: SmsFlags) -> (b: bool)
        ensures
            b == other@.subset_of(self@),
    {
        let a: u32 = self.bits;
        let o: u32 = other.bits;
        proof {
            use_type_invariant(other);
            if a & o == o {
                assert forall|f: SmsFlag| other@.contains(f) implies self@.contains(f) by {
                    let m = f.bit();
                    assert(a & o == o && o & m != 0 ==> a & m != 0) by (bit_vector);
                }
            } else {
                assert(o & 0x3fu32 == o && a & o != o ==> (o & 0x01u32 != 0 && a & 0x01u32 == 0)
                    || (o & 0x02u32 != 0 && a & 0x02u32 == 0) || (o & 0x04u32 != 0 && a
                    & 0x04u32 == 0) || (o & 0x08u32 != 0 && a & 0x08u32 == 0) || (o & 0x10u32
                    != 0 && a & 0x10u32 == 0) || (o & 0x20u32 != 0 && a & 0x20u32 == 0))
                    by (bit_vector);
                assert((other@.contains(SmsFlag::Debug) && !self@.contains(SmsFlag::Debug)) || (
                other@.contains(SmsFlag::NoLog) && !self@.contains(SmsFlag::NoLog)) || (
                other@.contains(SmsFlag::Flash) && !self@.contains(SmsFlag::Flash)) || (
                other@.contains(SmsFlag::Test) && !self@.contains(SmsFlag::Test)) || (
                other@.contains(SmsFlag::NoBl) && !self@.contains(SmsFlag::NoBl)) || (
                other@.contains(SmsFlag::Convert) && !self@.contains(SmsFlag::Convert)));
            }
        }
        a & o == o
    }

    /// This set with the switch `flag` on as well.
    pub fn with(self, flag: SmsFlag) -> (r: Self)
        ensures
            r@ == self@.insert(flag),
    {
        self.union(SmsFlags::only(flag))
    }

    /// The switches that are on in this set or in `other`.
    pub fn union(self, other: SmsFlags) -> (r: Self)
        ensures
            r@ == self@.union(other@),
            r.spec_bits() == self.spec_bits() | other.spec_bits(),
    {
        let a: u32 = self.bits;
        let o: u32 = other.bits;
        proof {
            use_type_invariant(self);
            use_type_invariant(other);
            assert(a & 0x3fu32 == a && o & 0x3fu32 == o ==> (a | o) & 0x3fu32 == a | o)
                by (bit_vector);
        }
        let r = SmsFlags { bits: a | o };
        assert forall|f: SmsFlag| r@.contains(f) <==> self@.contains(f) || other@.contains(f) by {
            let m = f.bit();
            assert(((a | o) & m != 0) <==> (a & m != 0 || o & m != 0)) by (bit_vector);
        }
        r
    }

    /// The switches that are on in this set and in `other`.
    pub fn intersection(self, other: SmsFlags) -> (r: Self)
        ensures
            r@ == self@.intersect(other@),
            r.spec_bits() == self.spec_bits() & other.spec_bits(),
    {
        let a: u32 = self.bits;
        let o: u32 = other.bits;
        proof {
            use_type_invariant(self);
            use_type_invariant(other);
            assert(a & 0x3fu32 == a ==> (a & o) & 0x3fu32 == a & o) by (bit_vector);
        }
        let r = SmsFlags { bits: a & o };
        assert forall|f: SmsFlag| r@.contains(f) <==> self@.contains(f) && other@.contains(f) by {
            lemma_bits_apart(f, f);
            let m = f.bit();
            assert((m == 0x01u32 || m == 0x02u32 || m == 0x04u32 || m == 0x08u32 || m == 0x10u32
                || m == 0x20u32) ==> (((a & o) & m != 0) <==> (a & m != 0 && o & m != 0)))
                by (bit_vector);
        }
        r
    }
}

impl Default for SmsFlags {
    /// The set with no switch on.
    fn default() -> (r: Self)
        ensures
            r@ == Set::<SmsFlag>::empty(),
    {
        SmsFlags::empty()
    }
}

} // verus!
