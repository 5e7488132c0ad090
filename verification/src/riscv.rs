use crate::cache::CAPACITY;
use vstd::prelude::*;

verus! {

/// The RISC-V features that the probe reports.
#[allow(non_camel_case_types)]
#[derive(Clone, Copy, Debug, PartialEq, Eq, Structural)]
pub enum Feature {
    /// Base integer instruction set, 32 bit.
    rv32i,
    /// Base integer instruction set, 64 bit.
    rv64i,
    /// Control and status register instructions.
    zicsr,
    /// Integer multiplication and division.
    m,
    /// Atomic instructions.
    a,
    /// Single-precision floating point.
    f,
    /// Double-precision floating point.
    d,
    /// Compressed instructions.
    c,
}

/// The number of features; their bit indices lie below it.
pub const FEATURE_COUNT: u32 = 8;

impl Feature {
    /// The bit index that stands for this feature in a bitmask.
    pub open spec fn ordinal(self) -> nat {
        match self {
            Feature::rv32i => 0,
            Feature::rv64i => 1,
            Feature::zicsr => 2,
            Feature::m => 3,
            Feature::a => 4,
            Feature::f => 5,
            Feature::d => 6,
            Feature::c => 7,
        }
    }

    /// The feature that a bit index stands for, if it stands for one.
    pub open spec fn from_ordinal(i: nat) -> Option<Feature> {
        if i == 0 {
            Some(Feature::rv32i)
        } else if i == 1 {
            Some(Feature::rv64i)
        } else if i == 2 {
            Some(Feature::zicsr)
        } else if i == 3 {
            Some(Feature::m)
        } else if i == 4 {
            Some(Feature::a)
        } else if i == 5 {
            Some(Feature::f)
        } else if i == 6 {
            Some(Feature::d)
        } else if i == 7 {
            Some(Feature::c)
        } else {
            None
        }
    }

    /// The bit index of this feature.
    pub fn index(self) -> (i: u32)
        ensures
            i == self.ordinal(),
            i < CAPACITY,
    {
        match self {
            Feature::rv32i => 0,
            Feature::rv64i => 1,
            Feature::zicsr => 2,
            Feature::m => 3,
            Feature::a => 4,
            Feature::f => 5,
            Feature::d => 6,
            Feature::c => 7,
        }
    }

    /// The feature with bit index `i`, if there is one.
    pub fn from_index(i: u32) -> (found: Option<Feature>)
        ensures
            found == Feature::from_ordinal(i as nat),
    {
        if i == 0 {
            Some(Feature::rv32i)
        } else if i == 1 {
            Some(Feature::rv64i)
        } else if i == 2 {
            Some(Feature::zicsr)
        } else if i == 3 {
            Some(Feature::m)
        } else if i == 4 {
            Some(Feature::a)
        } else if i == 5 {
            Some(Feature::f)
        } else if i == 6 {
            Some(Feature::d)
        } else if i == 7 {
            Some(Feature::c)
        } else {
            None
        }
    }

    /// Every feature has a bit index of its own, below the capacity of a
    /// bitmask, and `from_ordinal` finds the feature again from it.
    pub proof fn lemma_ordinal_round_trip(self)
        ensures
            Feature::from_ordinal(self.ordinal()) == Some(self),
            self.ordinal() < FEATURE_COUNT <= CAPACITY,
    {
    }

    /// A bit index stands for at most one feature.
    pub proof fn lemma_from_ordinal_sound(i: nat)
        ensures
            match Feature::from_ordinal(i) {
                Some(feature) => feature.ordinal() == i,
                None => true,
            },
    {
    }
}

} // verus!
