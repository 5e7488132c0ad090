use crate::cache::CAPACITY;
use vstd::prelude::*;

verus! {

/// The PowerPC features.
#[allow(non_camel_case_types)]
#[derive(Clone, Copy, Debug, PartialEq, Eq, Structural)]
pub enum Feature {
    /// AltiVec vector instructions.
    altivec,
    /// Vector-scalar instructions.
    vsx,
    /// POWER8 instructions.
    power8,
}

/// The number of features; their bit indices lie below it.
pub const FEATURE_COUNT: u32 = 3;

impl Feature {
    /// The bit index that stands for this feature in a bitmask.
    pub open spec fn ordinal(self) -> nat {
        match self {
            Feature::altivec => 0,
            Feature::vsx => 1,
            Feature::power8 => 2,
        }
    }

    /// The feature that a bit index stands for, if it stands for one.
    pub open spec fn from_ordinal(i: nat) -> Option<Feature> {
        if i == 0 {
            Some(Feature::altivec)
        } else if i == 1 {
            Some(Feature::vsx)
        } else if i == 2 {
            Some(Feature::power8)
        } else {
            None
        }
    }

    /// The bit index of this feature.
    pub fn index(self) -> (i: u32)
        ensures
            i == self.ordinal(),
            i < CAPACITY,
    {
        match self {
            Feature::altivec => 0,
            Feature::vsx => 1,
            Feature::power8 => 2,
        }
    }

    /// The feature with bit index `i`, if there is one.
    pub fn from_index(i: u32) -> (found: Option<Feature>)
        ensures
            found == Feature::from_ordinal(i as nat),
    {
        if i == 0 {
            Some(Feature::altivec)
        } else if i == 1 {
            Some(Feature::vsx)
        } else if i == 2 {
            Some(Feature::power8)
        } else {
            None
        }
    }

    /// Every feature has a bit index of its own, below the capacity of a
    /// bitmask, and `from_ordinal` finds the feature again from it.
    pub proof fn lemma_ordinal_round_trip(self)
        ensures
            Feature::from_ordinal(self.ordinal()) == Some(self),
            self.ordinal() < FEATURE_COUNT <= CAPACITY,
    {
    }

    /// A bit index stands for at most one feature.
    pub proof fn lemma_from_ordinal_sound(i: nat)
        ensures
            match Feature::from_ordinal(i) {
                Some(feature) => feature.ordinal() == i,
                None => true,
            },
    {
    }
}

} // verus!
