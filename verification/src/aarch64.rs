use crate::cache::{enable_feature, Initializer, CAPACITY};
use vstd::prelude::*;

verus! {

/// The AArch64 features that the probes report.
#[allow(non_camel_case_types)]
#[derive(Clone, Copy, Debug, PartialEq, Eq, Structural)]
pub enum Feature {
    /// Advanced SIMD.
    asimd,
    /// Polynomial multiply long.
    pmull,
    /// Floating point.
    fp,
    /// Half-precision floating point.
    fp16,
    /// Scalable vector extension.
    sve,
    /// CRC32 instructions.
    crc,
    /// Large system extension: atomics.
    lse,
    /// Large system extension 2.
    lse2,
    /// Rounding doubling multiply accumulate.
    rdm,
    /// Release-consistent processor-consistent loads.
    rcpc,
    /// Further release-consistent loads and stores.
    rcpc2,
    /// Dot product.
    dotprod,
    /// Transactional memory.
    tme,
    /// Half-precision fused multiply-add long.
    fhm,
    /// Condition flag manipulation.
    flagm,
    /// Data cache clean to the point of persistence.
    dpb,
    /// Address authentication.
    paca,
    /// Generic authentication.
    pacg,
    /// Random number generator.
    rand,
    /// AES instructions.
    aes,
    /// SHA1 and SHA256 instructions.
    sha2,
    /// SHA512 and SHA3 instructions.
    sha3,
    /// SM3 and SM4 instructions.
    sm4,
}

/// The number of features; their bit indices lie below it.
pub const FEATURE_COUNT: u32 = 23;

impl Feature {
    /// The bit index that stands for this feature in a bitmask.
    pub open spec fn ordinal(self) -> nat {
        match self {
            Feature::asimd => 0,
            Feature::pmull => 1,
            Feature::fp => 2,
            Feature::fp16 => 3,
            Feature::sve => 4,
            Feature::crc => 5,
            Feature::lse => 6,
            Feature::lse2 => 7,
            Feature::rdm => 8,
            Feature::rcpc => 9,
            Feature::rcpc2 => 10,
            Feature::dotprod => 11,
            Feature::tme => 12,
            Feature::fhm => 13,
            Feature::flagm => 14,
            Feature::dpb => 15,
            Feature::paca => 16,
            Feature::pacg => 17,
            Feature::rand => 18,
            Feature::aes => 19,
            Feature::sha2 => 20,
            Feature::sha3 => 21,
            Feature::sm4 => 22,
        }
    }

    /// The feature that a bit index stands for, if it stands for one.
    pub open spec fn from_ordinal(i: nat) -> Option<Feature> {
        if i == 0 {
            Some(Feature::asimd)
        } else if i == 1 {
            Some(Feature::pmull)
        } else if i == 2 {
            Some(Feature::fp)
        } else if i == 3 {
            Some(Feature::fp16)
        } else if i == 4 {
            Some(Feature::sve)
        } else if i == 5 {
            Some(Feature::crc)
        } else if i == 6 {
            Some(Feature::lse)
        } else if i == 7 {
            Some(Feature::lse2)
        } else if i == 8 {
            Some(Feature::rdm)
        } else if i == 9 {
            Some(Feature::rcpc)
        } else if i == 10 {
            Some(Feature::rcpc2)
        } else if i == 11 {
            Some(Feature::dotprod)
        } else if i == 12 {
            Some(Feature::tme)
        } else if i == 13 {
            Some(Feature::fhm)
        } else if i == 14 {
            Some(Feature::flagm)
        } else if i == 15 {
            Some(Feature::dpb)
        } else if i == 16 {
            Some(Feature::paca)
        } else if i == 17 {
            Some(Feature::pacg)
        } else if i == 18 {
            Some(Feature::rand)
        } else if i == 19 {
            Some(Feature::aes)
        } else if i == 20 {
            Some(Feature::sha2)
        } else if i == 21 {
            Some(Feature::sha3)
        } else if i == 22 {
            Some(Feature::sm4)
        } else {
            None
        }
    }

    /// The bit index of this feature.
    pub fn index(self) -> (i: u32)
        ensures
            i == self.ordinal(),
            i < CAPACITY,
    {
        match self {
            Feature::asimd => 0,
            Feature::pmull => 1,
            Feature::fp => 2,
            Feature::fp16 => 3,
            Feature::sve => 4,
            Feature::crc => 5,
            Feature::lse => 6,
            Feature::lse2 => 7,
            Feature::rdm => 8,
            Feature::rcpc => 9,
            Feature::rcpc2 => 10,
            Feature::dotprod => 11,
            Feature::tme => 12,
            Feature::fhm => 13,
            Feature::flagm => 14,
            Feature::dpb => 15,
            Feature::paca => 16,
            Feature::pacg => 17,
            Feature::rand => 18,
            Feature::aes => 19,
            Feature::sha2 => 20,
            Feature::sha3 => 21,
            Feature::sm4 => 22,
        }
    }

    /// The feature with bit index `i`, if there is one.
    pub fn from_index(i: u32) -> (found: Option<Feature>)
        ensures
            found == Feature::from_ordinal(i as nat),
    {
        if i == 0 {
            Some(Feature::asimd)
        } else if i == 1 {
            Some(Feature::pmull)
        } else if i == 2 {
            Some(Feature::fp)
        } else if i == 3 {
            Some(Feature::fp16)
        } else if i == 4 {
            Some(Feature::sve)
        } else if i == 5 {
            Some(Feature::crc)
        } else if i == 6 {
            Some(Feature::lse)
        } else if i == 7 {
            Some(Feature::lse2)
        } else if i == 8 {
            Some(Feature::rdm)
        } else if i == 9 {
            Some(Feature::rcpc)
        } else if i == 10 {
            Some(Feature::rcpc2)
        } else if i == 11 {
            Some(Feature::dotprod)
        } else if i == 12 {
            Some(Feature::tme)
        } else if i == 13 {
            Some(Feature::fhm)
        } else if i == 14 {
            Some(Feature::flagm)
        } else if i == 15 {
            Some(Feature::dpb)
        } else if i == 16 {
            Some(Feature::paca)
        } else if i == 17 {
            Some(Feature::pacg)
        } else if i == 18 {
            Some(Feature::rand)
        } else if i == 19 {
            Some(Feature::aes)
        } else if i == 20 {
            Some(Feature::sha2)
        } else if i == 21 {
            Some(Feature::sha3)
        } else if i == 22 {
            Some(Feature::sm4)
        } else {
            None
        }
    }

    /// Every feature has a bit index of its own, below the capacity of a
    /// bitmask, and `from_ordinal` finds the feature again from it.
    pub proof fn lemma_ordinal_round_trip(self)
        ensures
            Feature::from_ordinal(self.ordinal()) == Some(self),
            self.ordinal() < FEATURE_COUNT <= CAPACITY,
    {
    }

    /// A bit index stands for at most one feature.
    pub proof fn lemma_from_ordinal_sound(i: nat)
        ensures
            match Feature::from_ordinal(i) {
                Some(feature) => feature.ordinal() == i,
                None => true,
            },
    {
    }
}

/// The field of `x` that spans bits `low` to `high`, both included.
pub open spec fn bits_shift_spec(x: u64, high: u64, low: u64) -> u64 {
    (x >> low) & (((1u64 << ((high - low + 1) as u64)) - 1) as u64)
}

proof fn lemma_one_shifted_is_positive(n: u64)
    by (bit_vector)
    requires
        n < 64,
    ensures
        (1u64 << n) >= 1,
{
}

/// Extracts the field of `x` that spans bits `low` to `high`, both included.
pub fn bits_shift(x: u64, high: u64, low: u64) -> (field: u64)
    requires
        low <= high < 64,
        high - low < 63,
    ensures
        field == bits_shift_spec(x, high, low),
{
    let width: u64 = high - low + 1;
    proof {
        lemma_one_shifted_is_positive(width);
    }
    (x >> low) & ((1u64 << width) - 1)
}

/// Whether the ID register values `aa64isar0`, `aa64isar1`, `aa64mmfr2` and,
/// where it was read, `aa64pfr0` show that `feature` is usable.
///
/// The features that need Advanced SIMD are reported only when the processor
/// feature register was read and shows it.
pub open spec fn registers_enable(
    aa64isar0: u64,
    aa64isar1: u64,
    aa64mmfr2: u64,
    aa64pfr0: Option<u64>,
    feature: Feature,
) -> bool {
    let simd = match aa64pfr0 {
        Some(pfr0) => bits_shift_spec(pfr0, 23, 20) < 0xF,
        None => false,
    };
    match feature {
        Feature::pmull => bits_shift_spec(aa64isar0, 7, 4) >= 2,
        Feature::tme => bits_shift_spec(aa64isar0, 27, 24) == 1,
        Feature::lse => bits_shift_spec(aa64isar0, 23, 20) >= 2,
        Feature::crc => bits_shift_spec(aa64isar0, 19, 16) >= 1,
        Feature::fp => match aa64pfr0 {
            Some(pfr0) => bits_shift_spec(pfr0, 19, 16) < 0xF,
            None => false,
        },
        Feature::fp16 => match aa64pfr0 {
            Some(pfr0) => bits_shift_spec(pfr0, 19, 16) >= 1,
            None => false,
        },
        Feature::asimd => match aa64pfr0 {
            Some(pfr0) => bits_shift_spec(pfr0, 19, 16) < 0xF && simd && (!(bits_shift_spec(
                pfr0,
                19,
                16,
            ) >= 1) || bits_shift_spec(pfr0, 23, 20) >= 1),
            None => false,
        },
        Feature::aes => simd && bits_shift_spec(aa64isar0, 7, 4) >= 2,
        Feature::sha2 => simd && bits_shift_spec(aa64isar0, 11, 8) >= 1 && bits_shift_spec(
            aa64isar0,
            15,
            12,
        ) >= 1,
        Feature::rdm => simd && bits_shift_spec(aa64isar0, 31, 28) >= 2,
        Feature::dotprod => simd && bits_shift_spec(aa64isar0, 47, 44) >= 1,
        Feature::sve => match aa64pfr0 {
            Some(pfr0) => simd && bits_shift_spec(pfr0, 35, 32) >= 1,
            None => false,
        },
        Feature::paca => bits_shift_spec(aa64isar1, 11, 4) >= 1,
        Feature::rcpc => bits_shift_spec(aa64isar1, 23, 20) >= 1,
        Feature::rcpc2 => bits_shift_spec(aa64isar1, 23, 20) >= 2,
        Feature::pacg => bits_shift_spec(aa64isar1, 31, 24) >= 1,
        Feature::lse2 => bits_shift_spec(aa64mmfr2, 35, 32) >= 1,
        _ => false,
    }
}

/// The bit indices of the features that the register values show.
pub open spec fn parsed_features(
    aa64isar0: u64,
    aa64isar1: u64,
    aa64mmfr2: u64,
    aa64pfr0: Option<u64>,
) -> Set<nat> {
    Set::new(
        |i: nat|
            match Feature::from_ordinal(i) {
                Some(feature) => registers_enable(aa64isar0, aa64isar1, aa64mmfr2, aa64pfr0, feature),
                None => false,
            },
    )
}

/// Only bit indices that stand for a feature are ever reported.
pub proof fn lemma_only_features(
    aa64isar0: u64,
    aa64isar1: u64,
    aa64mmfr2: u64,
    aa64pfr0: Option<u64>,
    i: nat,
)
    requires
        parsed_features(aa64isar0, aa64isar1, aa64mmfr2, aa64pfr0).contains(i),
    ensures
        Feature::from_ordinal(i) is Some,
        i < FEATURE_COUNT,
{
}

/// Decides whether the register values show that `feature` is usable.
pub fn feature_in_registers(
    aa64isar0: u64,
    aa64isar1: u64,
    aa64mmfr2: u64,
    aa64pfr0: Option<u64>,
    feature: Feature,
) -> (enabled: bool)
    ensures
        enabled == registers_enable(aa64isar0, aa64isar1, aa64mmfr2, aa64pfr0, feature),
{
    match aa64pfr0 {
        Some(pfr0) => {
            let fp = bits_shift(pfr0, 19, 16) < 0xF;
            let fphp = bits_shift(pfr0, 19, 16) >= 1;
            let asimd = bits_shift(pfr0, 23, 20) < 0xF;
            let asimdhp = bits_shift(pfr0, 23, 20) >= 1;
            match feature {
                Feature::fp => fp,
                Feature::fp16 => fphp,
                // SIMD needs floating point, and half-precision SIMD wherever
                // half-precision floating point is there.
                Feature::asimd => fp && asimd && (!fphp || asimdhp),
                // The SIMD extensions need SIMD.
                Feature::aes => asimd && bits_shift(aa64isar0, 7, 4) >= 2,
                Feature::sha2 => asimd && bits_shift(aa64isar0, 11, 8) >= 1 && bits_shift(
                    aa64isar0,
                    15,
                    12,
                ) >= 1,
                Feature::rdm => asimd && bits_shift(aa64isar0, 31, 28) >= 2,
                Feature::dotprod => asimd && bits_shift(aa64isar0, 47, 44) >= 1,
                Feature::sve => asimd && bits_shift(pfr0, 35, 32) >= 1,
                _ => feature_in_id_registers(aa64isar0, aa64isar1, aa64mmfr2, feature),
            }
        },
        None => feature_in_id_registers(aa64isar0, aa64isar1, aa64mmfr2, feature),
    }
}

/// The part of the decision that does not need the processor feature register.
fn feature_in_id_registers(aa64isar0: u64, aa64isar1: u64, aa64mmfr2: u64, feature: Feature) -> (enabled:
    bool)
    ensures
        enabled == registers_enable(aa64isar0, aa64isar1, aa64mmfr2, None, feature),
{
    match feature {
        Feature::pmull => bits_shift(aa64isar0, 7, 4) >= 2,
        Feature::tme => bits_shift(aa64isar0, 27, 24) == 1,
        Feature::lse => bits_shift(aa64isar0, 23, 20) >= 2,
        Feature::crc => bits_shift(aa64isar0, 19, 16) >= 1,
        // Either of the two address authentication fields counts.
        Feature::paca => bits_shift(aa64isar1, 11, 4) >= 1,
        Feature::rcpc => bits_shift(aa64isar1, 23, 20) >= 1,
        Feature::rcpc2 => bits_shift(aa64isar1, 23, 20) >= 2,
        // Either of the two generic authentication fields counts.
        Feature::pacg => bits_shift(aa64isar1, 31, 24) >= 1,
        Feature::lse2 => bits_shift(aa64mmfr2, 35, 32) >= 1,
        _ => false,
    }
}

/// Translates the values of the ID registers into a bitmask of features.
pub fn parse_system_registers(
    aa64isar0: u64,
    aa64isar1: u64,
    aa64mmfr2: u64,
    aa64pfr0: Option<u64>,
) -> (value: Initializer)
    ensures
        value@ == parsed_features(aa64isar0, aa64isar1, aa64mmfr2, aa64pfr0),
{
    let mut value = Initializer::default();
    let mut k: u32 = 0;
    while k < FEATURE_COUNT
        invariant
            k <= FEATURE_COUNT,
            forall|i: nat|
                #[trigger] value@.contains(i) == (i < k && parsed_features(
                    aa64isar0,
                    aa64isar1,
                    aa64mmfr2,
                    aa64pfr0,
                ).contains(i)),
        decreases FEATURE_COUNT - k,
    {
        if let Some(feature) = Feature::from_index(k) {
            let enabled = feature_in_registers(aa64isar0, aa64isar1, aa64mmfr2, aa64pfr0, feature);
            enable_feature(&mut value, k, enabled);
        }
        k += 1;
    }
    proof {
        assert(value@ =~= parsed_features(aa64isar0, aa64isar1, aa64mmfr2, aa64pfr0));
    }
    value
}

} // verus!
