use crate::aarch64::{Feature, FEATURE_COUNT};
use crate::cache::{enable_feature, Initializer};
use vstd::prelude::*;

verus! {

/// The status that reports success.
pub const ZX_OK: i32 = 0;

/// The kind of features to ask the system for: those of the CPU.
pub const ZX_FEATURE_KIND_CPU: u32 = 0;

pub const ZX_ARM64_FEATURE_ISA_FP: u32 = 0x0000_0002;

pub const ZX_ARM64_FEATURE_ISA_ASIMD: u32 = 0x0000_0004;

pub const ZX_ARM64_FEATURE_ISA_AES: u32 = 0x0000_0008;

pub const ZX_ARM64_FEATURE_ISA_PMULL: u32 = 0x0000_0010;

pub const ZX_ARM64_FEATURE_ISA_SHA1: u32 = 0x0000_0020;

pub const ZX_ARM64_FEATURE_ISA_SHA256: u32 = 0x0000_0040;

pub const ZX_ARM64_FEATURE_ISA_CRC32: u32 = 0x0000_0080;

pub const ZX_ARM64_FEATURE_ISA_ATOMICS: u32 = 0x0000_0100;

pub const ZX_ARM64_FEATURE_ISA_RDM: u32 = 0x0000_0200;

pub const ZX_ARM64_FEATURE_ISA_SHA3: u32 = 0x0000_0400;

pub const ZX_ARM64_FEATURE_ISA_SM3: u32 = 0x0000_0800;

pub const ZX_ARM64_FEATURE_ISA_SM4: u32 = 0x0000_1000;

pub const ZX_ARM64_FEATURE_ISA_DP: u32 = 0x0000_2000;

pub const ZX_ARM64_FEATURE_ISA_DPB: u32 = 0x0000_4000;

pub const ZX_ARM64_FEATURE_ISA_FHM: u32 = 0x0000_8000;

pub const ZX_ARM64_FEATURE_ISA_TS: u32 = 0x0001_0000;

pub const ZX_ARM64_FEATURE_ISA_RNDR: u32 = 0x0002_0000;

pub const ZX_ARM64_FEATURE_ISA_SHA512: u32 = 0x0004_0000;

/// Whether the flag `flag` is set in the word `features`.
pub open spec fn has_flag(features: u32, flag: u32) -> bool {
    features & flag != 0
}

/// Whether the flag word `features` shows `feature`. A feature that
/// stands for several flags is shown only where all of them are set.
pub open spec fn flags_enable(features: u32, feature: Feature) -> bool {
    match feature {
        Feature::fp => has_flag(features, ZX_ARM64_FEATURE_ISA_FP),
        Feature::asimd => has_flag(features, ZX_ARM64_FEATURE_ISA_ASIMD),
        Feature::pmull => has_flag(features, ZX_ARM64_FEATURE_ISA_PMULL),
        Feature::crc => has_flag(features, ZX_ARM64_FEATURE_ISA_CRC32),
        Feature::lse => has_flag(features, ZX_ARM64_FEATURE_ISA_ATOMICS),
        Feature::rdm => has_flag(features, ZX_ARM64_FEATURE_ISA_RDM),
        Feature::dotprod => has_flag(features, ZX_ARM64_FEATURE_ISA_DP),
        Feature::dpb => has_flag(features, ZX_ARM64_FEATURE_ISA_DPB),
        Feature::fhm => has_flag(features, ZX_ARM64_FEATURE_ISA_FHM),
        Feature::flagm => has_flag(features, ZX_ARM64_FEATURE_ISA_TS),
        Feature::rand => has_flag(features, ZX_ARM64_FEATURE_ISA_RNDR),
        Feature::aes => has_flag(features, ZX_ARM64_FEATURE_ISA_AES),
        Feature::sha2 => {
            &&& has_flag(features, ZX_ARM64_FEATURE_ISA_SHA1)
            &&& has_flag(features, ZX_ARM64_FEATURE_ISA_SHA256)
        },
        Feature::sha3 => {
            &&& has_flag(features, ZX_ARM64_FEATURE_ISA_SHA1)
            &&& has_flag(features, ZX_ARM64_FEATURE_ISA_SHA256)
            &&& has_flag(features, ZX_ARM64_FEATURE_ISA_SHA512)
            &&& has_flag(features, ZX_ARM64_FEATURE_ISA_SHA3)
        },
        Feature::sm4 => {
            &&& has_flag(features, ZX_ARM64_FEATURE_ISA_SM3)
            &&& has_flag(features, ZX_ARM64_FEATURE_ISA_SM4)
        },
        _ => false,
    }
}

/// The bit indices of the features that a status call shows which came
/// back with `status` and the flag word `features`; none where the status
/// is not success.
pub open spec fn status_features(status: i32, features: u32) -> Set<nat> {
    if status == ZX_OK {
        Set::new(
            |i: nat|
                match Feature::from_ordinal(i) {
                    Some(feature) => flags_enable(features, feature),
                    None => false,
                },
        )
    } else {
        Set::empty()
    }
}

/// Tests the flag `flag` in the word `features`.
pub fn flag_set(features: u32, flag: u32) -> (set: bool)
    ensures
        set == has_flag(features, flag),
{
    features & flag != 0
}

/// Decides whether the flag word shows `feature`.
pub fn feature_in_flags(features: u32, feature: Feature) -> (enabled: bool)
    ensures
        enabled == flags_enable(features, feature),
{
    let sha1 = flag_set(features, ZX_ARM64_FEATURE_ISA_SHA1);
    let sha2 = flag_set(features, ZX_ARM64_FEATURE_ISA_SHA256);
    match feature {
        Feature::fp => flag_set(features, ZX_ARM64_FEATURE_ISA_FP),
        Feature::asimd => flag_set(features, ZX_ARM64_FEATURE_ISA_ASIMD),
        Feature::pmull => flag_set(features, ZX_ARM64_FEATURE_ISA_PMULL),
        Feature::crc => flag_set(features, ZX_ARM64_FEATURE_ISA_CRC32),
        Feature::lse => flag_set(features, ZX_ARM64_FEATURE_ISA_ATOMICS),
        Feature::rdm => flag_set(features, ZX_ARM64_FEATURE_ISA_RDM),
        Feature::dotprod => flag_set(features, ZX_ARM64_FEATURE_ISA_DP),
        Feature::dpb => flag_set(features, ZX_ARM64_FEATURE_ISA_DPB),
        Feature::fhm => flag_set(features, ZX_ARM64_FEATURE_ISA_FHM),
        Feature::flagm => flag_set(features, ZX_ARM64_FEATURE_ISA_TS),
        Feature::rand => flag_set(features, ZX_ARM64_FEATURE_ISA_RNDR),
        Feature::aes => flag_set(features, ZX_ARM64_FEATURE_ISA_AES),
        Feature::sha2 => sha1 && sha2,
        Feature::sha3 => {
            let sha512 = flag_set(features, ZX_ARM64_FEATURE_ISA_SHA512);
            let sha3 = flag_set(features, ZX_ARM64_FEATURE_ISA_SHA3);
            sha1 && sha2 && sha512 && sha3
        },
        Feature::sm4 => {
            let sm3 = flag_set(features, ZX_ARM64_FEATURE_ISA_SM3);
            let sm4 = flag_set(features, ZX_ARM64_FEATURE_ISA_SM4);
            sm3 && sm4
        },
        _ => false,
    }
}

/// Translates what the status call for the CPU's features gave back, its
/// status and its flag word, into a bitmask of features.
pub fn detect_features(status: i32, features: u32) -> (value: Initializer)
    ensures
        value@ == status_features(status, features),
{
    let mut value = Initializer::default();
    if status != ZX_OK {
        return value;
    }
    let mut k: u32 = 0;
    while k < FEATURE_COUNT
        invariant
            status == ZX_OK,
            k <= FEATURE_COUNT,
            forall|i: nat|
                #[trigger] value@.contains(i) == (i < k && status_features(status, features).contains(
                    i,
                )),
        decreases FEATURE_COUNT - k,
    {
        if let Some(feature) = Feature::from_index(k) {
            let enabled = feature_in_flags(features, feature);
            enable_feature(&mut value, k, enabled);
        }
        k += 1;
    }
    proof {
        assert(value@ =~= status_features(status, features));
    }
    value
}

/// A feature that stands for several flags is reported exactly when all of
/// them are set: `sha2` needs SHA1 and SHA256, `sha3` needs those two with
/// SHA512 and SHA3, and `sm4` needs SM3 and SM4.
pub proof fn lemma_composite_features(features: u32)
    ensures
        status_features(ZX_OK, features).contains(Feature::sha2.ordinal()) <==> (has_flag(
            features,
            ZX_ARM64_FEATURE_ISA_SHA1,
        ) && has_flag(features, ZX_ARM64_FEATURE_ISA_SHA256)),
        status_features(ZX_OK, features).contains(Feature::sha3.ordinal()) <==> (has_flag(
            features,
            ZX_ARM64_FEATURE_ISA_SHA1,
        ) && has_flag(features, ZX_ARM64_FEATURE_ISA_SHA256) && has_flag(
            features,
            ZX_ARM64_FEATURE_ISA_SHA512,
        ) && has_flag(features, ZX_ARM64_FEATURE_ISA_SHA3)),
        status_features(ZX_OK, features).contains(Feature::sm4.ordinal()) <==> (has_flag(
            features,
            ZX_ARM64_FEATURE_ISA_SM3,
        ) && has_flag(features, ZX_ARM64_FEATURE_ISA_SM4)),
{
}

/// Only bit indices that stand for a feature are ever reported.
pub proof fn lemma_only_features(status: i32, features: u32, i: nat)
    requires
        status_features(status, features).contains(i),
    ensures
        Feature::from_ordinal(i) is Some,
        i < FEATURE_COUNT,
{
}

/// A status call that did not succeed reports no feature, whatever its flag word holds.
pub proof fn lemma_failed_status_is_empty(status: i32, features: u32)
    requires
        status != ZX_OK,
    ensures
        status_features(status, features) == Set::<nat>::empty(),
{
}

} // verus!
