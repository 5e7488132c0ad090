use crate::bit;
use crate::cache::{enable_feature, Initializer};
use crate::riscv::{Feature, FEATURE_COUNT};
use vstd::prelude::*;

verus! {

/// Bit of the hardware-capability word for the atomic extension, letter `a`.
pub const HWCAP_ISA_A: u32 = 0;

/// Bit for the compressed extension, letter `c`.
pub const HWCAP_ISA_C: u32 = 2;

/// Bit for double-precision floating point, letter `d`.
pub const HWCAP_ISA_D: u32 = 3;

/// Bit for single-precision floating point, letter `f`.
pub const HWCAP_ISA_F: u32 = 5;

/// Bit for the base integer instruction set, letter `i`.
pub const HWCAP_ISA_I: u32 = 8;

/// Bit for integer multiplication and division, letter `m`.
pub const HWCAP_ISA_M: u32 = 12;

/// What the probe reads of the auxiliary vector.
#[derive(Clone, Copy, Debug, PartialEq, Eq, Structural)]
pub struct AuxVec {
    /// The hardware-capability word.
    pub hwcap: u64,
}

/// The width of a pointer on the target, which selects the variant of the
/// base integer instruction set.
#[derive(Clone, Copy, Debug, PartialEq, Eq, Structural)]
pub enum PointerWidth {
    Bits32,
    Bits64,
}

/// Whether the capability word `hwcap` shows `feature` on a target with
/// pointers of the given width. Double precision brings single precision
/// with it, and both bring the control and status registers.
pub open spec fn hwcap_enables(hwcap: u64, width: PointerWidth, feature: Feature) -> bool {
    match feature {
        Feature::a => bit::bit_is_set(hwcap, HWCAP_ISA_A),
        Feature::c => bit::bit_is_set(hwcap, HWCAP_ISA_C),
        Feature::d => bit::bit_is_set(hwcap, HWCAP_ISA_D),
        Feature::f => bit::bit_is_set(hwcap, HWCAP_ISA_D) || bit::bit_is_set(hwcap, HWCAP_ISA_F),
        Feature::zicsr => bit::bit_is_set(hwcap, HWCAP_ISA_D) || bit::bit_is_set(
            hwcap,
            HWCAP_ISA_F,
        ),
        Feature::rv32i => width == PointerWidth::Bits32 && bit::bit_is_set(hwcap, HWCAP_ISA_I),
        Feature::rv64i => width == PointerWidth::Bits64 && bit::bit_is_set(hwcap, HWCAP_ISA_I),
        Feature::m => bit::bit_is_set(hwcap, HWCAP_ISA_M),
    }
}

/// The bit indices of the features that the auxiliary vector shows; none
/// where there is no auxiliary vector.
pub open spec fn auxv_features(auxv: Option<AuxVec>, width: PointerWidth) -> Set<nat> {
    match auxv {
        Some(auxv) => Set::new(
            |i: nat|
                match Feature::from_ordinal(i) {
                    Some(feature) => hwcap_enables(auxv.hwcap, width, feature),
                    None => false,
                },
        ),
        None => Set::empty(),
    }
}

/// Decides whether the capability word shows `feature`.
pub fn feature_in_hwcap(hwcap: u64, width: PointerWidth, feature: Feature) -> (enabled: bool)
    ensures
        enabled == hwcap_enables(hwcap, width, feature),
{
    match feature {
        Feature::a => bit::test(hwcap, HWCAP_ISA_A),
        Feature::c => bit::test(hwcap, HWCAP_ISA_C),
        Feature::d => bit::test(hwcap, HWCAP_ISA_D),
        Feature::f | Feature::zicsr => bit::test(hwcap, HWCAP_ISA_D) || bit::test(
            hwcap,
            HWCAP_ISA_F,
        ),
        Feature::rv32i => match width {
            PointerWidth::Bits32 => bit::test(hwcap, HWCAP_ISA_I),
            PointerWidth::Bits64 => false,
        },
        Feature::rv64i => match width {
            PointerWidth::Bits32 => false,
            PointerWidth::Bits64 => bit::test(hwcap, HWCAP_ISA_I),
        },
        Feature::m => bit::test(hwcap, HWCAP_ISA_M),
    }
}

/// Translates the auxiliary vector, as far as it could be read, into a
/// bitmask of features.
pub fn detect_features(auxv: Option<AuxVec>, width: PointerWidth) -> (value: Initializer)
    ensures
        value@ == auxv_features(auxv, width),
{
    let mut value = Initializer::default();
    if let Some(auxv) = auxv {
        let mut k: u32 = 0;
        while k < FEATURE_COUNT
            invariant
                k <= FEATURE_COUNT,
                forall|i: nat|
                    #[trigger] value@.contains(i) == (i < k && auxv_features(
                        Some(auxv),
                        width,
                    ).contains(i)),
            decreases FEATURE_COUNT - k,
        {
            if let Some(feature) = Feature::from_index(k) {
                let enabled = feature_in_hwcap(auxv.hwcap, width, feature);
                enable_feature(&mut value, k, enabled);
            }
            k += 1;
        }
        proof {
            assert(value@ =~= auxv_features(Some(auxv), width));
        }
    }
    value
}

/// A set double-precision bit reports `d`, `f` and `zicsr`; a set
/// single-precision bit reports `f` and `zicsr`, and `d` only if the
/// double-precision bit is set as well.
pub proof fn lemma_float_features(auxv: AuxVec, width: PointerWidth)
    ensures
        bit::bit_is_set(auxv.hwcap, HWCAP_ISA_D) ==> {
            &&& auxv_features(Some(auxv), width).contains(Feature::d.ordinal())
            &&& auxv_features(Some(auxv), width).contains(Feature::f.ordinal())
            &&& auxv_features(Some(auxv), width).contains(Feature::zicsr.ordinal())
        },
        bit::bit_is_set(auxv.hwcap, HWCAP_ISA_F) ==> {
            &&& auxv_features(Some(auxv), width).contains(Feature::f.ordinal())
            &&& auxv_features(Some(auxv), width).contains(Feature::zicsr.ordinal())
        },
        !bit::bit_is_set(auxv.hwcap, HWCAP_ISA_D) ==> !auxv_features(Some(auxv), width).contains(
            Feature::d.ordinal(),
        ),
{
}

/// Without an auxiliary vector nothing is reported.
pub proof fn lemma_no_auxv_is_empty(width: PointerWidth)
    ensures
        auxv_features(None, width) == Set::<nat>::empty(),
{
}

/// Only bit indices that stand for a feature are ever reported.
pub proof fn lemma_only_features(auxv: Option<AuxVec>, width: PointerWidth, i: nat)
    requires
        auxv_features(auxv, width).contains(i),
    ensures
        Feature::from_ordinal(i) is Some,
        i < FEATURE_COUNT,
{
}

/// The two variants of the base integer instruction set are never reported together.
pub proof fn lemma_one_base_variant(auxv: Option<AuxVec>, width: PointerWidth)
    ensures
        !(auxv_features(auxv, width).contains(Feature::rv32i.ordinal()) && auxv_features(
            auxv,
            width,
        ).contains(Feature::rv64i.ordinal())),
{
}

} // verus!
