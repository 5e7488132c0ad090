use crate::cache::Initializer;
use crate::powerpc::Feature;
use vstd::prelude::*;

verus! {

/// The sub-architecture that the library is built for.
#[derive(Clone, Copy, Debug, PartialEq, Eq, Structural)]
pub enum PowerPcArch {
    /// 32 bit.
    PowerPc,
    /// 64 bit.
    PowerPc64,
}

/// Second part of the key of the parameter that tells whether AltiVec is
/// there, on a 64-bit build.
pub const CPU_ALTIVEC_POWERPC64: i32 = 1;

/// The same on a 32-bit build.
pub const CPU_ALTIVEC_POWERPC: i32 = 2;

/// The number of bytes of an integer-valued parameter.
pub const INT_LEN: usize = 4;

/// The key, below the machine-dependent level, of the parameter that tells
/// whether AltiVec is there.
pub fn cpu_altivec(arch: PowerPcArch) -> (key: i32)
    ensures
        key == match arch {
            PowerPcArch::PowerPc64 => CPU_ALTIVEC_POWERPC64,
            PowerPcArch::PowerPc => CPU_ALTIVEC_POWERPC,
        },
{
    match arch {
        PowerPcArch::PowerPc64 => CPU_ALTIVEC_POWERPC64,
        PowerPcArch::PowerPc => CPU_ALTIVEC_POWERPC,
    }
}

/// What a read of an integer-valued parameter gave: the integer it wrote,
/// unless it returned -1 or wrote another number of bytes than an integer has.
pub open spec fn sysctl_int_spec(res: i32, out_len: usize, out: i32) -> Option<i32> {
    if res == -1 || out_len != INT_LEN {
        None
    } else {
        Some(out)
    }
}

/// The value that a read of an integer-valued parameter gave, where it
/// succeeded: `res` is what the read returned, `out_len` the number of
/// bytes it wrote and `out` the integer it wrote. A read that returned -1
/// or wrote another number of bytes than an integer has gave nothing.
pub fn sysctl_int(res: i32, out_len: usize, out: i32) -> (value: Option<i32>)
    ensures
        value == sysctl_int_spec(res, out_len, out),
{
    if res == -1 || out_len != INT_LEN {
        return None;
    }
    Some(out)
}

/// The bit indices of the features that the parameter's value shows:
/// AltiVec where it is exactly 1, nothing otherwise.
pub open spec fn altivec_features(altivec: Option<i32>) -> Set<nat> {
    if altivec == Some(1i32) {
        Set::<nat>::empty().insert(Feature::altivec.ordinal())
    } else {
        Set::empty()
    }
}

/// Translates the value of the AltiVec parameter, as far as it could be
/// read, into a bitmask of features.
pub fn detect_features(altivec: Option<i32>) -> (value: Initializer)
    ensures
        value@ == altivec_features(altivec),
{
    let mut value = Initializer::default();
    let enable = match altivec {
        Some(v) => v == 1,
        None => false,
    };
    if enable {
        value.set(Feature::altivec.index());
    }
    value
}

/// AltiVec is reported exactly when the parameter could be read and is 1,
/// and nothing else is ever reported.
pub proof fn lemma_altivec_only_on_one(altivec: Option<i32>, i: nat)
    ensures
        altivec_features(altivec).contains(i) <==> (altivec == Some(1i32) && i
            == Feature::altivec.ordinal()),
{
}

/// A read that failed or wrote the wrong number of bytes reports nothing.
pub proof fn lemma_failed_read_is_empty(res: i32, out_len: usize, out: i32)
    requires
        res == -1 || out_len != INT_LEN,
    ensures
        altivec_features(sysctl_int_spec(res, out_len, out)) == Set::<nat>::empty(),
{
}

/// The probe of a target for which there is no other: it reports nothing.
pub fn default_features() -> (value: Initializer)
    ensures
        value@ == Set::<nat>::empty(),
{
    Initializer::default()
}

} // verus!
