use cpu_features::aarch64;
use cpu_features::bit;
use cpu_features::cache::Initializer;
use cpu_features::dispatch::{select_probe, Arch, Os, ProbeKind};
use cpu_features::freebsd::{self, AuxVec, PointerWidth};
use cpu_features::fuchsia;
use cpu_features::openbsd::{self, PowerPcArch};
use cpu_features::powerpc;
use cpu_features::riscv;

fn has_riscv(value: &Initializer, feature: riscv::Feature) -> bool {
    value.test(feature.index())
}

fn has_aarch64(value: &Initializer, feature: aarch64::Feature) -> bool {
    value.test(feature.index())
}

#[test]
fn bit_test_reads_single_bits() {
    assert!(bit::test(0b1000, 3));
    assert!(!bit::test(0b1000, 2));
    assert!(bit::test(1 << 63, 63));
    assert!(!bit::test(0, 0));
}

#[test]
fn feature_indices_are_distinct_and_round_trip() {
    for i in 0..aarch64::FEATURE_COUNT {
        let feature = aarch64::Feature::from_index(i).unwrap();
        assert_eq!(feature.index(), i);
    }
    assert_eq!(aarch64::Feature::from_index(aarch64::FEATURE_COUNT), None);
    for i in 0..riscv::FEATURE_COUNT {
        assert_eq!(riscv::Feature::from_index(i).unwrap().index(), i);
    }
    assert_eq!(riscv::Feature::from_index(riscv::FEATURE_COUNT), None);
    for i in 0..powerpc::FEATURE_COUNT {
        assert_eq!(powerpc::Feature::from_index(i).unwrap().index(), i);
    }
    assert_eq!(powerpc::Feature::from_index(powerpc::FEATURE_COUNT), None);
}

#[test]
fn riscv_without_auxv_is_empty() {
    assert_eq!(freebsd::detect_features(None, PointerWidth::Bits64), Initializer::default());
    assert_eq!(freebsd::detect_features(None, PointerWidth::Bits32), Initializer::default());
}

#[test]
fn riscv_no_bits_is_empty() {
    let auxv = AuxVec { hwcap: 0 };
    assert_eq!(freebsd::detect_features(Some(auxv), PointerWidth::Bits64), Initializer::default());
}

#[test]
fn riscv_d_implies_d_f_zicsr() {
    let auxv = AuxVec { hwcap: 1 << 3 };
    let value = freebsd::detect_features(Some(auxv), PointerWidth::Bits64);
    assert!(has_riscv(&value, riscv::Feature::d));
    assert!(has_riscv(&value, riscv::Feature::f));
    assert!(has_riscv(&value, riscv::Feature::zicsr));
    assert!(!has_riscv(&value, riscv::Feature::a));
    assert!(!has_riscv(&value, riscv::Feature::c));
    assert!(!has_riscv(&value, riscv::Feature::m));
    assert!(!has_riscv(&value, riscv::Feature::rv64i));
}

#[test]
fn riscv_f_alone_implies_f_zicsr_not_d() {
    let auxv = AuxVec { hwcap: 1 << 5 };
    let value = freebsd::detect_features(Some(auxv), PointerWidth::Bits64);
    assert!(has_riscv(&value, riscv::Feature::f));
    assert!(has_riscv(&value, riscv::Feature::zicsr));
    assert!(!has_riscv(&value, riscv::Feature::d));
}

#[test]
fn riscv_single_letters() {
    let a = freebsd::detect_features(Some(AuxVec { hwcap: 1 }), PointerWidth::Bits64);
    let mut expected = Initializer::default();
    expected.set(riscv::Feature::a.index());
    assert_eq!(a, expected);
    let c = freebsd::detect_features(Some(AuxVec { hwcap: 1 << 2 }), PointerWidth::Bits64);
    let mut expected = Initializer::default();
    expected.set(riscv::Feature::c.index());
    assert_eq!(c, expected);
    let m = freebsd::detect_features(Some(AuxVec { hwcap: 1 << 12 }), PointerWidth::Bits64);
    let mut expected = Initializer::default();
    expected.set(riscv::Feature::m.index());
    assert_eq!(m, expected);
}

#[test]
fn riscv_base_follows_pointer_width() {
    let auxv = AuxVec { hwcap: 1 << 8 };
    let wide = freebsd::detect_features(Some(auxv), PointerWidth::Bits64);
    assert!(has_riscv(&wide, riscv::Feature::rv64i));
    assert!(!has_riscv(&wide, riscv::Feature::rv32i));
    let narrow = freebsd::detect_features(Some(auxv), PointerWidth::Bits32);
    assert!(has_riscv(&narrow, riscv::Feature::rv32i));
    assert!(!has_riscv(&narrow, riscv::Feature::rv64i));
}

#[test]
fn riscv_unrelated_letters_are_ignored() {
    let auxv = AuxVec { hwcap: (1 << 1) | (1 << 4) | (1 << 20) | (1 << 63) };
    assert_eq!(freebsd::detect_features(Some(auxv), PointerWidth::Bits64), Initializer::default());
}

#[test]
fn riscv_general_purpose_set() {
    let hwcap = 1 | (1 << 2) | (1 << 3) | (1 << 5) | (1 << 8) | (1 << 12);
    let value = freebsd::detect_features(Some(AuxVec { hwcap }), PointerWidth::Bits64);
    let mut expected = Initializer::default();
    for feature in [
        riscv::Feature::a,
        riscv::Feature::c,
        riscv::Feature::d,
        riscv::Feature::f,
        riscv::Feature::zicsr,
        riscv::Feature::rv64i,
        riscv::Feature::m,
    ] {
        expected.set(feature.index());
    }
    assert_eq!(value, expected);
}

#[test]
fn riscv_probe_is_repeatable() {
    let auxv = Some(AuxVec { hwcap: 0x112d });
    let first = freebsd::detect_features(auxv, PointerWidth::Bits64);
    let second = freebsd::detect_features(auxv, PointerWidth::Bits64);
    assert_eq!(first, second);
}

#[test]
fn fuchsia_failed_status_is_empty() {
    assert_eq!(fuchsia::detect_features(-1, u32::MAX), Initializer::default());
    assert_eq!(fuchsia::detect_features(1, u32::MAX), Initializer::default());
    assert_eq!(fuchsia::detect_features(-10, 1 << 1), Initializer::default());
}

#[test]
fn fuchsia_no_flags_is_empty() {
    assert_eq!(fuchsia::detect_features(fuchsia::ZX_OK, 0), Initializer::default());
}

#[test]
fn fuchsia_flag_values() {
    assert_eq!(fuchsia::ZX_ARM64_FEATURE_ISA_FP, 1 << 1);
    assert_eq!(fuchsia::ZX_ARM64_FEATURE_ISA_ASIMD, 1 << 2);
    assert_eq!(fuchsia::ZX_ARM64_FEATURE_ISA_AES, 1 << 3);
    assert_eq!(fuchsia::ZX_ARM64_FEATURE_ISA_PMULL, 1 << 4);
    assert_eq!(fuchsia::ZX_ARM64_FEATURE_ISA_SHA1, 1 << 5);
    assert_eq!(fuchsia::ZX_ARM64_FEATURE_ISA_SHA256, 1 << 6);
    assert_eq!(fuchsia::ZX_ARM64_FEATURE_ISA_CRC32, 1 << 7);
    assert_eq!(fuchsia::ZX_ARM64_FEATURE_ISA_ATOMICS, 1 << 8);
    assert_eq!(fuchsia::ZX_ARM64_FEATURE_ISA_RDM, 1 << 9);
    assert_eq!(fuchsia::ZX_ARM64_FEATURE_ISA_SHA3, 1 << 10);
    assert_eq!(fuchsia::ZX_ARM64_FEATURE_ISA_SM3, 1 << 11);
    assert_eq!(fuchsia::ZX_ARM64_FEATURE_ISA_SM4, 1 << 12);
    assert_eq!(fuchsia::ZX_ARM64_FEATURE_ISA_DP, 1 << 13);
    assert_eq!(fuchsia::ZX_ARM64_FEATURE_ISA_DPB, 1 << 14);
    assert_eq!(fuchsia::ZX_ARM64_FEATURE_ISA_FHM, 1 << 15);
    assert_eq!(fuchsia::ZX_ARM64_FEATURE_ISA_TS, 1 << 16);
    assert_eq!(fuchsia::ZX_ARM64_FEATURE_ISA_RNDR, 1 << 17);
    assert_eq!(fuchsia::ZX_ARM64_FEATURE_ISA_SHA512, 1 << 18);
}

#[test]
fn fuchsia_simple_flags_map_one_to_one() {
    let pairs = [
        (fuchsia::ZX_ARM64_FEATURE_ISA_FP, aarch64::Feature::fp),
        (fuchsia::ZX_ARM64_FEATURE_ISA_ASIMD, aarch64::Feature::asimd),
        (fuchsia::ZX_ARM64_FEATURE_ISA_PMULL, aarch64::Feature::pmull),
        (fuchsia::ZX_ARM64_FEATURE_ISA_CRC32, aarch64::Feature::crc),
        (fuchsia::ZX_ARM64_FEATURE_ISA_ATOMICS, aarch64::Feature::lse),
        (fuchsia::ZX_ARM64_FEATURE_ISA_RDM, aarch64::Feature::rdm),
        (fuchsia::ZX_ARM64_FEATURE_ISA_DP, aarch64::Feature::dotprod),
        (fuchsia::ZX_ARM64_FEATURE_ISA_DPB, aarch64::Feature::dpb),
        (fuchsia::ZX_ARM64_FEATURE_ISA_FHM, aarch64::Feature::fhm),
        (fuchsia::ZX_ARM64_FEATURE_ISA_TS, aarch64::Feature::flagm),
        (fuchsia::ZX_ARM64_FEATURE_ISA_RNDR, aarch64::Feature::rand),
        (fuchsia::ZX_ARM64_FEATURE_ISA_AES, aarch64::Feature::aes),
    ];
    for (flag, feature) in pairs {
        let value = fuchsia::detect_features(fuchsia::ZX_OK, flag);
        let mut expected = Initializer::default();
        expected.set(feature.index());
        assert_eq!(value, expected);
    }
}

#[test]
fn fuchsia_sha2_needs_sha1_and_sha256() {
    let both = fuchsia::ZX_ARM64_FEATURE_ISA_SHA1 | fuchsia::ZX_ARM64_FEATURE_ISA_SHA256;
    let value = fuchsia::detect_features(fuchsia::ZX_OK, both);
    assert!(has_aarch64(&value, aarch64::Feature::sha2));
    assert!(!has_aarch64(&value, aarch64::Feature::sha3));
    let only_sha1 = fuchsia::detect_features(fuchsia::ZX_OK, fuchsia::ZX_ARM64_FEATURE_ISA_SHA1);
    assert_eq!(only_sha1, Initializer::default());
    let only_sha256 =
        fuchsia::detect_features(fuchsia::ZX_OK, fuchsia::ZX_ARM64_FEATURE_ISA_SHA256);
    assert_eq!(only_sha256, Initializer::default());
}

#[test]
fn fuchsia_sha3_needs_all_four() {
    let all = fuchsia::ZX_ARM64_FEATURE_ISA_SHA1
        | fuchsia::ZX_ARM64_FEATURE_ISA_SHA256
        | fuchsia::ZX_ARM64_FEATURE_ISA_SHA512
        | fuchsia::ZX_ARM64_FEATURE_ISA_SHA3;
    let value = fuchsia::detect_features(fuchsia::ZX_OK, all);
    assert!(has_aarch64(&value, aarch64::Feature::sha3));
    assert!(has_aarch64(&value, aarch64::Feature::sha2));
    for missing in [
        fuchsia::ZX_ARM64_FEATURE_ISA_SHA1,
        fuchsia::ZX_ARM64_FEATURE_ISA_SHA256,
        fuchsia::ZX_ARM64_FEATURE_ISA_SHA512,
        fuchsia::ZX_ARM64_FEATURE_ISA_SHA3,
    ] {
        let value = fuchsia::detect_features(fuchsia::ZX_OK, all & !missing);
        assert!(!has_aarch64(&value, aarch64::Feature::sha3));
    }
}

#[test]
fn fuchsia_sm4_needs_sm3_and_sm4() {
    let sm3 = fuchsia::detect_features(fuchsia::ZX_OK, fuchsia::ZX_ARM64_FEATURE_ISA_SM3);
    assert!(!has_aarch64(&sm3, aarch64::Feature::sm4));
    let sm4 = fuchsia::detect_features(fuchsia::ZX_OK, fuchsia::ZX_ARM64_FEATURE_ISA_SM4);
    assert!(!has_aarch64(&sm4, aarch64::Feature::sm4));
    let both = fuchsia::detect_features(
        fuchsia::ZX_OK,
        fuchsia::ZX_ARM64_FEATURE_ISA_SM3 | fuchsia::ZX_ARM64_FEATURE_ISA_SM4,
    );
    assert!(has_aarch64(&both, aarch64::Feature::sm4));
}

#[test]
fn fuchsia_probe_is_repeatable() {
    let first = fuchsia::detect_features(fuchsia::ZX_OK, 0x0007_ffff);
    let second = fuchsia::detect_features(fuchsia::ZX_OK, 0x0007_ffff);
    assert_eq!(first, second);
    assert!(has_aarch64(&first, aarch64::Feature::sha3));
    assert!(!has_aarch64(&first, aarch64::Feature::sve));
}

#[test]
fn powerpc_exactly_one_enables_altivec() {
    let value = openbsd::detect_features(Some(1));
    let mut expected = Initializer::default();
    expected.set(powerpc::Feature::altivec.index());
    assert_eq!(value, expected);
}

#[test]
fn powerpc_other_values_leave_altivec_unset() {
    assert_eq!(openbsd::detect_features(Some(0)), Initializer::default());
    assert_eq!(openbsd::detect_features(Some(-1)), Initializer::default());
    assert_eq!(openbsd::detect_features(Some(2)), Initializer::default());
    assert_eq!(openbsd::detect_features(None), Initializer::default());
}

#[test]
fn powerpc_key_differs_by_sub_architecture() {
    assert_eq!(openbsd::cpu_altivec(PowerPcArch::PowerPc64), 1);
    assert_eq!(openbsd::cpu_altivec(PowerPcArch::PowerPc), 2);
}

#[test]
fn sysctl_int_rejects_bad_status_or_length() {
    assert_eq!(openbsd::sysctl_int(0, 4, 1), Some(1));
    assert_eq!(openbsd::sysctl_int(0, 4, -1), Some(-1));
    assert_eq!(openbsd::sysctl_int(-1, 4, 1), None);
    assert_eq!(openbsd::sysctl_int(0, 8, 1), None);
    assert_eq!(openbsd::sysctl_int(0, 0, 1), None);
    assert_eq!(
        openbsd::detect_features(openbsd::sysctl_int(-1, 4, 1)),
        Initializer::default()
    );
}

#[test]
fn default_probe_is_empty() {
    assert_eq!(openbsd::default_features(), Initializer::default());
}

#[test]
fn dispatcher_selects_the_probe_of_the_target() {
    assert_eq!(select_probe(Os::FreeBsd, Arch::RiscV64), ProbeKind::FreeBsdRiscV);
    assert_eq!(select_probe(Os::FreeBsd, Arch::RiscV32), ProbeKind::FreeBsdRiscV);
    assert_eq!(select_probe(Os::Fuchsia, Arch::AArch64), ProbeKind::FuchsiaAArch64);
    assert_eq!(select_probe(Os::NetBsd, Arch::AArch64), ProbeKind::NetBsdAArch64);
    assert_eq!(select_probe(Os::OpenBsd, Arch::PowerPc64), ProbeKind::OpenBsdPowerPc);
}

#[test]
fn dispatcher_falls_back_to_the_default_probe() {
    assert_eq!(select_probe(Os::Other, Arch::AArch64), ProbeKind::Default);
    assert_eq!(select_probe(Os::OpenBsd, Arch::PowerPc), ProbeKind::Default);
    assert_eq!(select_probe(Os::OpenBsd, Arch::RiscV64), ProbeKind::Default);
    assert_eq!(select_probe(Os::FreeBsd, Arch::AArch64), ProbeKind::Default);
    assert_eq!(select_probe(Os::NetBsd, Arch::Other), ProbeKind::Default);
    assert_eq!(select_probe(Os::Fuchsia, Arch::RiscV64), ProbeKind::Default);
}
