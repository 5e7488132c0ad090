use cpu_features::aarch64::{bits_shift, parse_system_registers, Feature};
use cpu_features::cache::Initializer;
use cpu_features::netbsd::{
    detect_features, sysctl32, sysctl_cpu_id, AA64Reg, Probe, Query, Reply, Step,
};

fn bitmask_of(features: &[Feature]) -> Initializer {
    let mut value = Initializer::default();
    for feature in features {
        value.set(feature.index());
    }
    value
}

fn sample() -> AA64Reg {
    // AES and PMULL, SHA1, SHA2, CRC32, atomics, RDM, dot product; RCPC;
    // LSE2; floating point and SIMD without half precision.
    AA64Reg {
        aa64isar0: 0x0000_1000_2021_1120,
        aa64isar1: 0x0000_0000_0010_0000,
        aa64mmfr2: 0x0000_0001_0000_0000,
        aa64pfr0: 0x0000_0000_0000_0000,
    }
}

fn sample_features() -> Initializer {
    bitmask_of(&[
        Feature::pmull,
        Feature::aes,
        Feature::sha2,
        Feature::crc,
        Feature::lse,
        Feature::rdm,
        Feature::dotprod,
        Feature::rcpc,
        Feature::lse2,
        Feature::fp,
        Feature::asimd,
    ])
}

#[test]
fn bits_shift_extracts_fields() {
    assert_eq!(bits_shift(0x0000_0000_0000_00f0, 7, 4), 0xf);
    assert_eq!(bits_shift(0x0000_0000_0000_0120, 7, 4), 2);
    assert_eq!(bits_shift(0x0000_0000_0000_0120, 11, 8), 1);
    assert_eq!(bits_shift(0xffff_ffff_ffff_ffff, 63, 60), 0xf);
    assert_eq!(bits_shift(0x8000_0000_0000_0000, 63, 63), 1);
    assert_eq!(bits_shift(0x0000_0000_0000_0ab0, 11, 4), 0xab);
}

#[test]
fn parse_all_zero_registers() {
    // Zero in the processor feature register means floating point and SIMD
    // are implemented.
    let value = parse_system_registers(0, 0, 0, Some(0));
    assert_eq!(value, bitmask_of(&[Feature::fp, Feature::asimd]));
}

#[test]
fn parse_without_processor_feature_register() {
    let regs = sample();
    let value = parse_system_registers(regs.aa64isar0, regs.aa64isar1, regs.aa64mmfr2, None);
    assert_eq!(
        value,
        bitmask_of(&[Feature::pmull, Feature::crc, Feature::lse, Feature::rcpc, Feature::lse2])
    );
}

#[test]
fn parse_sample_registers() {
    let regs = sample();
    let value = parse_system_registers(
        regs.aa64isar0,
        regs.aa64isar1,
        regs.aa64mmfr2,
        Some(regs.aa64pfr0),
    );
    assert_eq!(value, sample_features());
    assert_eq!(regs.parse(), sample_features());
}

#[test]
fn parse_no_floating_point_disables_simd_extensions() {
    let regs = sample();
    let value = parse_system_registers(
        regs.aa64isar0,
        regs.aa64isar1,
        regs.aa64mmfr2,
        Some(0x0000_0000_00ff_0000),
    );
    assert_eq!(
        value,
        bitmask_of(&[
            Feature::pmull,
            Feature::crc,
            Feature::lse,
            Feature::rcpc,
            Feature::lse2,
            Feature::fp16,
        ])
    );
}

#[test]
fn parse_thresholds() {
    // AES field 1: AES without PMULL.
    let value = parse_system_registers(0x10, 0, 0, Some(0));
    assert_eq!(value, bitmask_of(&[Feature::fp, Feature::asimd]));
    // Atomics field 1 is below the threshold of 2.
    let value = parse_system_registers(0x0010_0000, 0, 0, None);
    assert_eq!(value, Initializer::default());
    // Transactional memory needs exactly 1.
    let value = parse_system_registers(0x0100_0000, 0, 0, None);
    assert_eq!(value, bitmask_of(&[Feature::tme]));
    let value = parse_system_registers(0x0200_0000, 0, 0, None);
    assert_eq!(value, Initializer::default());
    // Both levels of RCPC, and the two authentication features.
    let value = parse_system_registers(0, 0x0120_0010, 0, None);
    assert_eq!(
        value,
        bitmask_of(&[Feature::rcpc, Feature::rcpc2, Feature::paca, Feature::pacg])
    );
    // Half precision and the vector extension.
    let value = parse_system_registers(0, 0, 0, Some(0x0000_0001_0011_0000));
    assert_eq!(
        value,
        bitmask_of(&[Feature::fp, Feature::fp16, Feature::asimd, Feature::sve])
    );
    // Half-precision floating point without half-precision SIMD: no SIMD.
    let value = parse_system_registers(0, 0, 0, Some(0x0000_0000_0001_0000));
    assert_eq!(value, bitmask_of(&[Feature::fp, Feature::fp16]));
}

#[test]
fn sysctl32_rejects_bad_status_or_length() {
    assert_eq!(sysctl32(0, 4, 8), Some(8));
    assert_eq!(sysctl32(0, 4, 0), Some(0));
    assert_eq!(sysctl32(-1, 4, 8), None);
    assert_eq!(sysctl32(0, 2, 8), None);
    assert_eq!(sysctl32(0, 8, 8), None);
}

#[test]
fn sysctl_cpu_id_rejects_bad_status_or_length() {
    let regs = sample();
    assert_eq!(sysctl_cpu_id(0, 152, 152, regs), Some(regs));
    assert_eq!(sysctl_cpu_id(-1, 152, 152, regs), None);
    assert_eq!(sysctl_cpu_id(1, 152, 152, regs), None);
    assert_eq!(sysctl_cpu_id(0, 128, 152, regs), None);
}

#[test]
fn core0_unreadable_is_empty() {
    assert_eq!(detect_features(Some(1), &[None]), Initializer::default());
    assert_eq!(detect_features(Some(1), &[]), Initializer::default());
    assert_eq!(detect_features(Some(4), &[None, Some(sample())]), Initializer::default());
}

#[test]
fn core_count_unreadable_or_zero_is_empty() {
    assert_eq!(detect_features(None, &[Some(sample())]), Initializer::default());
    assert_eq!(detect_features(Some(0), &[Some(sample())]), Initializer::default());
}

#[test]
fn single_core_is_parsed_directly() {
    assert_eq!(detect_features(Some(1), &[Some(sample())]), sample_features());
    // What other cores would say is never looked at.
    let other = AA64Reg { aa64isar0: 0, aa64isar1: 0, aa64mmfr2: 0, aa64pfr0: 0 };
    assert_eq!(detect_features(Some(1), &[Some(sample()), Some(other)]), sample_features());
}

#[test]
fn identical_cores_give_core0() {
    let cores = [Some(sample()); 8];
    assert_eq!(detect_features(Some(8), &cores), sample_features());
    assert_eq!(detect_features(Some(2), &cores), sample_features());
}

#[test]
fn fields_that_are_not_compared_may_differ() {
    let mut little = sample();
    little.aa64pfr0 = 0x0000_0000_0011_0000;
    let cores = [Some(sample()), Some(little), Some(sample()), Some(little)];
    assert_eq!(detect_features(Some(4), &cores), sample_features());
}

#[test]
fn any_mismatch_is_empty() {
    for field in 0..3 {
        for bad in 1..6 {
            let mut cores = [Some(sample()); 6];
            let mut odd = sample();
            match field {
                0 => odd.aa64isar0 ^= 1 << 20,
                1 => odd.aa64isar1 ^= 1 << 4,
                _ => odd.aa64mmfr2 ^= 1 << 32,
            }
            cores[bad] = Some(odd);
            assert_eq!(detect_features(Some(6), &cores), Initializer::default());
        }
    }
}

#[test]
fn unreadable_core_is_empty() {
    let mut cores = [Some(sample()); 4];
    cores[3] = None;
    assert_eq!(detect_features(Some(4), &cores), Initializer::default());
    // More cores reported than can be read.
    assert_eq!(detect_features(Some(5), &[Some(sample()); 4]), Initializer::default());
}

#[test]
fn probe_is_repeatable() {
    let cores = [Some(sample()); 3];
    assert_eq!(detect_features(Some(3), &cores), detect_features(Some(3), &cores));
}

#[test]
fn probe_steps_ask_for_core0_then_count_then_each_core() {
    let regs = sample();
    let probe = Probe::start();
    assert_eq!(probe.query(), Query::CpuId(0));
    let probe = match probe.advance(Reply::CpuId(Some(regs))) {
        Step::Ask(probe) => probe,
        Step::Done(_) => panic!("ended after core 0"),
    };
    assert_eq!(probe.query(), Query::CpuCount);
    let probe = match probe.advance(Reply::CpuCount(Some(3))) {
        Step::Ask(probe) => probe,
        Step::Done(_) => panic!("ended after the count"),
    };
    assert_eq!(probe.query(), Query::CpuId(1));
    let probe = match probe.advance(Reply::CpuId(Some(regs))) {
        Step::Ask(probe) => probe,
        Step::Done(_) => panic!("ended after core 1"),
    };
    assert_eq!(probe.query(), Query::CpuId(2));
    assert_eq!(probe.advance(Reply::CpuId(Some(regs))), Step::Done(sample_features()));
}

#[test]
fn probe_steps_end_at_first_failure() {
    let regs = sample();
    assert_eq!(Probe::start().advance(Reply::CpuId(None)), Step::Done(Initializer::default()));
    let waiting = Probe::Count { cpu0: regs };
    assert_eq!(waiting.advance(Reply::CpuCount(None)), Step::Done(Initializer::default()));
    assert_eq!(waiting.advance(Reply::CpuCount(Some(0))), Step::Done(Initializer::default()));
    assert_eq!(waiting.advance(Reply::CpuCount(Some(1))), Step::Done(sample_features()));
    let comparing = Probe::Core { cpu0: regs, cpus: 4, core: 1 };
    assert_eq!(comparing.advance(Reply::CpuId(None)), Step::Done(Initializer::default()));
    let mut odd = regs;
    odd.aa64isar1 = 0;
    assert_eq!(comparing.advance(Reply::CpuId(Some(odd))), Step::Done(Initializer::default()));
}

#[test]
fn probe_steps_reject_a_reply_of_the_wrong_kind() {
    let regs = sample();
    assert_eq!(
        Probe::start().advance(Reply::CpuCount(Some(1))),
        Step::Done(Initializer::default())
    );
    let waiting = Probe::Count { cpu0: regs };
    assert_eq!(waiting.advance(Reply::CpuId(Some(regs))), Step::Done(Initializer::default()));
    let comparing = Probe::Core { cpu0: regs, cpus: 2, core: 1 };
    assert_eq!(comparing.advance(Reply::CpuCount(Some(2))), Step::Done(Initializer::default()));
}
