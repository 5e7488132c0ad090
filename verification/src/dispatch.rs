use vstd::prelude::*;

verus! {

/// The operating system of the target.
#[derive(Clone, Copy, Debug, PartialEq, Eq, Structural)]
pub enum Os {
    FreeBsd,
    Fuchsia,
    NetBsd,
    OpenBsd,
    Other,
}

/// The architecture of the target.
#[derive(Clone, Copy, Debug, PartialEq, Eq, Structural)]
pub enum Arch {
    AArch64,
    RiscV32,
    RiscV64,
    PowerPc,
    PowerPc64,
    Other,
}

/// The probes that there are.
#[derive(Clone, Copy, Debug, PartialEq, Eq, Structural)]
pub enum ProbeKind {
    /// RISC-V on FreeBSD: the auxiliary vector.
    FreeBsdRiscV,
    /// AArch64 on Fuchsia: a status call.
    FuchsiaAArch64,
    /// AArch64 on NetBSD: the registers of every core.
    NetBsdAArch64,
    /// PowerPC on OpenBSD: one integer-valued parameter.
    OpenBsdPowerPc,
    /// Every other target: nothing is reported.
    Default,
}

/// The probe that belongs to a target.
pub open spec fn probe_for(os: Os, arch: Arch) -> ProbeKind {
    match (os, arch) {
        (Os::FreeBsd, Arch::RiscV32) => ProbeKind::FreeBsdRiscV,
        (Os::FreeBsd, Arch::RiscV64) => ProbeKind::FreeBsdRiscV,
        (Os::Fuchsia, Arch::AArch64) => ProbeKind::FuchsiaAArch64,
        (Os::NetBsd, Arch::AArch64) => ProbeKind::NetBsdAArch64,
        (Os::OpenBsd, Arch::PowerPc64) => ProbeKind::OpenBsdPowerPc,
        _ => ProbeKind::Default,
    }
}

/// Selects the probe for a target. A target without a probe of its own
/// gets the one that reports nothing.
pub fn select_probe(os: Os, arch: Arch) -> (kind: ProbeKind)
    ensures
        kind == probe_for(os, arch),
{
    match os {
        Os::FreeBsd => match arch {
            Arch::RiscV32 | Arch::RiscV64 => ProbeKind::FreeBsdRiscV,
            _ => ProbeKind::Default,
        },
        Os::Fuchsia => match arch {
            Arch::AArch64 => ProbeKind::FuchsiaAArch64,
            _ => ProbeKind::Default,
        },
        Os::NetBsd => match arch {
            Arch::AArch64 => ProbeKind::NetBsdAArch64,
            _ => ProbeKind::Default,
        },
        Os::OpenBsd => match arch {
            Arch::PowerPc64 => ProbeKind::OpenBsdPowerPc,
            _ => ProbeKind::Default,
        },
        Os::Other => ProbeKind::Default,
    }
}

} // verus!
