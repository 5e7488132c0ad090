//! Run-time detection of CPU features: a bitmask of feature indices, a
//! write-once cache for it, and the rules by which each platform's probe
//! turns what the operating system reports into that bitmask.

pub mod aarch64;
pub mod bit;
pub mod cache;
pub mod dispatch;
pub mod freebsd;
pub mod fuchsia;
pub mod netbsd;
pub mod openbsd;
pub mod powerpc;
pub mod riscv;
