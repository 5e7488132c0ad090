use crate::aarch64::{parse_system_registers, parsed_features};
use crate::cache::Initializer;
use vstd::prelude::*;
use vstd::slice::slice_subrange;

verus! {

/// Length of the text before the core's number.
pub const NAME_PREFIX_LEN: usize = 11;

/// Length of the text after the core's number, the closing zero byte included.
pub const NAME_SUFFIX_LEN: usize = 8;

/// The most decimal digits a `u32` has.
pub const U32_MAX_LEN: usize = 10;

/// The ASCII code of the digit zero.
pub const ASCII_ZERO: u8 = 48;

/// The longest name, and the size of the buffer.
pub const NAME_MAX_LEN: usize = 29;

/// The ASCII bytes of `machdep.cpu`.
pub open spec fn name_prefix() -> Seq<u8> {
    seq![109u8, 97u8, 99u8, 104u8, 100u8, 101u8, 112u8, 46u8, 99u8, 112u8, 117u8]
}

/// The ASCII bytes of `.cpu_id`, closed by a zero byte.
pub open spec fn name_suffix() -> Seq<u8> {
    seq![46u8, 99u8, 112u8, 117u8, 95u8, 105u8, 100u8, 0u8]
}

/// The decimal digits of `n` as ASCII bytes, without leading zeros.
pub open spec fn decimal_digits(n: nat) -> Seq<u8>
    decreases n,
{
    if n < 10 {
        seq![(ASCII_ZERO + n) as u8]
    } else {
        decimal_digits(n / 10).push((ASCII_ZERO + n % 10) as u8)
    }
}

/// The query name of core `cpu`: `machdep.cpu<N>.cpu_id` and a zero byte.
pub open spec fn machdep_name(cpu: u32) -> Seq<u8> {
    name_prefix() + decimal_digits(cpu as nat) + name_suffix()
}

/// The digits that are still to be written in front of those already there.
spec fn leading_digits(rest: nat) -> Seq<u8> {
    if rest == 0 {
        Seq::empty()
    } else {
        decimal_digits(rest)
    }
}

/// The largest value that can be left when `start` digit places are free.
spec fn largest_rest(start: int) -> int {
    if start >= 9 {
        429496729
    } else if start == 8 {
        42949672
    } else if start == 7 {
        4294967
    } else if start == 6 {
        429496
    } else if start == 5 {
        42949
    } else if start == 4 {
        4294
    } else if start == 3 {
        429
    } else if start == 2 {
        42
    } else if start == 1 {
        4
    } else {
        0
    }
}

/// A reusable buffer of fixed size in which the query names are built.
pub struct MachdepNameBuffer {
    buf: [u8; NAME_MAX_LEN],
}

impl View for MachdepNameBuffer {
    type V = Seq<u8>;

    /// The bytes of the buffer, all of them.
    closed spec fn view(&self) -> Seq<u8> {
        self.buf@
    }
}

impl MachdepNameBuffer {
    /// The buffer has its full size and starts with the fixed prefix.
    pub open spec fn wf(&self) -> bool {
        &&& self@.len() == NAME_MAX_LEN
        &&& self@.subrange(0, NAME_PREFIX_LEN as int) == name_prefix()
    }

    /// The buffer holds the prefix and, after it, zero bytes only.
    pub open spec fn fresh(&self) -> bool {
        self@ =~= name_prefix() + Seq::new(
            (NAME_MAX_LEN - NAME_PREFIX_LEN) as nat,
            |i: int| 0u8,
        )
    }

    /// A buffer that holds the prefix, followed by zero bytes.
    pub fn new() -> (buffer: Self)
        ensures
            buffer.wf(),
            buffer.fresh(),
    {
        // machdep.cpu
        let prefix: [u8; NAME_PREFIX_LEN] = [109, 97, 99, 104, 100, 101, 112, 46, 99, 112, 117];
        let mut buf: [u8; NAME_MAX_LEN] = [0u8; NAME_MAX_LEN];
        let mut i: usize = 0;
        while i < NAME_PREFIX_LEN
            invariant
                i <= NAME_PREFIX_LEN,
                prefix@ == name_prefix(),
                forall|j: int| 0 <= j < i ==> buf@[j] == prefix@[j],
                forall|j: int| NAME_PREFIX_LEN <= j < NAME_MAX_LEN ==> buf@[j] == 0u8,
            decreases NAME_PREFIX_LEN - i,
        {
            buf[i] = prefix[i];
            i += 1;
        }
        proof {
            assert(buf@.subrange(0, NAME_PREFIX_LEN as int) =~= name_prefix());
            assert(buf@ =~= name_prefix() + Seq::new(
                (NAME_MAX_LEN - NAME_PREFIX_LEN) as nat,
                |i: int| 0u8,
            ));
        }
        MachdepNameBuffer { buf }
    }

    /// Writes the name of core `cpu` into the buffer and returns it.
    pub fn name(&mut self, cpu: u32) -> (name: &[u8])
        requires
            old(self).wf(),
        ensures
            name@ == machdep_name(cpu),
            final(self).wf(),
            final(self)@.subrange(0, name@.len() as int) == name@,
    {
        // .cpu_id and the closing zero byte
        let suffix: [u8; NAME_SUFFIX_LEN] = [46, 99, 112, 117, 95, 105, 100, 0];
        let mut digits: [u8; U32_MAX_LEN] = [0u8; U32_MAX_LEN];
        let mut start: usize = 9;
        let mut rest: u32 = cpu / 10;
        digits[9] = (cpu % 10) as u8 + ASCII_ZERO;
        proof {
            assert(leading_digits(rest as nat) + digits@.subrange(9, 10) =~= decimal_digits(
                cpu as nat,
            ));
        }
        while rest > 0
            invariant
                start <= 9,
                rest <= largest_rest(start as int),
                leading_digits(rest as nat) + digits@.subrange(start as int, 10) =~= decimal_digits(
                    cpu as nat,
                ),
            decreases rest,
        {
            let ghost before = digits@;
            start -= 1;
            digits[start] = (rest % 10) as u8 + ASCII_ZERO;
            proof {
                assert(leading_digits((rest / 10) as nat).push(digits@[start as int])
                    =~= leading_digits(rest as nat));
                assert(digits@.subrange(start as int, 10) =~= seq![digits@[start as int]]
                    + before.subrange(start + 1, 10));
            }
            rest = rest / 10;
        }
        let count: usize = U32_MAX_LEN - start;
        let mut i: usize = 0;
        while i < count
            invariant
                i <= count,
                count == 10 - start,
                start <= 9,
                self.buf@.subrange(0, NAME_PREFIX_LEN as int) == name_prefix(),
                forall|j: int| 11 <= j < 11 + i ==> self.buf@[j] == digits@[start + j - 11],
            decreases count - i,
        {
            let ghost before = self.buf@;
            self.buf[NAME_PREFIX_LEN + i] = digits[start + i];
            proof {
                assert(self.buf@.subrange(0, 11) =~= before.subrange(0, 11));
            }
            i += 1;
        }
        let mut k: usize = 0;
        while k < NAME_SUFFIX_LEN
            invariant
                k <= NAME_SUFFIX_LEN,
                count == 10 - start,
                start <= 9,
                suffix@ == name_suffix(),
                self.buf@.subrange(0, NAME_PREFIX_LEN as int) == name_prefix(),
                forall|j: int| 11 <= j < 11 + count ==> self.buf@[j] == digits@[start + j - 11],
                forall|j: int|
                    11 + count <= j < 11 + count + k ==> self.buf@[j] == suffix@[j - 11 - count],
            decreases NAME_SUFFIX_LEN - k,
        {
            let ghost before = self.buf@;
            self.buf[NAME_PREFIX_LEN + count + k] = suffix[k];
            proof {
                assert(self.buf@.subrange(0, 11) =~= before.subrange(0, 11));
            }
            k += 1;
        }
        let len: usize = NAME_PREFIX_LEN + count + NAME_SUFFIX_LEN;
        proof {
            assert(decimal_digits(cpu as nat) =~= digits@.subrange(start as int, 10));
            assert(self.buf@.subrange(0, len as int) =~= self.buf@.subrange(0, 11)
                + digits@.subrange(start as int, 10) + name_suffix());
        }
        slice_subrange(self.buf.as_slice(), 0, len)
    }
}

/// The register values of one core that the probe reads: two instruction
/// set attribute registers, one memory model feature register and one
/// processor feature register.
#[derive(Clone, Copy, Debug, PartialEq, Eq, Structural)]
pub struct AA64Reg {
    pub aa64isar0: u64,
    pub aa64isar1: u64,
    pub aa64mmfr2: u64,
    pub aa64pfr0: u64,
}

impl AA64Reg {
    /// The bit indices of the features that these register values show.
    pub open spec fn features(self) -> Set<nat> {
        parsed_features(self.aa64isar0, self.aa64isar1, self.aa64mmfr2, Some(self.aa64pfr0))
    }

    /// Whether the fields that are compared between cores are the same in
    /// both readings: the two instruction set attribute registers and the
    /// memory model feature register. Other fields may differ between the
    /// cores of one machine, so they are left out on purpose.
    pub open spec fn agrees_with(self, other: AA64Reg) -> bool {
        &&& self.aa64isar0 == other.aa64isar0
        &&& self.aa64isar1 == other.aa64isar1
        &&& self.aa64mmfr2 == other.aa64mmfr2
    }

    /// Compares the fields that must be the same on every core.
    pub fn same_compared_fields(&self, other: &AA64Reg) -> (same: bool)
        ensures
            same == self.agrees_with(*other),
    {
        self.aa64isar0 == other.aa64isar0 && self.aa64isar1 == other.aa64isar1 && self.aa64mmfr2
            == other.aa64mmfr2
    }

    /// Translates the register values into a bitmask of features.
    pub fn parse(&self) -> (value: Initializer)
        ensures
            value@ == self.features(),
    {
        parse_system_registers(self.aa64isar0, self.aa64isar1, self.aa64mmfr2, Some(self.aa64pfr0))
    }
}

/// What the probe needs to have read next.
#[derive(Clone, Copy, Debug, PartialEq, Eq, Structural)]
pub enum Query {
    /// The register values of the core with this number.
    CpuId(u32),
    /// The number of logical cores.
    CpuCount,
}

/// What came back from the system for a query. `None` stands for a read
/// that failed.
#[derive(Clone, Copy, Debug, PartialEq, Eq, Structural)]
pub enum Reply {
    CpuId(Option<AA64Reg>),
    CpuCount(Option<u32>),
}

/// How far the probe has come.
#[derive(Clone, Copy, Debug, PartialEq, Eq, Structural)]
pub enum Probe {
    /// Nothing has been read yet.
    Core0,
    /// Core 0 has been read; the number of cores is wanted.
    Count { cpu0: AA64Reg },
    /// The cores below `core` agree with core 0; `core` is read next.
    Core { cpu0: AA64Reg, cpus: u32, core: u32 },
}

/// The result of one step of the probe.
#[derive(Clone, Copy, Debug, PartialEq, Eq, Structural)]
pub enum Step {
    /// The probe goes on and waits for the reply to its next query.
    Ask(Probe),
    /// The probe has ended with this bitmask.
    Done(Initializer),
}

impl Probe {
    /// The query that the probe waits for in this state.
    pub open spec fn pending(self) -> Query {
        match self {
            Probe::Core0 => Query::CpuId(0),
            Probe::Count { .. } => Query::CpuCount,
            Probe::Core { core, .. } => Query::CpuId(core),
        }
    }

    /// The state that follows when `reply` arrives, or `None` where the
    /// probe ends with it.
    pub open spec fn next(self, reply: Reply) -> Option<Probe> {
        match (self, reply) {
            (Probe::Core0, Reply::CpuId(Some(cpu0))) => Some(Probe::Count { cpu0 }),
            (Probe::Count { cpu0 }, Reply::CpuCount(Some(cpus))) => if cpus >= 2 {
                Some(Probe::Core { cpu0, cpus, core: 1 })
            } else {
                None
            },
            (Probe::Core { cpu0, cpus, core }, Reply::CpuId(Some(cpu))) => if cpu.agrees_with(cpu0)
                && core + 1 < cpus {
                Some(Probe::Core { cpu0, cpus, core: (core + 1) as u32 })
            } else {
                None
            },
            _ => None,
        }
    }

    /// The features that the probe reports where it ends with `reply`.
    /// Core 0 is trusted only if exactly one core is reported, or if the
    /// last of the other cores has just been found to agree with it. A
    /// failed read, a count of zero, a core that differs, and a reply of
    /// the wrong kind all give the empty set.
    pub open spec fn verdict(self, reply: Reply) -> Set<nat> {
        match (self, reply) {
            (Probe::Count { cpu0 }, Reply::CpuCount(Some(cpus))) => if cpus == 1 {
                cpu0.features()
            } else {
                Set::empty()
            },
            (Probe::Core { cpu0, cpus, core }, Reply::CpuId(Some(cpu))) => if cpu.agrees_with(cpu0)
                && core + 1 >= cpus {
                cpu0.features()
            } else {
                Set::empty()
            },
            _ => Set::empty(),
        }
    }

    /// The state in which every probe begins: it waits for core 0.
    pub fn start() -> (probe: Probe)
        ensures
            probe == Probe::Core0,
    {
        Probe::Core0
    }

    /// The query to make in this state.
    pub fn query(&self) -> (query: Query)
        ensures
            query == self.pending(),
    {
        match self {
            Probe::Core0 => Query::CpuId(0),
            Probe::Count { .. } => Query::CpuCount,
            Probe::Core { core, .. } => Query::CpuId(*core),
        }
    }

    /// Takes the reply to the pending query and decides how the probe goes
    /// on: with another query, or with its final bitmask.
    pub fn advance(self, reply: Reply) -> (step: Step)
        ensures
            match self.next(reply) {
                Some(probe) => step == Step::Ask(probe),
                None => match step {
                    Step::Done(value) => value@ == self.verdict(reply),
                    Step::Ask(_) => false,
                },
            },
    {
        match (self, reply) {
            (Probe::Core0, Reply::CpuId(Some(cpu0))) => Step::Ask(Probe::Count { cpu0 }),
            (Probe::Count { cpu0 }, Reply::CpuCount(Some(cpus))) => {
                if cpus >= 2 {
                    Step::Ask(Probe::Core { cpu0, cpus, core: 1 })
                } else if cpus == 1 {
                    Step::Done(cpu0.parse())
                } else {
                    Step::Done(Initializer::default())
                }
            },
            (Probe::Core { cpu0, cpus, core }, Reply::CpuId(Some(cpu))) => {
                if !cpu.same_compared_fields(&cpu0) {
                    Step::Done(Initializer::default())
                } else if core < cpus && cpus - core > 1 {
                    Step::Ask(Probe::Core { cpu0, cpus, core: core + 1 })
                } else {
                    Step::Done(cpu0.parse())
                }
            },
            _ => Step::Done(Initializer::default()),
        }
    }
}

/// The reading of core `n` in a record of per-core readings; a core that
/// the record does not hold counts as one that could not be read.
pub open spec fn reading(cores: Seq<Option<AA64Reg>>, n: int) -> Option<AA64Reg> {
    if 0 <= n < cores.len() {
        cores[n]
    } else {
        None
    }
}

/// Whether each of the cores from 1 up to, but not including, `upto` could
/// be read and agrees with `cpu0` in the compared fields.
pub open spec fn all_agree(cores: Seq<Option<AA64Reg>>, cpu0: AA64Reg, upto: int) -> bool {
    forall|n: int|
        1 <= n < upto ==> match #[trigger] reading(cores, n) {
            Some(cpu) => cpu.agrees_with(cpu0),
            None => false,
        }
}

/// The features that the probe reports on a machine that gives `cpus` as
/// its number of cores and `cores` as their readings.
pub open spec fn probe_outcome(cpus: Option<u32>, cores: Seq<Option<AA64Reg>>) -> Set<nat> {
    match (reading(cores, 0), cpus) {
        (Some(cpu0), Some(count)) => if count >= 1 && all_agree(cores, cpu0, count as int) {
            cpu0.features()
        } else {
            Set::empty()
        },
        _ => Set::empty(),
    }
}

/// What the system would answer to `query` on a machine described by `cpus` and `cores`.
pub open spec fn answer(cpus: Option<u32>, cores: Seq<Option<AA64Reg>>, query: Query) -> Reply {
    match query {
        Query::CpuId(n) => Reply::CpuId(reading(cores, n as int)),
        Query::CpuCount => Reply::CpuCount(cpus),
    }
}

/// Whether `probe` can have been reached on a machine described by `cpus` and `cores`.
pub open spec fn reached(probe: Probe, cpus: Option<u32>, cores: Seq<Option<AA64Reg>>) -> bool {
    match probe {
        Probe::Core0 => true,
        Probe::Count { cpu0 } => reading(cores, 0) == Some(cpu0),
        Probe::Core { cpu0, cpus: count, core } => {
            &&& reading(cores, 0) == Some(cpu0)
            &&& cpus == Some(count)
            &&& 1 <= core < count
            &&& all_agree(cores, cpu0, core as int)
        },
    }
}

/// The number of steps that the probe has at most left.
pub open spec fn steps_left(probe: Probe) -> int {
    match probe {
        Probe::Core0 => 0x1_0000_0002,
        Probe::Count { .. } => 0x1_0000_0001,
        Probe::Core { cpus, core, .. } => cpus - core,
    }
}

/// One step of the probe on a given machine keeps the probe among the
/// states that can be reached there and brings it nearer to its end; where
/// the probe ends, it ends with the outcome that belongs to that machine.
pub proof fn lemma_step_on_machine(probe: Probe, cpus: Option<u32>, cores: Seq<Option<AA64Reg>>)
    requires
        reached(probe, cpus, cores),
    ensures
        match probe.next(answer(cpus, cores, probe.pending())) {
            Some(after) => reached(after, cpus, cores) && 0 <= steps_left(after) < steps_left(probe),
            None => probe.verdict(answer(cpus, cores, probe.pending())) == probe_outcome(
                cpus,
                cores,
            ),
        },
{
    let reply = answer(cpus, cores, probe.pending());
    match probe {
        Probe::Core0 => {},
        Probe::Count { cpu0 } => {},
        Probe::Core { cpu0, cpus: count, core } => {
            match reading(cores, core as int) {
                Some(cpu) => {
                    if cpu.agrees_with(cpu0) {
                        assert(all_agree(cores, cpu0, core + 1));
                    }
                },
                None => {},
            }
        },
    }
}

/// Runs the probe on a record of what the system holds: `cpus` is the
/// reported number of cores, or `None` if it cannot be read, and `cores[n]`
/// is the reading of core `n`, or `None` if it cannot be read. A core that
/// `cores` does not hold cannot be read.
pub fn detect_features(cpus: Option<u32>, cores: &[Option<AA64Reg>]) -> (value: Initializer)
    ensures
        value@ == probe_outcome(cpus, cores@),
{
    let mut probe = Probe::start();
    loop
        invariant
            reached(probe, cpus, cores@),
        decreases steps_left(probe),
    {
        let reply = match probe.query() {
            Query::CpuId(n) => Reply::CpuId(
                if (n as usize) < cores.len() {
                    cores[n as usize]
                } else {
                    None
                },
            ),
            Query::CpuCount => Reply::CpuCount(cpus),
        };
        proof {
            lemma_step_on_machine(probe, cpus, cores@);
        }
        match probe.advance(reply) {
            Step::Ask(after) => {
                probe = after;
            },
            Step::Done(value) => {
                return value;
            },
        }
    }
}

/// With one logical core, the probe reports what core 0 shows.
pub proof fn lemma_single_core(cores: Seq<Option<AA64Reg>>, cpu0: AA64Reg)
    requires
        reading(cores, 0) == Some(cpu0),
    ensures
        probe_outcome(Some(1u32), cores) == cpu0.features(),
{
}

/// With several cores that could all be read and agree with core 0 in the
/// compared fields, the probe reports what core 0 shows.
pub proof fn lemma_agreeing_cores(cpus: u32, cores: Seq<Option<AA64Reg>>, cpu0: AA64Reg)
    requires
        cpus > 1,
        reading(cores, 0) == Some(cpu0),
        all_agree(cores, cpu0, cpus as int),
    ensures
        probe_outcome(Some(cpus), cores) == cpu0.features(),
{
}

/// One core that differs from core 0 in a compared field, or that cannot
/// be read, empties the result, however many other cores agree.
pub proof fn lemma_one_bad_core(cpus: u32, cores: Seq<Option<AA64Reg>>, n: int)
    requires
        1 <= n < cpus,
        match (reading(cores, 0), reading(cores, n)) {
            (Some(cpu0), Some(cpu)) => !cpu.agrees_with(cpu0),
            _ => true,
        },
    ensures
        probe_outcome(Some(cpus), cores) == Set::<nat>::empty(),
{
}

/// Where core 0 cannot be read, or the number of cores cannot be read or
/// is zero, the probe reports nothing.
pub proof fn lemma_unreadable_is_empty(cpus: Option<u32>, cores: Seq<Option<AA64Reg>>)
    requires
        reading(cores, 0) is None || cpus is None || cpus == Some(0u32),
    ensures
        probe_outcome(cpus, cores) == Set::<nat>::empty(),
{
}

/// The number of bytes of a `u32` parameter.
pub const U32_LEN: usize = 4;

/// The value that a read of a `u32` parameter gave, where it succeeded:
/// `res` is what the read returned, `out_len` the number of bytes it wrote
/// and `out` the value it wrote. A read that returned -1 or wrote another
/// number of bytes than a `u32` has gave nothing.
pub fn sysctl32(res: i32, out_len: usize, out: u32) -> (value: Option<u32>)
    ensures
        value == if res == -1 || out_len != U32_LEN {
            None
        } else {
            Some(out)
        },
{
    if res == -1 || out_len != U32_LEN {
        return None;
    }
    Some(out)
}

/// The reading that a query of one core's registers gave, where it
/// succeeded: `res` is what the query returned, `out_len` the number of
/// bytes it wrote, `expected_len` the size of the record asked for, and
/// `cpu` the four values taken from that record. A query that returned
/// anything but 0 or wrote another number of bytes gave nothing.
pub fn sysctl_cpu_id(res: i32, out_len: usize, expected_len: usize, cpu: AA64Reg) -> (value: Option<
    AA64Reg,
>)
    ensures
        value == if res != 0 || out_len != expected_len {
            None
        } else {
            Some(cpu)
        },
{
    if res != 0 || out_len != expected_len {
        return None;
    }
    Some(cpu)
}

} // verus!
