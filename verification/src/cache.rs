use vstd::prelude::*;

verus! {

/// Number of bit positions an [`Initializer`] holds.
pub const CAPACITY: u32 = 128;

/// Whether bit `i` of `bits` is set.
pub open spec fn bit_at(bits: u128, i: nat) -> bool {
    i < 128 && (bits >> (i as u128)) & 1 == 1
}

/// A fixed-width set of feature bit indices, built by a probe before it is
/// frozen into the [`Cache`]. Bits are only ever added.
#[derive(Clone, Copy, Debug, PartialEq, Eq, Structural)]
pub struct Initializer {
    bits: u128,
}

impl View for Initializer {
    type V = Set<nat>;

    /// The set of bit indices that are present.
    closed spec fn view(&self) -> Set<nat> {
        Set::new(|i: nat| bit_at(self.bits, i))
    }
}

proof fn lemma_zero_has_no_bit(i: u128)
    by (bit_vector)
    requires
        i < 128,
    ensures
        (0u128 >> i) & 1 == 0,
{
}

proof fn lemma_or_bit(bits: u128, b: u128, i: u128)
    by (bit_vector)
    requires
        b < 128,
        i < 128,
    ensures
        ((bits | (1u128 << b)) >> i) & 1 == 1 <==> (i == b || (bits >> i) & 1 == 1),
{
}

proof fn lemma_test_bit(bits: u128, b: u128)
    by (bit_vector)
    requires
        b < 128,
    ensures
        (bits & (1u128 << b) != 0) <==> (bits >> b) & 1 == 1,
{
}

/// The word whose bits 0 to `k` are set.
spec fn low_bits(k: u128) -> u128 {
    (((1u128 << k) - 1) as u128) | (1u128 << k)
}

proof fn lemma_low_bits_base(a: u128)
    by (bit_vector)
    ensures
        a & low_bits(0) == (a >> 0) & 1,
{
}

proof fn lemma_low_bits_step(a: u128, k: u128)
    by (bit_vector)
    requires
        1 <= k < 128,
    ensures
        a & low_bits(k) == (a & low_bits((k - 1) as u128)) | (((a >> k) & 1) << k),
{
}

proof fn lemma_low_bits_all(a: u128)
    by (bit_vector)
    ensures
        a & low_bits(127) == a,
{
}

/// Two words that agree bit by bit agree in their bits 0 to `k`.
proof fn lemma_low_bits_agree(a: u128, b: u128, k: nat)
    requires
        k < 128,
        forall|i: nat| bit_at(a, i) == bit_at(b, i),
    ensures
        a & low_bits(k as u128) == b & low_bits(k as u128),
    decreases k,
{
    assert(bit_at(a, k) == bit_at(b, k));
    lemma_bit_is_zero_or_one(a, k as u128);
    lemma_bit_is_zero_or_one(b, k as u128);
    if k == 0 {
        lemma_low_bits_base(a);
        lemma_low_bits_base(b);
    } else {
        lemma_low_bits_agree(a, b, (k - 1) as nat);
        lemma_low_bits_step(a, k as u128);
        lemma_low_bits_step(b, k as u128);
    }
}

proof fn lemma_bit_is_zero_or_one(a: u128, k: u128)
    by (bit_vector)
    requires
        k < 128,
    ensures
        (a >> k) & 1 == 0 || (a >> k) & 1 == 1,
{
}

impl Initializer {
    proof fn lemma_contains(self, i: nat)
        ensures
            self@.contains(i) == bit_at(self.bits, i),
    {
        assert(self@ == Set::new(|j: nat| bit_at(self.bits, j)));
    }

    /// Every index that is present lies below [`CAPACITY`].
    pub proof fn lemma_bounded(self, i: nat)
        requires
            self@.contains(i),
        ensures
            i < CAPACITY,
    {
        self.lemma_contains(i);
    }

    /// Two bitmasks that hold the same indices are the same value, bit for bit.
    pub proof fn lemma_view_determines_value(self, other: Initializer)
        requires
            self@ == other@,
        ensures
            self == other,
    {
        assert forall|i: nat| bit_at(self.bits, i) == bit_at(other.bits, i) by {
            self.lemma_contains(i);
            other.lemma_contains(i);
        }
        lemma_low_bits_agree(self.bits, other.bits, 127);
        lemma_low_bits_all(self.bits);
        lemma_low_bits_all(other.bits);
    }

    /// Adds `bit` to the set. Adding an index that is already present changes nothing.
    pub fn set(&mut self, bit: u32)
        requires
            bit < CAPACITY,
        ensures
            final(self)@ == old(self)@.insert(bit as nat),
    {
        let ghost before = self.bits;
        self.bits = self.bits | (1u128 << (bit as u128));
        proof {
            assert forall|i: nat|
                self@.contains(i) == old(self)@.insert(bit as nat).contains(i) by {
                self.lemma_contains(i);
                old(self).lemma_contains(i);
                if i < 128 {
                    lemma_or_bit(before, bit as u128, i as u128);
                }
            }
            assert(self@ =~= old(self)@.insert(bit as nat));
        }
    }

    /// Whether `bit` is in the set.
    pub fn test(&self, bit: u32) -> (present: bool)
        requires
            bit < CAPACITY,
        ensures
            present == self@.contains(bit as nat),
    {
        proof {
            lemma_test_bit(self.bits, bit as u128);
            self.lemma_contains(bit as nat);
        }
        self.bits & (1u128 << (bit as u128)) != 0
    }
}

impl Default for Initializer {
    /// The empty set: no feature is present.
    fn default() -> (value: Initializer)
        ensures
            value@ == Set::<nat>::empty(),
    {
        let value = Initializer { bits: 0 };
        proof {
            assert forall|i: nat| !value@.contains(i) by {
                value.lemma_contains(i);
                if i < 128 {
                    lemma_zero_has_no_bit(i as u128);
                }
            }
            assert(value@ =~= Set::<nat>::empty());
        }
        value
    }
}

/// Adds `bit` to `value` when `enable` holds, and leaves `value` alone otherwise.
pub fn enable_feature(value: &mut Initializer, bit: u32, enable: bool)
    requires
        bit < CAPACITY,
    ensures
        forall|i: nat|
            #[trigger] final(value)@.contains(i) == (old(value)@.contains(i) || (enable && i
                == bit)),
{
    if enable {
        value.set(bit);
    }
}

/// The process-wide memo of one probe result: absent at first, written once,
/// and never changed after that.
pub struct Cache {
    slot: Option<Initializer>,
}

impl Cache {
    /// The bitmask that has been published, if any.
    pub closed spec fn published(&self) -> Option<Initializer> {
        self.slot
    }

    /// What the cache holds after `value` is offered to a cache that held `before`.
    pub open spec fn publish_spec(before: Option<Initializer>, value: Initializer) -> Initializer {
        match before {
            Some(kept) => kept,
            None => value,
        }
    }

    /// A cache in which nothing has been published.
    pub fn new() -> (cache: Cache)
        ensures
            cache.published() is None,
    {
        Cache { slot: None }
    }

    /// The memoized bitmask, or `None` while no probe result has been published.
    pub fn get(&self) -> (found: Option<Initializer>)
        ensures
            found == self.published(),
    {
        self.slot
    }

    /// Offers a probe result. The first offer is stored; every later one is
    /// dropped in favour of what is already there. Returns what the cache holds.
    pub fn publish(&mut self, value: Initializer) -> (kept: Initializer)
        ensures
            kept == Self::publish_spec(old(self).published(), value),
            final(self).published() == Some(kept),
    {
        match self.slot {
            Some(kept) => kept,
            None => {
                self.slot = Some(value);
                value
            },
        }
    }

    /// Whether `bit` is set in the published bitmask. Nothing is set while
    /// the cache is empty.
    pub fn test(&self, bit: u32) -> (present: bool)
        requires
            bit < CAPACITY,
        ensures
            present == match self.published() {
                Some(value) => value@.contains(bit as nat),
                None => false,
            },
    {
        match self.slot {
            Some(value) => value.test(bit),
            None => false,
        }
    }

    /// Once a bitmask is published, later offers never change or replace it.
    pub proof fn lemma_write_once(before: Option<Initializer>, first: Initializer, second: Initializer)
        ensures
            Self::publish_spec(Some(Self::publish_spec(before, first)), second)
                == Self::publish_spec(before, first),
    {
    }
}

} // verus!
