//! The fixed-capacity ring buffer that holds produced audio samples.
//!
//! One sample is produced per solver step whether or not anybody drains it.
//! The buffer is allocated once and never resized; when the consumer falls
//! behind, the oldest sample is overwritten and counted as dropped.
//!
//! The buffer is generic over the sample type: it never looks at a sample, it
//! only stores, orders and hands them out.

use vstd::prelude::*;

verus! {

/// A first-in first-out ring of samples with a fixed capacity.
///
/// The next sample is written `len` slots after the oldest waiting one.
#[derive(Debug)]
pub struct SampleRing<T> {
    buffer: Vec<T>,
    read: usize,
    len: usize,
    dropped: u64,
}

impl<T> SampleRing<T> {
    /// The storage holds at least one slot, the oldest waiting sample sits in
    /// range, and no more samples wait than there are slots.
    #[verifier::type_invariant]
    closed spec fn cursors_in_range(&self) -> bool {
        &&& self.buffer@.len() >= 1
        &&& self.read < self.buffer@.len()
        &&& self.len <= self.buffer@.len()
    }

    /// The waiting samples, oldest first.
    pub closed spec fn contents(&self) -> Seq<T> {
        Seq::new(
            self.len as nat,
            |i: int| self.buffer@[(self.read + i) % (self.buffer@.len() as int)],
        )
    }

    /// Every storage slot, whether or not it holds a waiting sample.
    pub closed spec fn storage(&self) -> Seq<T> {
        self.buffer@
    }

    /// How many samples the ring holds at most.
    pub closed spec fn capacity(&self) -> nat {
        self.buffer@.len()
    }

    /// How many samples have been overwritten before being drained.
    pub closed spec fn dropped_count(&self) -> nat {
        self.dropped as nat
    }
}

impl<T: Copy> SampleRing<T> {
    /// A ring of at least one slot, every slot filled with `fill`, holding
    /// nothing. A requested capacity of zero is raised to one.
    pub fn new(capacity: usize, fill: T) -> (ring: Self)
        ensures
            ring.capacity() == if capacity == 0 { 1 } else { capacity as nat },
            ring.storage() == Seq::new(ring.capacity(), |i: int| fill),
            ring.contents() == Seq::<T>::empty(),
            ring.dropped_count() == 0,
    {
        let capacity = if capacity == 0 { 1 } else { capacity };
        let mut buffer: Vec<T> = Vec::new();
        while buffer.len() < capacity
            invariant
                buffer@.len() <= capacity,
                forall|i: int| 0 <= i < buffer@.len() ==> buffer@[i] == fill,
            decreases capacity - buffer@.len(),
        {
            buffer.push(fill);
        }
        let ring = SampleRing { buffer, read: 0, len: 0, dropped: 0 };
        assert(ring.contents() =~= Seq::<T>::empty());
        assert(ring.storage() =~= Seq::new(ring.capacity(), |i: int| fill));
        ring
    }

    /// Discard every waiting sample, overwrite every storage slot with `fill`,
    /// and forget the dropped count. The capacity is kept, so two rings of one
    /// capacity reset with one fill are identical slot for slot.
    pub fn reset(&mut self, fill: T)
        ensures
            final(self).capacity() == old(self).capacity(),
            final(self).storage() == Seq::new(old(self).capacity(), |i: int| fill),
            final(self).contents() == Seq::<T>::empty(),
            final(self).dropped_count() == 0,
    {
        proof {
            use_type_invariant(&*self);
        }
        let n = self.buffer.len();
        let mut i: usize = 0;
        while i < n
            invariant
                n == self.buffer@.len(),
                n >= 1,
                i <= n,
                self.read < n,
                self.len <= n,
                forall|j: int| 0 <= j < i ==> self.buffer@[j] == fill,
            decreases n - i,
        {
            self.buffer[i] = fill;
            i = i + 1;
        }
        self.read = 0;
        self.len = 0;
        self.dropped = 0;
        assert(self.contents() =~= Seq::<T>::empty());
        assert(self.storage() =~= Seq::new(n as nat, |i: int| fill));
    }

    /// Samples waiting to be drained; never more than the capacity, which is
    /// never zero.
    pub fn available(&self) -> (n: usize)
        ensures
            n as nat == self.contents().len(),
            n as nat <= self.capacity(),
            self.capacity() >= 1,
    {
        proof {
            use_type_invariant(self);
        }
        self.len
    }

    /// Samples overwritten since the last reset because the consumer fell behind.
    pub fn dropped(&self) -> (n: u64)
        ensures
            n as nat == self.dropped_count(),
    {
        self.dropped
    }

    /// The fixed capacity of the ring.
    pub fn capacity_len(&self) -> (n: usize)
        ensures
            n as nat == self.capacity(),
    {
        self.buffer.len()
    }

    /// Append one sample. When the ring is full the oldest sample is
    /// overwritten and counted as dropped.
    pub fn push(&mut self, sample: T)
        requires
            old(self).dropped_count() < u64::MAX,
        ensures
            final(self).capacity() == old(self).capacity(),
            (final(self).contents(), final(self).dropped_count()) == push_result(
                old(self).contents(),
                old(self).dropped_count(),
                old(self).capacity(),
                sample,
            ),
    {
        proof {
            use_type_invariant(&*self);
        }
        let cap = self.buffer.len();
        let ghost before = self.contents();
        let ghost old_read = self.read as int;
        let ghost old_len = self.len as int;
        let ghost c = cap as int;
        // The slot after the newest waiting sample.
        let write = if self.len < cap - self.read {
            self.read + self.len
        } else {
            self.len - (cap - self.read)
        };
        proof {
            lemma_wrap_index(old_read, old_len, c);
        }
        self.buffer[write] = sample;
        if self.len == cap {
            proof {
                lemma_mod_plus_modulus(old_read, c);
            }
            self.read = if self.read + 1 == cap { 0 } else { self.read + 1 };
            self.dropped = self.dropped + 1;
            proof {
                lemma_mod_step(old_read, 0, c);
                vstd::arithmetic::div_mod::lemma_small_mod(old_read as nat, c as nat);
                assert forall|i: int| 0 <= i < self.len implies #[trigger] self.contents()[i]
                    == before.drop_first().push(sample)[i] by {
                    lemma_mod_add_assoc(old_read, 1, i, c);
                    if i + 1 < self.len {
                        lemma_mod_distinct(old_read, 0, i + 1, c);
                    }
                }
                assert(self.contents() =~= before.drop_first().push(sample));
            }
        } else {
            self.len = self.len + 1;
            proof {
                assert forall|i: int| 0 <= i < self.len implies #[trigger] self.contents()[i]
                    == before.push(sample)[i] by {
                    if i < old_len {
                        lemma_mod_distinct(old_read, i, old_len, c);
                    }
                }
                assert(self.contents() =~= before.push(sample));
            }
        }
    }

    /// Move up to `out.len()` waiting samples into the front of `out`, oldest
    /// first, and return how many were moved. Slots of `out` past that count
    /// are left as they were.
    pub fn drain(&mut self, out: &mut [T]) -> (count: usize)
        ensures
            final(self).capacity() == old(self).capacity(),
            final(self).dropped_count() == old(self).dropped_count(),
            count as nat == if old(self).contents().len() <= old(out)@.len() {
                old(self).contents().len()
            } else {
                old(out)@.len()
            },
            final(out)@.len() == old(out)@.len(),
            final(out)@.subrange(0, count as int) == old(self).contents().subrange(0, count as int),
            final(out)@.subrange(count as int, old(out)@.len() as int)
                == old(out)@.subrange(count as int, old(out)@.len() as int),
            final(self).contents() == old(self).contents().subrange(
                count as int,
                old(self).contents().len() as int,
            ),
    {
        proof {
            use_type_invariant(&*self);
        }
        let cap = self.buffer.len();
        let count = if self.len <= out.len() { self.len } else { out.len() };
        let ghost before = self.contents();
        let ghost out0 = out@;
        let ghost read0 = self.read as int;
        proof {
            vstd::arithmetic::div_mod::lemma_small_mod(read0 as nat, cap as nat);
        }
        let mut k: usize = 0;
        while k < count
            invariant
                cap == self.buffer@.len(),
                cap >= 1,
                self.buffer@ == old(self).buffer@,
                count <= before.len(),
                count <= out0.len(),
                k <= count,
                out@.len() == out0.len(),
                self.read < cap,
                self.read as int == (read0 + k) % (cap as int),
                0 <= read0 < cap,
                before.len() <= cap,
                self.len as int == before.len(),
                self.dropped == old(self).dropped,
                forall|j: int| 0 <= j < before.len() ==> #[trigger] before[j]
                    == self.buffer@[(read0 + j) % (cap as int)],
                forall|j: int| 0 <= j < k ==> #[trigger] out@[j] == before[j],
                forall|j: int| k <= j < out0.len() ==> #[trigger] out@[j] == out0[j],
            decreases count - k,
        {
            out[k] = self.buffer[self.read];
            proof {
                lemma_mod_step(read0, k as int, cap as int);
            }
            self.read = if self.read + 1 == cap { 0 } else { self.read + 1 };
            k = k + 1;
        }
        self.len = self.len - count;
        proof {
            let c = cap as int;
            assert(out@.subrange(0, count as int) =~= before.subrange(0, count as int));
            assert(out@.subrange(count as int, out0.len() as int) =~= out0.subrange(
                count as int,
                out0.len() as int,
            ));
            assert forall|i: int| 0 <= i < self.len implies #[trigger] self.contents()[i]
                == before.subrange(count as int, before.len() as int)[i] by {
                lemma_mod_add_assoc(read0, count as int, i, c);
            }
            assert(self.contents() =~= before.subrange(count as int, before.len() as int));
        }
        count
    }
}

/// What one push does to the waiting samples and the dropped count: append
/// when there is room, otherwise overwrite the oldest and count it.
pub open spec fn push_result<T>(contents: Seq<T>, dropped: nat, capacity: nat, sample: T) -> (
    Seq<T>,
    nat,
) {
    if contents.len() < capacity {
        (contents.push(sample), dropped)
    } else {
        (contents.drop_first().push(sample), dropped + 1)
    }
}

/// Pushing every sample of `samples` in order.
pub open spec fn push_all<T>(contents: Seq<T>, dropped: nat, capacity: nat, samples: Seq<T>) -> (
    Seq<T>,
    nat,
)
    decreases samples.len(),
{
    if samples.len() == 0 {
        (contents, dropped)
    } else {
        let prior = push_all(contents, dropped, capacity, samples.drop_last());
        push_result(prior.0, prior.1, capacity, samples.last())
    }
}

/// How many of `total` samples a ring of `capacity` slots can hold.
pub open spec fn kept_count(total: nat, capacity: nat) -> nat {
    if total <= capacity {
        total
    } else {
        capacity
    }
}

/// However many samples are pushed, the ring holds exactly the newest of them
/// (up to its capacity) in the order they were pushed, and every sample that
/// no longer fits is counted as dropped: nothing is lost uncounted.
pub proof fn lemma_ring_keeps_newest<T>(
    contents: Seq<T>,
    dropped: nat,
    capacity: nat,
    samples: Seq<T>,
)
    requires
        capacity >= 1,
        contents.len() <= capacity,
    ensures
        ({
            let total = contents.len() + samples.len();
            let kept = kept_count(total as nat, capacity);
            &&& push_all(contents, dropped, capacity, samples).0 == (contents + samples).subrange(
                total - kept,
                total as int,
            )
            &&& push_all(contents, dropped, capacity, samples).1 == dropped + (total - kept)
        }),
    decreases samples.len(),
{
    let total = contents.len() + samples.len();
    if samples.len() == 0 {
        assert((contents + samples).subrange(0, total as int) =~= contents);
    } else {
        let prefix = samples.drop_last();
        lemma_ring_keeps_newest(contents, dropped, capacity, prefix);
        let t0 = contents.len() + prefix.len();
        let k0 = kept_count(t0 as nat, capacity);
        let prior = push_all(contents, dropped, capacity, prefix);
        let whole = contents + samples;
        assert(contents + prefix =~= whole.subrange(0, t0 as int));
        assert(prior.0 =~= whole.subrange(t0 - k0, t0 as int));
        if t0 < capacity {
            assert(prior.0.push(samples.last()) =~= whole.subrange(0, total as int));
        } else {
            assert(prior.0.drop_first().push(samples.last()) =~= whole.subrange(
                total - capacity,
                total as int,
            ));
        }
    }
}

/// A ring sized for a whole batch loses nothing: as long as no more samples
/// are pushed between drains than the ring has room for, every one of them is
/// kept, in order, and the dropped count does not move.
pub proof fn lemma_ring_loses_nothing_within_capacity<T>(
    contents: Seq<T>,
    dropped: nat,
    capacity: nat,
    samples: Seq<T>,
)
    requires
        contents.len() + samples.len() <= capacity,
    ensures
        push_all(contents, dropped, capacity, samples) == (contents + samples, dropped),
{
    let total = contents.len() + samples.len();
    if capacity == 0 {
        assert(contents + samples =~= contents);
    } else {
        lemma_ring_keeps_newest(contents, dropped, capacity, samples);
        assert((contents + samples).subrange(0, total as int) =~= contents + samples);
    }
}

/// Advancing a cursor by one slot is the same as adding one before wrapping.
proof fn lemma_mod_step(base: int, k: int, c: int)
    requires
        c >= 1,
        base >= 0,
        k >= 0,
    ensures
        (base + k) % c + 1 == c ==> (base + k + 1) % c == 0,
        (base + k) % c + 1 != c ==> (base + k) % c + 1 == (base + k + 1) % c,
{
    vstd::arithmetic::div_mod::lemma_add_mod_noop(base + k, 1, c);
    vstd::arithmetic::div_mod::lemma_mod_bound(base + k, c);
    vstd::arithmetic::div_mod::lemma_mod_twice(base + k, c);
    vstd::arithmetic::div_mod::lemma_mod_self_0(c);
    if c > 1 {
        vstd::arithmetic::div_mod::lemma_small_mod(1nat, c as nat);
        if (base + k) % c + 1 < c {
            vstd::arithmetic::div_mod::lemma_small_mod(((base + k) % c + 1) as nat, c as nat);
        }
    } else {
        vstd::arithmetic::div_mod::lemma_mod_bound(base + k + 1, c);
    }
}

/// The slot `len` places after `read`, wrapped, computed without overflow.
proof fn lemma_wrap_index(read: int, len: int, c: int)
    requires
        0 <= read < c,
        0 <= len <= c,
    ensures
        len < c - read ==> (read + len) % c == read + len,
        len >= c - read ==> (read + len) % c == len - (c - read),
        (read + len) % c < c,
{
    if len < c - read {
        vstd::arithmetic::div_mod::lemma_small_mod((read + len) as nat, c as nat);
    } else {
        vstd::arithmetic::div_mod::lemma_mod_sub_multiples_vanish(read + len, c);
        vstd::arithmetic::div_mod::lemma_small_mod((read + len - c) as nat, c as nat);
    }
}

/// A slot index plus the capacity wraps back to the same slot.
proof fn lemma_mod_plus_modulus(base: int, c: int)
    requires
        c >= 1,
        0 <= base < c,
    ensures
        (base + c) % c == base,
{
    vstd::arithmetic::div_mod::lemma_mod_add_multiples_vanish(base, c);
    vstd::arithmetic::div_mod::lemma_small_mod(base as nat, c as nat);
}

/// `((base + a) % c + b) % c == (base + a + b) % c`.
proof fn lemma_mod_add_assoc(base: int, a: int, b: int, c: int)
    requires
        c >= 1,
        base >= 0,
        a >= 0,
        b >= 0,
    ensures
        ((base + a) % c + b) % c == (base + a + b) % c,
{
    vstd::arithmetic::div_mod::lemma_add_mod_noop(base + a, b, c);
    vstd::arithmetic::div_mod::lemma_mod_twice(base + a, c);
    vstd::arithmetic::div_mod::lemma_add_mod_noop((base + a) % c, b, c);
}

/// Distinct offsets less than the capacity apart land on distinct slots.
proof fn lemma_mod_distinct(base: int, i: int, j: int, c: int)
    requires
        c >= 1,
        0 <= base,
        0 <= i < j,
        j - i < c,
    ensures
        (base + i) % c != (base + j) % c,
{
    vstd::arithmetic::div_mod::lemma_fundamental_div_mod(base + i, c);
    vstd::arithmetic::div_mod::lemma_fundamental_div_mod(base + j, c);
    if (base + i) % c == (base + j) % c {
        let qi = (base + i) / c;
        let qj = (base + j) / c;
        assert(c * (qj - qi) == j - i) by (nonlinear_arith)
            requires
                base + i == c * qi + (base + i) % c,
                base + j == c * qj + (base + j) % c,
                (base + i) % c == (base + j) % c,
        ;
        assert(false) by (nonlinear_arith)
            requires
                c * (qj - qi) == j - i,
                0 < j - i < c,
        ;
    }
}

} // verus!
