use vstd::prelude::*;

verus! {

/// Whether bit `j` of the little-endian bit array held in `mask` is set: bit
/// `j % 32` of word `j / 32`.
pub open spec fn mask_bit(mask: Seq<u32>, j: int) -> bool {
    (mask[j / 32] >> ((j % 32) as u32)) & 1u32 == 1u32
}

/// Testing bit `b` of a word through `1 << b` agrees with `mask_bit`.
pub proof fn lemma_bit_test(x: u32, b: u32)
    requires
        b < 32,
    ensures
        ((x & (1u32 << b)) != 0u32) == ((x >> b) & 1u32 == 1u32),
{
    assert(((x & (1u32 << b)) != 0u32) == ((x >> b) & 1u32 == 1u32)) by (bit_vector)
        requires b < 32u32;
}

/// Setting bit `b` of a word sets that bit and leaves the others.
pub proof fn lemma_bit_set(x: u32, b: u32, c: u32)
    requires
        b < 32,
        c < 32,
    ensures
        ((x | (1u32 << b)) >> c) & 1u32 == 1u32 <==> (c == b || (x >> c) & 1u32 == 1u32),
{
    assert(((x | (1u32 << b)) >> c) & 1u32 == 1u32 <==> (c == b || (x >> c) & 1u32 == 1u32)) by (bit_vector)
        requires b < 32u32, c < 32u32;
}

/// A bit mask of `32 * N` clock entries (vf points) in `N` words.
#[derive(Copy, Clone, Debug, PartialEq, Eq)]
pub struct ClockMask<const N: usize> {
    pub mask: [u32; N],
}

impl<const N: usize> ClockMask<N> {
    /// Whether bit `bit` is set.
    pub fn get_bit(&self, bit: usize) -> (r: bool)
        requires
            bit < 32 * N,
        ensures
            r == mask_bit(self.mask@, bit as int),
    {
        let mut i: usize = 0;
        let mut b: usize = bit;
        while b >= 32
            invariant
                i * 32 + b == bit,
                bit < 32 * N,
            decreases b,
        {
            i = i + 1;
            b = b - 32;
        }
        assert(i == bit / 32 && b == bit % 32);
        proof {
            lemma_bit_test(self.mask@[i as int], b as u32);
        }
        self.mask[i] & (1u32 << (b as u32)) != 0
    }

    /// Sets bit `bit`, leaving every other bit as it was.
    pub fn set_bit(&mut self, bit: usize)
        requires
            bit < 32 * N,
        ensures
            forall|j: int| 0 <= j < 32 * N ==>
                #[trigger] mask_bit(final(self).mask@, j) == (j == bit || mask_bit(old(self).mask@, j)),
    {
        let mut i: usize = 0;
        let mut b: usize = bit;
        while b >= 32
            invariant
                i * 32 + b == bit,
                bit < 32 * N,
            decreases b,
        {
            i = i + 1;
            b = b - 32;
        }
        assert(i == bit / 32 && b == bit % 32);
        let ghost old_mask = self.mask@;
        assert(old_mask == old(self).mask@);
        let w = self.mask[i];
        self.mask[i] = w | (1u32 << (b as u32));
        assert(self.mask@ == old_mask.update(i as int, w | (1u32 << (b as u32))));
        assert forall|j: int| 0 <= j < 32 * N implies
            #[trigger] mask_bit(self.mask@, j) == (j == bit || mask_bit(old_mask, j)) by {
            let wi = j / 32;
            let c = (j % 32) as u32;
            if wi == i {
                lemma_bit_set(w, b as u32, c);
                assert(j == bit <==> c == b as u32);
            } else {
                assert(self.mask@[wi] == old_mask[wi]);
                assert(j != bit);
            }
        }
    }

    /// An iterator over the indices of the set bits, in increasing order.
    pub fn iter(&self) -> (r: ClockMaskIter<'_>)
        requires
            32 * N <= usize::MAX,
        ensures
            r.mask@ == self.mask@,
            r.offset == 0,
            r.wf(),
    {
        ClockMaskIter::new(self.mask.as_slice())
    }

    /// Pairs each set bit `i`, in increasing order, with `entries[i]`.
    pub fn index<T: Copy>(&self, entries: &[T]) -> (r: Vec<(usize, T)>)
        requires
            32 * N <= usize::MAX,
            forall|j: int| 0 <= j < 32 * N && mask_bit(self.mask@, j) ==> j < entries@.len(),
        ensures
            r@.len() == mask_indices(self.mask@, 32 * N).len(),
            forall|t: int| 0 <= t < r@.len() ==> {
                &&& r@[t].0 == mask_indices(self.mask@, 32 * N)[t]
                &&& r@[t].1 == entries@[r@[t].0 as int]
            },
    {
        let ghost orig = self.mask@;
        let mut it = self.iter();
        let mut out: Vec<(usize, T)> = Vec::new();
        loop
            invariant
                it.wf(),
                orig == self.mask@,
                orig.len() == N,
                32 * N <= usize::MAX,
                it.offset <= 32 * N,
                it.mask@ == orig.skip((it.offset / 32) as int),
                forall|j: int| 0 <= j < 32 * N && mask_bit(orig, j) ==> j < entries@.len(),
                out@.len() == mask_indices(orig, it.offset as int).len(),
                forall|t: int| 0 <= t < out@.len() ==> {
                    &&& out@[t].0 == mask_indices(orig, it.offset as int)[t]
                    &&& out@[t].1 == entries@[out@[t].0 as int]
                },
            ensures
                out@.len() == mask_indices(orig, 32 * N).len(),
                forall|t: int| 0 <= t < out@.len() ==> {
                    &&& out@[t].0 == mask_indices(orig, 32 * N)[t]
                    &&& out@[t].1 == entries@[out@[t].0 as int]
                },
            decreases 32 * N - it.offset,
        {
            let ghost prev = it;
            proof {
                lemma_iter_bits_global(orig, prev);
            }
            match it.next() {
                None => {
                    proof {
                        assert forall|j: int| prev.offset <= j < 32 * N implies !mask_bit(orig, j) by {
                            assert(prev.iter_bit(j) == mask_bit(orig, j));
                        }
                        lemma_mask_indices_gap(orig, prev.offset as int, 32 * N);
                    }
                    return out;
                },
                Some(k) => {
                    proof {
                        assert(prev.iter_bit(k as int) == mask_bit(orig, k as int));
                        assert forall|j: int| prev.offset <= j < k implies !mask_bit(orig, j) by {
                            assert(prev.iter_bit(j) == mask_bit(orig, j));
                        }
                        lemma_mask_indices_gap(orig, prev.offset as int, k as int);
                        lemma_mask_indices_bound(orig, k as int);
                        assert(orig.skip((prev.offset / 32) as int).skip(((k + 1) / 32 - prev.offset / 32) as int)
                            =~= orig.skip(((k + 1) / 32) as int));
                    }
                    out.push((k, entries[k]));
                },
            }
        }
    }
}

/// The indices below `n` of the set bits of `mask`, in increasing order.
pub open spec fn mask_indices(mask: Seq<u32>, n: int) -> Seq<int>
    decreases n,
{
    if n <= 0 {
        Seq::empty()
    } else if mask_bit(mask, n - 1) {
        mask_indices(mask, n - 1).push(n - 1)
    } else {
        mask_indices(mask, n - 1)
    }
}

/// No set bit lies in `[a, b)`, so the indices below `b` are those below `a`.
pub proof fn lemma_mask_indices_gap(mask: Seq<u32>, a: int, b: int)
    requires
        0 <= a <= b,
        forall|j: int| a <= j < b ==> !mask_bit(mask, j),
    ensures
        mask_indices(mask, b) == mask_indices(mask, a),
    decreases b - a,
{
    if a < b {
        lemma_mask_indices_gap(mask, a, b - 1);
    }
}

/// Every index below `n` of a set bit is listed, and every listed index is a
/// set bit below `n`, in strictly increasing order.
pub proof fn lemma_mask_indices_bound(mask: Seq<u32>, n: int)
    requires
        0 <= n,
    ensures
        forall|t: int| 0 <= t < mask_indices(mask, n).len() ==> {
            &&& 0 <= #[trigger] mask_indices(mask, n)[t] < n
            &&& mask_bit(mask, mask_indices(mask, n)[t])
        },
        forall|s: int, t: int| 0 <= s < t < mask_indices(mask, n).len() ==>
            mask_indices(mask, n)[s] < mask_indices(mask, n)[t],
        forall|j: int| 0 <= j < n && mask_bit(mask, j) ==>
            mask_indices(mask, n).contains(j),
    decreases n,
{
    if n > 0 {
        lemma_mask_indices_bound(mask, n - 1);
        let prev = mask_indices(mask, n - 1);
        if mask_bit(mask, n - 1) {
            assert(mask_indices(mask, n) == prev.push(n - 1));
            assert forall|j: int| 0 <= j < n && mask_bit(mask, j) implies
                mask_indices(mask, n).contains(j) by {
                if j < n - 1 {
                    let t = choose|t: int| 0 <= t < prev.len() && prev[t] == j;
                    assert(mask_indices(mask, n)[t] == j);
                } else {
                    assert(mask_indices(mask, n)[prev.len() as int] == j);
                }
            }
        }
    }
}

/// In terms of the initial words `orig`, bit `k` of an iterator positioned on
/// `orig.skip(offset / 32)` is bit `k` of `orig`.
proof fn lemma_iter_bits_global(orig: Seq<u32>, it: ClockMaskIter)
    requires
        it.mask@ == orig.skip((it.offset / 32) as int),
        it.offset / 32 <= orig.len(),
    ensures
        forall|k: int| it.offset - it.offset % 32 <= k < 32 * orig.len() ==> #[trigger] it.iter_bit(k) == mask_bit(orig, k),
{
    assert forall|k: int| it.offset - it.offset % 32 <= k < 32 * orig.len() implies #[trigger] it.iter_bit(k) == mask_bit(orig, k) by {
        let c = (it.offset / 32) as int;
        let base = it.offset - it.offset % 32;
        assert(base == 32 * c);
        let j = k - base;
        assert(j / 32 == k / 32 - c);
        assert(j % 32 == k % 32);
        assert(it.mask@[j / 32] == orig[k / 32]);
    }
}

/// An iterator over the set bits of a mask of words, in increasing order.
#[derive(Copy, Clone)]
pub struct ClockMaskIter<'a> {
    pub mask: &'a [u32],
    pub offset: usize,
}

impl<'a> ClockMaskIter<'a> {
    /// The global index of bit 0 of the first word still held.
    pub open spec fn base(self) -> int {
        self.offset - self.offset % 32
    }

    /// Whether the bit at global index `k` (at or after `base`) is set.
    pub open spec fn iter_bit(self, k: int) -> bool {
        mask_bit(self.mask@, k - self.base())
    }

    /// The end of the bits still held.
    pub open spec fn end(self) -> int {
        self.base() + 32 * self.mask@.len()
    }

    /// The position cannot overflow while the remaining bits are walked.
    pub open spec fn wf(self) -> bool {
        &&& self.offset <= self.end()
        &&& self.end() <= usize::MAX
    }

    pub fn new(mask: &'a [u32]) -> (r: Self)
        requires
            32 * mask@.len() <= usize::MAX,
        ensures
            r.mask@ == mask@,
            r.offset == 0,
            r.wf(),
    {
        ClockMaskIter { mask, offset: 0 }
    }

    /// The next set bit at or after the current position, if any.
    pub fn next(&mut self) -> (r: Option<usize>)
        requires
            old(self).wf(),
        ensures
            final(self).wf(),
            match r {
                Some(k) => {
                    &&& old(self).offset <= k < old(self).end()
                    &&& old(self).iter_bit(k as int)
                    &&& forall|j: int| old(self).offset <= j < k ==> !old(self).iter_bit(j)
                    &&& final(self).offset == k + 1
                    &&& final(self).mask@ == old(self).mask@.skip(((k + 1) / 32 - old(self).offset / 32) as int)
                },
                None => {
                    &&& forall|j: int| old(self).offset <= j < old(self).end() ==> !old(self).iter_bit(j)
                    &&& final(self).mask@.len() == 0
                    &&& final(self).offset == (if old(self).mask@.len() == 0 { old(self).offset as int } else { old(self).end() })
                },
            },
    {
        let ghost o = *self;
        while self.mask.len() > 0
            invariant_except_break
                *old(self) == o,
                self.wf(),
                o.wf(),
                o.offset <= self.offset <= o.end(),
                self.end() == o.end(),
                self.mask@ == o.mask@.skip((self.offset / 32 - o.offset / 32) as int),
                self.offset / 32 >= o.offset / 32,
                forall|j: int| o.offset <= j < self.offset ==> !o.iter_bit(j),
                forall|j: int| self.base() <= j < self.end() ==> self.iter_bit(j) == o.iter_bit(j),
            ensures
                *old(self) == o,
                self.wf(),
                self.mask@.len() == 0,
                forall|j: int| o.offset <= j < o.end() ==> !o.iter_bit(j),
                self.offset == (if o.mask@.len() == 0 { o.offset as int } else { o.end() }),
            decreases self.end() - self.offset,
        {
            let offset = self.offset;
            let bit = offset % 32;
            proof {
                lemma_bit_test(self.mask@[0], bit as u32);
            }
            let set = self.mask[0] & (1u32 << (bit as u32)) != 0;
            assert(set == self.iter_bit(offset as int));
            let ghost before = *self;
            self.offset = offset + 1;
            if bit == 31 {
                let (_, rest) = self.mask.split_at(1);
                self.mask = rest;
                proof {
                    assert(self.offset / 32 == offset / 32 + 1);
                    assert(self.mask@ =~= o.mask@.skip((self.offset / 32 - o.offset / 32) as int));
                    assert forall|j: int| self.base() <= j < self.end() implies self.iter_bit(j) == o.iter_bit(j) by {
                        assert(before.iter_bit(j) == o.iter_bit(j));
                        assert((j - self.base()) / 32 == (j - before.base()) / 32 - 1);
                        assert((j - self.base()) % 32 == (j - before.base()) % 32);
                    }
                }
            } else {
                assert(self.offset / 32 == offset / 32);
                assert(self.base() == before.base());
            }
            if set {
                assert(old(self).offset <= offset);
                assert(offset < old(self).end());
                assert(old(self).iter_bit(offset as int));
                assert(forall|j: int| old(self).offset <= j < offset ==> !old(self).iter_bit(j));
                assert(self.offset == offset + 1);
                assert(self.mask@ == old(self).mask@.skip(((offset + 1) / 32 - old(self).offset / 32) as int));
                return Some(offset);
            }
        }
        None
    }
}

} // verus!
