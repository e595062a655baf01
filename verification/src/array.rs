use vstd::prelude::*;
use crate::status::ArgumentRangeError;
use core::ops::Range;

verus! {

/// One end of the range of entries that a count selects.
#[derive(Copy, Clone, Debug, PartialEq, Eq, Structural)]
pub enum CountBound {
    Unbounded,
    Included(usize),
    Excluded(usize),
}

/// The range of entries of an array that hold data (`..count` in the common case).
#[derive(Copy, Clone, Debug, PartialEq, Eq, Structural)]
pub struct CountRange {
    pub start: CountBound,
    pub end: CountBound,
}

impl CountRange {
    /// The first `end` entries (`..end`).
    pub fn to(end: usize) -> (r: Self)
        ensures
            r == (CountRange { start: CountBound::Unbounded, end: CountBound::Excluded(end) }),
    {
        CountRange { start: CountBound::Unbounded, end: CountBound::Excluded(end) }
    }

    /// The entries `start..end`.
    pub fn between(start: usize, end: usize) -> (r: Self)
        ensures
            r == (CountRange { start: CountBound::Included(start), end: CountBound::Excluded(end) }),
    {
        CountRange { start: CountBound::Included(start), end: CountBound::Excluded(end) }
    }

    /// Every entry (`..`).
    pub fn full() -> (r: Self)
        ensures
            r == (CountRange { start: CountBound::Unbounded, end: CountBound::Unbounded }),
    {
        CountRange { start: CountBound::Unbounded, end: CountBound::Unbounded }
    }
}

/// `x + 1`, saturating at `usize::MAX`.
pub open spec fn sat_succ(x: usize) -> usize {
    if x == usize::MAX { x } else { (x + 1) as usize }
}

/// The first index that a count selects.
pub open spec fn count_start(c: CountRange) -> usize {
    match c.start {
        CountBound::Unbounded => 0,
        CountBound::Included(i) => i,
        CountBound::Excluded(i) => sat_succ(i),
    }
}

/// The index past the last one that a count selects, for `data_len` entries.
pub open spec fn count_end(c: CountRange, data_len: usize) -> usize {
    match c.end {
        CountBound::Unbounded => data_len,
        CountBound::Excluded(i) => i,
        CountBound::Included(i) => sat_succ(i),
    }
}

/// The bounds that `count` selects among `data_len` entries, before clamping.
pub(crate) fn count_range_(count: &CountRange, data_len: usize) -> (r: Range<usize>)
    ensures
        r.start == count_start(*count),
        r.end == count_end(*count, data_len),
{
    Range {
        start: match count.start {
            CountBound::Unbounded => 0,
            CountBound::Included(i) => i,
            CountBound::Excluded(i) => i.saturating_add(1),
        },
        end: match count.end {
            CountBound::Unbounded => data_len,
            CountBound::Excluded(i) => i,
            CountBound::Included(i) => i.saturating_add(1),
        },
    }
}

/// A fixed-size sequence of entries.
pub trait ArrayLike {
    type Element;

    spec fn elements(&self) -> Seq<Self::Element>;

    fn len(&self) -> (r: usize)
        ensures
            r == self.elements().len(),
    ;

    fn as_slice(&self) -> (r: &[Self::Element])
        ensures
            r@ == self.elements(),
    ;
}

impl<E, const N: usize> ArrayLike for [E; N] {
    type Element = E;

    open spec fn elements(&self) -> Seq<E> {
        self@
    }

    fn len(&self) -> (r: usize) {
        N
    }

    fn as_slice(&self) -> (r: &[E]) {
        self.as_slice()
    }
}

/// An array whose data is only meaningful in part, as selected by `count`.
#[derive(Copy, Clone, Debug, PartialEq, Eq)]
pub struct Truncated<T> {
    pub data: T,
    pub count: CountRange,
}

impl<T> Truncated<T> {
    pub fn new(data: T, count: CountRange) -> (r: Self)
        ensures
            r.data == data,
            r.count == count,
    {
        Truncated { data, count }
    }
}

/// Whether `count` selects a valid range of `data_len` entries.
pub open spec fn count_valid(count: CountRange, data_len: usize) -> bool {
    count_start(count) <= count_end(count, data_len) && count_end(count, data_len) <= data_len
}

/// `x` clamped to at most `y`.
pub open spec fn min_usize(x: usize, y: usize) -> usize {
    if x <= y { x } else { y }
}

impl<T: ArrayLike> Truncated<T> {
    pub open spec fn data_len(&self) -> usize {
        self.data.elements().len() as usize
    }

    pub open spec fn spec_start(&self) -> usize {
        min_usize(count_start(self.count), self.data_len())
    }

    pub open spec fn spec_end(&self) -> usize {
        min_usize(count_end(self.count, self.data_len()), self.data_len())
    }

    /// Wraps `data` with `count` whether or not the count is valid.
    pub fn new_with(data: T, count: CountRange) -> (r: Self)
        ensures
            r.data == data,
            r.count == count,
    {
        Self::new(data, count)
    }

    /// Wraps `data` with `count` if the count selects a valid range of it,
    /// otherwise hands `data` back.
    pub fn try_with(data: T, count: CountRange) -> (r: Result<Self, T>)
        requires
            data.elements().len() <= usize::MAX,
        ensures
            count_valid(count, data.elements().len() as usize) ==> r == Ok::<Self, T>(Truncated { data, count }),
            !count_valid(count, data.elements().len() as usize) ==> r == Err::<Self, T>(data),
    {
        let data_len = data.len();
        let range = count_range_(&count, data_len);
        if range.start > range.end || range.end > data_len {
            Err(data)
        } else {
            Ok(Self::new(data, count))
        }
    }

    /// The range of valid entries, clamped to the data.
    pub fn range(&self) -> (r: Range<usize>)
        requires
            self.data.elements().len() <= usize::MAX,
        ensures
            r.start == self.spec_start(),
            r.end == self.spec_end(),
    {
        let data_len = self.data.len();
        let Range { start, end } = count_range_(&self.count, data_len);
        Range {
            start: if start <= data_len { start } else { data_len },
            end: if end <= data_len { end } else { data_len },
        }
    }

    /// The number of valid entries.
    pub fn len(&self) -> (r: usize)
        requires
            self.data.elements().len() <= usize::MAX,
        ensures
            r == (if self.spec_start() <= self.spec_end() { self.spec_end() - self.spec_start() } else { 0 }),
    {
        let range = self.range();
        if range.start <= range.end {
            range.end - range.start
        } else {
            0
        }
    }

    /// The valid entries (the clamped range must not start after it ends).
    pub fn as_slice(&self) -> (r: &[T::Element])
        requires
            self.data.elements().len() <= usize::MAX,
            self.spec_start() <= self.spec_end(),
        ensures
            r@ == self.data.elements().subrange(self.spec_start() as int, self.spec_end() as int),
    {
        let range = self.range();
        let all = self.data.as_slice();
        &all[range]
    }
}

impl<T: ArrayLike> Truncated<T> where T::Element: Copy {
    /// The entries handed out when the truncated array is iterated: the first
    /// `start` entries are skipped and then at most `end` entries are taken,
    /// with `start..end` the clamped range.
    pub fn into_items(self) -> (r: Vec<T::Element>)
        requires
            self.data.elements().len() <= usize::MAX,
        ensures
            r@ == self.data.elements().skip(self.spec_start() as int).take(
                min_usize(self.spec_end(), (self.data_len() - self.spec_start()) as usize) as int),
    {
        let range = self.range();
        let all = self.data.as_slice();
        let n = all.len();
        let start = range.start;
        let take = range.end;
        let mut out: Vec<T::Element> = Vec::new();
        let mut i: usize = start;
        while i < n && out.len() < take
            invariant
                start <= i <= n,
                n == all@.len(),
                start <= n,
                out@.len() == i - start,
                out@.len() <= take,
                out@ == all@.subrange(start as int, i as int),
            decreases n - i,
        {
            out.push(all[i]);
            i = i + 1;
        }
        assert(out@ =~= all@.skip(start as int).take(min_usize(take, (n - start) as usize) as int));
        out
    }
}

/// An array as stored in an NvAPI struct.
#[derive(Copy, Clone, Debug, PartialEq, Eq)]
pub struct Array<T> {
    pub data: T,
}

impl<T> Array<T> {
    pub fn new(data: T) -> (r: Self)
        ensures
            r.data == data,
    {
        Array { data }
    }

    pub fn into_data(self) -> (r: T)
        ensures
            r == self.data,
    {
        self.data
    }

    pub fn truncated(self, count: CountRange) -> (r: Truncated<Self>)
        ensures
            r.data == self,
            r.count == count,
    {
        Truncated::new(self, count)
    }

    pub fn truncated_ref(&self, count: CountRange) -> (r: Truncated<&Self>)
        ensures
            *r.data == *self,
            r.count == count,
    {
        Truncated::new(self, count)
    }
}

impl<T: ArrayLike> ArrayLike for Array<T> {
    type Element = T::Element;

    open spec fn elements(&self) -> Seq<T::Element> {
        self.data.elements()
    }

    fn len(&self) -> (r: usize) {
        self.data.len()
    }

    fn as_slice(&self) -> (r: &[T::Element]) {
        self.data.as_slice()
    }
}

impl<T: ArrayLike> Array<T> {
    /// The first `count` entries.
    pub fn truncate_to(self, count: usize) -> (r: Truncated<Self>)
        ensures
            r.data == self,
            r.count == CountRange::to_spec(count),
    {
        Truncated::new_with(self, CountRange::to(count))
    }

    /// The first `count` entries, borrowed.
    pub fn truncate_to_ref(&self, count: usize) -> (r: Truncated<&Self>)
        ensures
            *r.data == *self,
            r.count == CountRange::to_spec(count),
    {
        Truncated::new(self, CountRange::to(count))
    }
}

impl CountRange {
    pub open spec fn to_spec(end: usize) -> CountRange {
        CountRange { start: CountBound::Unbounded, end: CountBound::Excluded(end) }
    }
}

/// The number of entries to skip before the range `range` starts.
pub open spec fn iter_skip(range: CountRange) -> usize {
    count_start(range)
}

/// The number of entries that the range `range` takes after the skipped ones.
pub open spec fn iter_take(range: CountRange) -> usize {
    let skip = iter_skip(range);
    match range.end {
        CountBound::Unbounded => usize::MAX,
        CountBound::Excluded(i) => if sat_succ(i) >= skip { (sat_succ(i) - skip) as usize } else { 0 },
        CountBound::Included(i) => if i >= skip { (i - skip) as usize } else { 0 },
    }
}

impl<E: Copy, const N: usize> Array<[E; N]> {
    /// The entries that `range` selects: `skip` entries are skipped and at most
    /// `take` are taken.
    pub fn get_iter(self, range: CountRange) -> (r: Vec<E>)
        ensures
            r@ == self.data@.skip(min_usize(iter_skip(range), N) as int).take(
                min_usize(iter_take(range), (N - min_usize(iter_skip(range), N)) as usize) as int),
    {
        let skip: usize = match range.start {
            CountBound::Unbounded => 0,
            CountBound::Included(i) => i,
            CountBound::Excluded(i) => i.saturating_add(1),
        };
        let take: usize = match range.end {
            CountBound::Unbounded => usize::MAX,
            CountBound::Excluded(i) => i.saturating_add(1).saturating_sub(skip),
            CountBound::Included(i) => i.saturating_sub(skip),
        };
        let mut out: Vec<E> = Vec::new();
        let mut i: usize = if skip < N { skip } else { N };
        let start = i;
        let ghost limit = min_usize(take, (N - start) as usize);
        while i < N && out.len() < take
            invariant
                start <= i <= N,
                out@.len() == i - start,
                out@.len() <= take,
                out@ == self.data@.subrange(start as int, i as int),
                start == min_usize(skip, N),
                skip == iter_skip(range),
                take == iter_take(range),
            decreases N - i,
        {
            out.push(self.data[i]);
            i = i + 1;
        }
        assert(out@ =~= self.data@.skip(start as int).take(min_usize(take, (N - start) as usize) as int));
        out
    }
}

/// Element types whose all-zero bytes make up the value zero.
pub trait ZeroBytes: Copy {
    spec fn spec_is_zero(&self) -> bool;

    fn is_zero(&self) -> (r: bool)
        ensures
            r == self.spec_is_zero(),
    ;
}

impl ZeroBytes for u8 {
    open spec fn spec_is_zero(&self) -> bool {
        *self == 0
    }

    fn is_zero(&self) -> (r: bool) {
        *self == 0
    }
}

impl ZeroBytes for u32 {
    open spec fn spec_is_zero(&self) -> bool {
        *self == 0
    }

    fn is_zero(&self) -> (r: bool) {
        *self == 0
    }
}

impl ZeroBytes for i32 {
    open spec fn spec_is_zero(&self) -> bool {
        *self == 0
    }

    fn is_zero(&self) -> (r: bool) {
        *self == 0
    }
}

/// Whether every entry of `s` is zero.
pub open spec fn all_zero_spec<T: ZeroBytes>(s: Seq<T>) -> bool {
    forall|i: int| 0 <= i < s.len() ==> #[trigger] s[i].spec_is_zero()
}

fn all_zero_slice<T: ZeroBytes>(s: &[T]) -> (r: bool)
    ensures
        r == all_zero_spec(s@),
{
    let mut i: usize = 0;
    while i < s.len()
        invariant
            i <= s@.len(),
            forall|j: int| 0 <= j < i ==> #[trigger] s@[j].spec_is_zero(),
        decreases s@.len() - i,
    {
        if !s[i].is_zero() {
            return false;
        }
        i = i + 1;
    }
    true
}

impl<T: ZeroBytes, const N: usize> Array<[T; N]> {
    /// Whether every byte of the array is zero.
    pub fn all_zero(&self) -> (r: bool)
        ensures
            r == all_zero_spec(self.data@),
    {
        all_zero_slice(self.data.as_slice())
    }

    /// `Ok` when every byte is zero, otherwise an argument range error.
    pub fn check_zero(&self) -> (r: Result<(), ArgumentRangeError>)
        ensures
            all_zero_spec(self.data@) ==> r == Ok::<(), ArgumentRangeError>(()),
            !all_zero_spec(self.data@) ==> r == Err::<(), ArgumentRangeError>(ArgumentRangeError),
    {
        match self.all_zero() {
            true => Ok(()),
            false => Err(ArgumentRangeError),
        }
    }
}

/// Reserved bytes of an NvAPI struct.
#[derive(Copy, Clone, Debug, PartialEq, Eq)]
pub struct Padding<T> {
    pub data: T,
}

impl<T: ZeroBytes, const N: usize> Padding<[T; N]> {
    /// Whether every entry is zero.
    pub fn all_zero(&self) -> (r: bool)
        ensures
            r == all_zero_spec(self.data@),
    {
        all_zero_slice(self.data.as_slice())
    }

    /// `Ok` when every entry is zero, otherwise an argument range error.
    pub fn check_zero(&self) -> (r: Result<(), ArgumentRangeError>)
        ensures
            all_zero_spec(self.data@) ==> r == Ok::<(), ArgumentRangeError>(()),
            !all_zero_spec(self.data@) ==> r == Err::<(), ArgumentRangeError>(ArgumentRangeError),
    {
        match self.all_zero() {
            true => Ok(()),
            false => Err(ArgumentRangeError),
        }
    }
}

} // verus!
