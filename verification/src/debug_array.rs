use vstd::prelude::*;

verus! {

/// A large array with a compact debug form.
#[derive(Copy, Clone)]
pub struct Array<T>(pub T);

impl<T> Array<T> {
    pub fn inner(&self) -> (r: &T)
        ensures
            *r == self.0,
    {
        &self.0
    }

    pub fn inner_mut(&mut self) -> (r: &mut T)
        ensures
            *r == old(self).0,
            final(self).0 == *final(r),
    {
        &mut self.0
    }

    pub fn into_inner(self) -> (r: T)
        ensures
            r == self.0,
    {
        self.0
    }
}

/// Fixed-size storage that can be seen as a slice.
pub trait Slice {
    type Item;

    spec fn items(&self) -> Seq<Self::Item>;

    fn as_slice(&self) -> (r: &[Self::Item])
        ensures
            r@ == self.items(),
    ;
}

/// Fixed-size storage that can be filled with default items.
pub trait SliceDefault: Sized + Slice {
    fn default() -> Self;
}

impl<T, const N: usize> Slice for [T; N] {
    type Item = T;

    open spec fn items(&self) -> Seq<T> {
        self@
    }

    fn as_slice(&self) -> (r: &[T]) {
        self.as_slice()
    }
}

} // verus!
