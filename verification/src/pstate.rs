#![allow(non_camel_case_types, non_snake_case)]
use vstd::prelude::*;
use core::marker::PhantomData;
use crate::types::{Range, KilohertzDelta, MicrovoltsDelta};

verus! {

/// An offset of a performance state parameter and the range it may take.
#[derive(Copy, Clone, Debug, PartialEq, Eq, Structural)]
pub struct NV_GPU_PERF_PSTATES20_PARAM_DELTA {
    pub value: i32,
    pub min: i32,
    pub max: i32,
}

/// An offset of a performance state parameter.
#[derive(Copy, Clone, Debug, PartialEq, Eq, Structural)]
pub enum PStateDelta {
    V1(NV_GPU_PERF_PSTATES20_PARAM_DELTA),
}

impl PStateDelta {
    pub fn value(&self) -> (r: i32)
        ensures
            r == (match *self { PStateDelta::V1(d) => d.value }),
    {
        match self {
            PStateDelta::V1(d) => d.value,
        }
    }

    pub fn range(&self) -> (r: Range<i32>)
        ensures
            r == (match *self { PStateDelta::V1(d) => Range { min: d.min, max: d.max } }),
    {
        match self {
            PStateDelta::V1(d) => Range { min: d.min, max: d.max },
        }
    }
}

/// An offset in the unit `T`.
pub struct Delta<T> {
    pub data: PStateDelta,
    pub unit: PhantomData<T>,
}

impl<T> Delta<T> {
    pub fn new(data: PStateDelta) -> (r: Self)
        ensures
            r.data == data,
    {
        Delta { data, unit: PhantomData }
    }
}

impl<T: From<i32>> Delta<T> {
    /// The offset in its unit.
    pub fn value(&self) -> (r: T)
        ensures
            call_ensures(T::from, (match self.data { PStateDelta::V1(d) => d.value },), r),
    {
        T::from(self.data.value())
    }

    /// The range of the offset in its unit.
    pub fn range(&self) -> (r: Range<T>)
        ensures
            call_ensures(T::from, (match self.data { PStateDelta::V1(d) => d.min },), r.min),
            call_ensures(T::from, (match self.data { PStateDelta::V1(d) => d.max },), r.max),
    {
        let range = self.data.range();
        Range { min: T::from(range.min), max: T::from(range.max) }
    }
}

impl Delta<KilohertzDelta> {
    /// The frequency offset.
    pub fn frequency(&self) -> (r: KilohertzDelta)
        ensures
            r == KilohertzDelta(match self.data { PStateDelta::V1(d) => d.value }),
    {
        KilohertzDelta(self.data.value())
    }
}

impl Delta<MicrovoltsDelta> {
    /// The voltage offset.
    pub fn voltage(&self) -> (r: MicrovoltsDelta)
        ensures
            r == MicrovoltsDelta(match self.data { PStateDelta::V1(d) => d.value }),
    {
        MicrovoltsDelta(self.data.value())
    }
}

} // verus!
