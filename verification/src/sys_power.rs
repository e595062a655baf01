#![allow(non_camel_case_types, non_snake_case)]
use vstd::prelude::*;
use crate::version::NvVersion;
use crate::clock_mask::{ClockMask, mask_bit, mask_indices};

verus! {

/// A point of a voltage/frequency curve.
#[derive(Copy, Clone, Debug, PartialEq, Eq, Structural, Hash)]
pub struct NV_GPU_CLOCK_CLIENT_CLK_VF_POINT {
    pub freq_kHz: u32,
    pub voltage_uV: u32,
}

impl NV_GPU_CLOCK_CLIENT_CLK_VF_POINT {
    /// `None` for the all-zero point, which stands for "no point".
    pub fn to_option(&self) -> (r: Option<Self>)
        ensures
            (self.freq_kHz == 0 && self.voltage_uV == 0) ==> r == None::<Self>,
            !(self.freq_kHz == 0 && self.voltage_uV == 0) ==> r == Some(*self),
    {
        if self.freq_kHz == 0 && self.voltage_uV == 0 {
            None
        } else {
            Some(*self)
        }
    }
}

/// The status of one vf point (version 1).
#[derive(Copy, Clone, Debug, PartialEq, Eq, Structural, Hash)]
pub struct NV_GPU_CLOCK_CLIENT_CLK_VF_POINT_STATUS_V1 {
    pub clock_type: u32,
    pub point: NV_GPU_CLOCK_CLIENT_CLK_VF_POINT,
}

/// The status of one vf point (version 3), with the default and overclocked points.
#[derive(Copy, Clone, Debug, PartialEq, Eq, Structural, Hash)]
pub struct NV_GPU_CLOCK_CLIENT_CLK_VF_POINT_STATUS_V3 {
    pub clock_type: u32,
    pub point: NV_GPU_CLOCK_CLIENT_CLK_VF_POINT,
    pub point_default: NV_GPU_CLOCK_CLIENT_CLK_VF_POINT,
    pub point_overclocked: NV_GPU_CLOCK_CLIENT_CLK_VF_POINT,
}

impl NV_GPU_CLOCK_CLIENT_CLK_VF_POINT_STATUS_V3 {
    /// The overclocked point if there is one, otherwise the current point.
    pub fn point_configured(&self) -> (r: NV_GPU_CLOCK_CLIENT_CLK_VF_POINT)
        ensures
            (self.point_overclocked.freq_kHz == 0 && self.point_overclocked.voltage_uV == 0) ==> r == self.point,
            !(self.point_overclocked.freq_kHz == 0 && self.point_overclocked.voltage_uV == 0) ==> r == self.point_overclocked,
    {
        match self.point_overclocked.to_option() {
            Some(p) => p,
            None => self.point,
        }
    }
}

/// The entries of `points` at the indices of the set bits of `mask`, in order.
pub open spec fn masked_points<T>(mask: Seq<u32>, points: Seq<T>) -> Seq<T> {
    mask_indices(mask, 256).map_values(|i: int| points[i])
}

/// Whether every set bit of a 256-bit mask indexes one of 255 points.
pub open spec fn mask_fits_points(mask: Seq<u32>) -> bool {
    forall|j: int| 0 <= j < 256 && mask_bit(mask, j) ==> j < 255
}

fn select_points<T: Copy>(mask: &ClockMask<8>, points: &[T; 255]) -> (r: Vec<T>)
    requires
        mask_fits_points(mask.mask@),
    ensures
        r@ == masked_points(mask.mask@, points@),
{
    let pairs = mask.index(points.as_slice());
    let mut out: Vec<T> = Vec::new();
    let mut i: usize = 0;
    while i < pairs.len()
        invariant
            i <= pairs@.len(),
            pairs@.len() == mask_indices(mask.mask@, 256).len(),
            forall|t: int| 0 <= t < pairs@.len() ==> {
                &&& pairs@[t].0 == mask_indices(mask.mask@, 256)[t]
                &&& pairs@[t].1 == points@[pairs@[t].0 as int]
            },
            out@ == masked_points(mask.mask@, points@).take(i as int),
        decreases pairs@.len() - i,
    {
        out.push(pairs[i].1);
        i = i + 1;
        assert(out@ =~= masked_points(mask.mask@, points@).take(i as int));
    }
    assert(out@ =~= masked_points(mask.mask@, points@));
    out
}

/// The vf curve of a GPU (version 1).
#[derive(Copy, Clone, Debug, PartialEq, Eq)]
pub struct NV_GPU_CLOCK_CLIENT_CLK_VF_POINTS_STATUS_V1 {
    pub version: NvVersion,
    pub mask: ClockMask<8>,
    pub points: [NV_GPU_CLOCK_CLIENT_CLK_VF_POINT_STATUS_V1; 255],
}

impl NV_GPU_CLOCK_CLIENT_CLK_VF_POINTS_STATUS_V1 {
    /// The points that the mask selects, in index order.
    pub fn points(&self) -> (r: Vec<NV_GPU_CLOCK_CLIENT_CLK_VF_POINT_STATUS_V1>)
        requires
            mask_fits_points(self.mask.mask@),
        ensures
            r@ == masked_points(self.mask.mask@, self.points@),
    {
        select_points(&self.mask, &self.points)
    }

    /// The points that the mask selects, in index order.
    pub fn into_points(self) -> (r: Vec<NV_GPU_CLOCK_CLIENT_CLK_VF_POINT_STATUS_V1>)
        requires
            mask_fits_points(self.mask.mask@),
        ensures
            r@ == masked_points(self.mask.mask@, self.points@),
    {
        select_points(&self.mask, &self.points)
    }
}

/// The vf curve of a GPU (version 3).
#[derive(Copy, Clone, Debug, PartialEq, Eq)]
pub struct NV_GPU_CLOCK_CLIENT_CLK_VF_POINTS_STATUS_V3 {
    pub version: NvVersion,
    pub mask: ClockMask<8>,
    pub points: [NV_GPU_CLOCK_CLIENT_CLK_VF_POINT_STATUS_V3; 255],
}

impl NV_GPU_CLOCK_CLIENT_CLK_VF_POINTS_STATUS_V3 {
    /// The points that the mask selects, in index order.
    pub fn points(&self) -> (r: Vec<NV_GPU_CLOCK_CLIENT_CLK_VF_POINT_STATUS_V3>)
        requires
            mask_fits_points(self.mask.mask@),
        ensures
            r@ == masked_points(self.mask.mask@, self.points@),
    {
        select_points(&self.mask, &self.points)
    }

    /// The points that the mask selects, in index order.
    pub fn into_points(self) -> (r: Vec<NV_GPU_CLOCK_CLIENT_CLK_VF_POINT_STATUS_V3>)
        requires
            mask_fits_points(self.mask.mask@),
        ensures
            r@ == masked_points(self.mask.mask@, self.points@),
    {
        select_points(&self.mask, &self.points)
    }
}

/// The status of one power policy (version 1).
#[derive(Copy, Clone, Debug, PartialEq, Eq, Structural, Hash)]
pub struct NV_GPU_CLIENT_POWER_POLICY_STATUS_V1 {
    pub policy_id: i32,
    pub b: u32,
    pub power_target: u32,
    pub d: u32,
}

/// The status of one power policy (version 2).
#[derive(Copy, Clone, Debug, PartialEq, Eq, Structural, Hash)]
pub struct NV_GPU_CLIENT_POWER_POLICY_STATUS_V2 {
    pub policy_id: i32,
    pub flags: u32,
    pub power_target: u32,
}

impl NV_GPU_CLIENT_POWER_POLICY_STATUS_V2 {
    /// A policy entry with a power target, its flags cleared.
    pub fn with_target(policy_id: i32, power_target: u32) -> (r: Self)
        ensures
            r == (NV_GPU_CLIENT_POWER_POLICY_STATUS_V2 { policy_id, flags: 0, power_target }),
    {
        NV_GPU_CLIENT_POWER_POLICY_STATUS_V2 { policy_id, flags: 0, power_target }
    }

    /// The version 2 entry of a version 1 entry.
    pub fn from_v1(entry: NV_GPU_CLIENT_POWER_POLICY_STATUS_V1) -> (r: Self)
        ensures
            r == (NV_GPU_CLIENT_POWER_POLICY_STATUS_V2 { policy_id: entry.policy_id, flags: 0, power_target: entry.power_target }),
    {
        Self::with_target(entry.policy_id, entry.power_target)
    }

    /// Sets bit 0 of the flags, keeping the others.
    pub fn set_flag(&mut self, value: bool)
        ensures
            final(self).flags == (old(self).flags & 0xfffffffe) | (if value { 1u32 } else { 0u32 }),
            final(self).policy_id == old(self).policy_id,
            final(self).power_target == old(self).power_target,
    {
        self.flags = self.flags & 0xfffffffe | if value { 1 } else { 0 }
    }
}

} // verus!
