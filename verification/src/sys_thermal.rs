#![allow(non_camel_case_types, non_snake_case)]
use vstd::prelude::*;
use crate::boolu32::BoolU32;
use crate::version::NvVersion;

verus! {

/// Maximum number of thermal policy entries a GPU reports.
pub const NVAPI_MAX_THERMAL_INFO_ENTRIES: usize = 4;
/// Maximum number of thermal limit entries a GPU reports.
pub const NVAPI_MAX_THERMAL_LIMIT_ENTRIES: usize = 4;

/// Raw thermal policy id (`ThermalPolicyId`).
pub type NV_GPU_CLIENT_THERMAL_POLICIES_POLICY_ID = i32;

/// The first `count` entries of `entries`.
pub fn entries_prefix<T>(entries: &[T], count: usize) -> (r: &[T])
    requires
        count <= entries@.len(),
    ensures
        r@ == entries@.subrange(0, count as int),
{
    &entries[0..count]
}

/// One thermal policy (version 2).
#[derive(Copy, Clone, Debug, PartialEq, Eq, Structural)]
pub struct NV_GPU_CLIENT_THERMAL_POLICIES_INFO_ENTRY_V2 {
    pub policy_id: NV_GPU_CLIENT_THERMAL_POLICIES_POLICY_ID,
    pub unknown: u32,
    pub minTemp: i32,
    pub defaultTemp: i32,
    pub maxTemp: i32,
    pub defaultFlags: u32,
}

/// The thermal policies of a GPU (version 2).
#[derive(Copy, Clone, Debug, PartialEq, Eq)]
pub struct NV_GPU_CLIENT_THERMAL_POLICIES_INFO_V2 {
    pub version: NvVersion,
    pub count: u8,
    pub flags: u8,
    pub entries: [NV_GPU_CLIENT_THERMAL_POLICIES_INFO_ENTRY_V2; 4],
}

impl NV_GPU_CLIENT_THERMAL_POLICIES_INFO_V2 {
    /// The `count` entries that hold data.
    pub fn entries(&self) -> (r: &[NV_GPU_CLIENT_THERMAL_POLICIES_INFO_ENTRY_V2])
        requires
            self.count <= 4,
        ensures
            r@ == self.entries@.subrange(0, self.count as int),
    {
        entries_prefix(self.entries.as_slice(), self.count as usize)
    }
}

/// One point of a performance/frequency throttling curve.
#[derive(Copy, Clone, Debug, PartialEq, Eq, Structural)]
pub struct NV_GPU_CLIENT_PFF_CURVE_POINT_V1 {
    pub enabled: BoolU32,
    pub uiT_Y: u32,
    pub temp: u32,
}

/// A throttling curve of up to three points.
#[derive(Copy, Clone, Debug, PartialEq, Eq)]
pub struct NV_GPU_CLIENT_PFF_CURVE_V1 {
    pub points: [NV_GPU_CLIENT_PFF_CURVE_POINT_V1; 3],
}

/// The number of leading points of `points` that are enabled.
pub open spec fn enabled_prefix_len(points: Seq<NV_GPU_CLIENT_PFF_CURVE_POINT_V1>) -> nat
    decreases points.len(),
{
    if points.len() == 0 {
        0
    } else if points[0].spec_enabled() {
        1 + enabled_prefix_len(points.drop_first())
    } else {
        0
    }
}

impl NV_GPU_CLIENT_PFF_CURVE_POINT_V1 {
    pub open spec fn spec_enabled(self) -> bool {
        self.enabled.spec_get()
    }
}

/// The count of leading enabled points: every point before it is enabled, and
/// the point at it (if any) is not.
pub proof fn lemma_enabled_prefix_len(points: Seq<NV_GPU_CLIENT_PFF_CURVE_POINT_V1>)
    ensures
        enabled_prefix_len(points) <= points.len(),
        forall|i: int| 0 <= i < enabled_prefix_len(points) ==> #[trigger] points[i].spec_enabled(),
        enabled_prefix_len(points) < points.len() ==> !points[enabled_prefix_len(points) as int].spec_enabled(),
    decreases points.len(),
{
    if points.len() > 0 && points[0].spec_enabled() {
        lemma_enabled_prefix_len(points.drop_first());
        assert forall|i: int| 0 <= i < enabled_prefix_len(points) implies #[trigger] points[i].spec_enabled() by {
            if i > 0 {
                assert(points.drop_first()[i - 1] == points[i]);
            }
        }
    }
}

impl NV_GPU_CLIENT_PFF_CURVE_V1 {
    /// The number of leading enabled points.
    pub fn enabled_count(&self) -> (r: usize)
        ensures
            r == enabled_prefix_len(self.points@),
    {
        let mut n: usize = 0;
        proof {
            lemma_enabled_prefix_len(self.points@);
        }
        while n < 3 && self.points[n].enabled.get()
            invariant
                n <= 3,
                n <= enabled_prefix_len(self.points@),
                enabled_prefix_len(self.points@) <= 3,
                forall|i: int| 0 <= i < enabled_prefix_len(self.points@) ==> #[trigger] self.points@[i].spec_enabled(),
                enabled_prefix_len(self.points@) < 3 ==> !self.points@[enabled_prefix_len(self.points@) as int].spec_enabled(),
            decreases 3 - n,
        {
            n = n + 1;
        }
        proof {
            if n < enabled_prefix_len(self.points@) {
                assert(self.points@[n as int].spec_enabled());
                assert(self.points[n as int] == self.points@[n as int]);
            }
        }
        n
    }

    /// The leading enabled points of the curve.
    pub fn points(&self) -> (r: &[NV_GPU_CLIENT_PFF_CURVE_POINT_V1])
        ensures
            r@ == self.points@.subrange(0, enabled_prefix_len(self.points@) as int),
    {
        let count = self.enabled_count();
        proof {
            lemma_enabled_prefix_len(self.points@);
        }
        entries_prefix(self.points.as_slice(), count)
    }
}

/// One thermal policy (version 3).
#[derive(Copy, Clone, Debug, PartialEq, Eq)]
pub struct NV_GPU_CLIENT_THERMAL_POLICY_INFO_V3 {
    pub policy_id: NV_GPU_CLIENT_THERMAL_POLICIES_POLICY_ID,
    pub flags: u32,
    pub unknown: u32,
    pub minTemp: i32,
    pub defaultTemp: i32,
    pub maxTemp: i32,
    pub defaultFlags: u32,
    pub pff_curve: NV_GPU_CLIENT_PFF_CURVE_V1,
}

impl NV_GPU_CLIENT_THERMAL_POLICY_INFO_V3 {
    /// Whether the policy carries a throttling curve.
    pub fn has_pff(&self) -> (r: bool)
        ensures
            r == (self.flags == 1),
    {
        self.flags == 1
    }
}

/// The thermal policies of a GPU (version 3).
#[derive(Copy, Clone, Debug, PartialEq, Eq)]
pub struct NV_GPU_CLIENT_THERMAL_POLICIES_INFO_V3 {
    pub version: NvVersion,
    pub flags: u8,
    pub count: u8,
    pub entries: [NV_GPU_CLIENT_THERMAL_POLICY_INFO_V3; 4],
}

impl NV_GPU_CLIENT_THERMAL_POLICIES_INFO_V3 {
    /// The `count` entries that hold data.
    pub fn entries(&self) -> (r: &[NV_GPU_CLIENT_THERMAL_POLICY_INFO_V3])
        requires
            self.count <= 4,
        ensures
            r@ == self.entries@.subrange(0, self.count as int),
    {
        entries_prefix(self.entries.as_slice(), self.count as usize)
    }

    /// Whether the valid flag is set.
    pub fn valid(&self) -> (r: bool)
        ensures
            r == (self.flags & 1 != 0),
    {
        self.flags & 1 != 0
    }
}

/// One thermal limit (version 2).
#[derive(Copy, Clone, Debug, PartialEq, Eq, Structural)]
pub struct NV_GPU_CLIENT_THERMAL_POLICIES_STATUS_ENTRY_V2 {
    pub policy_id: NV_GPU_CLIENT_THERMAL_POLICIES_POLICY_ID,
    /// Shifted left by 8 bits.
    pub temp_limit_C: u32,
    pub pstate: i32,
}

/// The thermal limits of a GPU (version 2).
#[derive(Copy, Clone, Debug, PartialEq, Eq)]
pub struct NV_GPU_CLIENT_THERMAL_POLICIES_STATUS_V2 {
    pub version: NvVersion,
    pub count: u32,
    pub entries: [NV_GPU_CLIENT_THERMAL_POLICIES_STATUS_ENTRY_V2; 4],
}

impl NV_GPU_CLIENT_THERMAL_POLICIES_STATUS_V2 {
    /// The `count` entries that hold data.
    pub fn entries(&self) -> (r: &[NV_GPU_CLIENT_THERMAL_POLICIES_STATUS_ENTRY_V2])
        requires
            self.count <= 4,
        ensures
            r@ == self.entries@.subrange(0, self.count as int),
    {
        entries_prefix(self.entries.as_slice(), self.count as usize)
    }
}

/// One thermal limit (version 3), with its optional throttling curve.
#[derive(Copy, Clone, Debug, PartialEq, Eq)]
pub struct NV_GPU_CLIENT_THERMAL_POLICY_STATUS_V3 {
    pub policy_id: NV_GPU_CLIENT_THERMAL_POLICIES_POLICY_ID,
    pub flags: u32,
    /// Shifted left by 8 bits.
    pub temp_limit_C: u32,
    pub remove_tdp_limit: BoolU32,
    pub pff_curve: NV_GPU_CLIENT_PFF_CURVE_V1,
    pub pff_freqs: [u32; 3],
}

impl NV_GPU_CLIENT_THERMAL_POLICY_STATUS_V3 {
    /// Whether the limit carries a throttling curve.
    pub fn has_pff(&self) -> (r: bool)
        ensures
            r == (self.flags == 1),
    {
        self.flags == 1
    }

    /// Marks whether the limit carries a throttling curve.
    pub fn set_pff(&mut self, enabled: bool)
        ensures
            final(self).flags == (if enabled { 1u32 } else { 0u32 }),
            *final(self) == (NV_GPU_CLIENT_THERMAL_POLICY_STATUS_V3 { flags: final(self).flags, ..*old(self) }),
    {
        self.flags = if enabled { 1 } else { 0 }
    }

    /// The frequencies of the enabled curve points.
    pub fn pff_freqs(&self) -> (r: &[u32])
        ensures
            r@ == self.pff_freqs@.subrange(0, enabled_prefix_len(self.pff_curve.points@) as int),
    {
        let count = self.pff_curve.points().len();
        proof {
            lemma_enabled_prefix_len(self.pff_curve.points@);
        }
        entries_prefix(self.pff_freqs.as_slice(), count)
    }
}

/// The thermal limits of a GPU (version 3).
#[derive(Copy, Clone, Debug, PartialEq, Eq)]
pub struct NV_GPU_CLIENT_THERMAL_POLICIES_STATUS_V3 {
    pub version: NvVersion,
    pub count: u32,
    pub entries: [NV_GPU_CLIENT_THERMAL_POLICY_STATUS_V3; 4],
}

impl NV_GPU_CLIENT_THERMAL_POLICIES_STATUS_V3 {
    /// The `count` entries that hold data.
    pub fn entries(&self) -> (r: &[NV_GPU_CLIENT_THERMAL_POLICY_STATUS_V3])
        requires
            self.count <= 4,
        ensures
            r@ == self.entries@.subrange(0, self.count as int),
    {
        entries_prefix(self.entries.as_slice(), self.count as usize)
    }
}

} // verus!
