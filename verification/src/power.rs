#![allow(non_camel_case_types, non_snake_case)]
use vstd::prelude::*;
use crate::types::{Percentage1000, Range};
use crate::version::NvVersion;
use crate::sys_thermal::entries_prefix;
use crate::sys_power::{NV_GPU_CLIENT_POWER_POLICY_STATUS_V1, NV_GPU_CLIENT_POWER_POLICY_STATUS_V2};

verus! {

/// Raw power policy id (`PowerPolicyId`).
pub type NV_GPU_CLIENT_POWER_POLICIES_POLICY_ID = i32;

/// The limits of one power policy (version 1); powers in thousandths of a percent.
#[derive(Copy, Clone, Debug, PartialEq, Eq, Structural)]
pub struct NV_GPU_CLIENT_POWER_POLICY_INFO_V1 {
    pub policy_id: NV_GPU_CLIENT_POWER_POLICIES_POLICY_ID,
    pub b: u32,
    pub c: u32,
    pub min_power: u32,
    pub e: u32,
    pub f: u32,
    pub def_power: u32,
    pub h: u32,
    pub i: u32,
    pub max_power: u32,
    pub k: u32,
}

/// The limits of one power policy (version 2); the fields between these are
/// reserved.
#[derive(Copy, Clone, Debug, PartialEq, Eq, Structural)]
pub struct NV_GPU_CLIENT_POWER_POLICY_INFO_V2 {
    pub policy_id: NV_GPU_CLIENT_POWER_POLICIES_POLICY_ID,
    pub min_power: u32,
    pub def_power: u32,
    pub max_power: u32,
}

/// The power policies of a GPU (version 1).
#[derive(Copy, Clone, Debug, PartialEq, Eq)]
pub struct NV_GPU_CLIENT_POWER_POLICIES_INFO_V1 {
    pub version: NvVersion,
    pub valid: u8,
    pub count: u8,
    pub entries: [NV_GPU_CLIENT_POWER_POLICY_INFO_V1; 4],
}

/// The power policies of a GPU (version 2).
#[derive(Copy, Clone, Debug, PartialEq, Eq)]
pub struct NV_GPU_CLIENT_POWER_POLICIES_INFO_V2 {
    pub version: NvVersion,
    pub valid: u8,
    pub count: u8,
    pub entries: [NV_GPU_CLIENT_POWER_POLICY_INFO_V2; 4],
}

/// The power limits of a GPU (version 1).
#[derive(Copy, Clone, Debug, PartialEq, Eq)]
pub struct NV_GPU_CLIENT_POWER_POLICIES_STATUS_V1 {
    pub version: NvVersion,
    pub count: u32,
    pub entries: [NV_GPU_CLIENT_POWER_POLICY_STATUS_V1; 4],
}

/// The power limits of a GPU (version 2).
#[derive(Copy, Clone, Debug, PartialEq, Eq)]
pub struct NV_GPU_CLIENT_POWER_POLICIES_STATUS_V2 {
    pub version: NvVersion,
    pub count: u32,
    pub entries: [NV_GPU_CLIENT_POWER_POLICY_STATUS_V2; 4],
}

/// The limits of one power policy, in the version the driver answered with.
#[derive(Copy, Clone, Debug, PartialEq, Eq, Structural)]
pub enum PowerInfoEntry {
    V2(NV_GPU_CLIENT_POWER_POLICY_INFO_V2),
    V1(NV_GPU_CLIENT_POWER_POLICY_INFO_V1),
}

impl PowerInfoEntry {
    /// The raw policy id.
    pub fn policy(&self) -> (r: NV_GPU_CLIENT_POWER_POLICIES_POLICY_ID)
        ensures
            r == (match *self { PowerInfoEntry::V2(e) => e.policy_id, PowerInfoEntry::V1(e) => e.policy_id }),
    {
        match self {
            PowerInfoEntry::V2(e) => e.policy_id,
            PowerInfoEntry::V1(e) => e.policy_id,
        }
    }

    /// The range the limit may be set in.
    pub fn range(&self) -> (r: Range<Percentage1000>)
        ensures
            r == (match *self {
                PowerInfoEntry::V2(e) => Range { min: Percentage1000(e.min_power), max: Percentage1000(e.max_power) },
                PowerInfoEntry::V1(e) => Range { min: Percentage1000(e.min_power), max: Percentage1000(e.max_power) },
            }),
    {
        match self {
            PowerInfoEntry::V2(e) => Range { min: Percentage1000(e.min_power), max: Percentage1000(e.max_power) },
            PowerInfoEntry::V1(e) => Range { min: Percentage1000(e.min_power), max: Percentage1000(e.max_power) },
        }
    }

    /// The default limit.
    pub fn default_limit(&self) -> (r: Percentage1000)
        ensures
            r == (match *self {
                PowerInfoEntry::V2(e) => Percentage1000(e.def_power),
                PowerInfoEntry::V1(e) => Percentage1000(e.def_power),
            }),
    {
        match self {
            PowerInfoEntry::V2(e) => Percentage1000(e.def_power),
            PowerInfoEntry::V1(e) => Percentage1000(e.def_power),
        }
    }
}

/// The power policies of a GPU, in the version the driver answered with.
#[derive(Copy, Clone, Debug, PartialEq, Eq)]
pub enum PowerInfo {
    V2(NV_GPU_CLIENT_POWER_POLICIES_INFO_V2),
    V1(NV_GPU_CLIENT_POWER_POLICIES_INFO_V1),
}

impl PowerInfo {
    /// Whether the answer is marked valid.
    pub fn valid(&self) -> (r: bool)
        ensures
            r == (match *self { PowerInfo::V2(p) => p.valid != 0, PowerInfo::V1(p) => p.valid != 0 }),
    {
        match self {
            PowerInfo::V2(p) => p.valid != 0,
            PowerInfo::V1(p) => p.valid != 0,
        }
    }

    /// The `count` policies of the answer.
    pub fn into_entries(self) -> (r: Vec<PowerInfoEntry>)
        requires
            match self { PowerInfo::V2(p) => p.count <= 4, PowerInfo::V1(p) => p.count <= 4 },
        ensures
            match self {
                PowerInfo::V2(p) => r@ == Seq::new(p.count as nat, |i: int| PowerInfoEntry::V2(p.entries@[i])),
                PowerInfo::V1(p) => r@ == Seq::new(p.count as nat, |i: int| PowerInfoEntry::V1(p.entries@[i])),
            },
    {
        let mut out: Vec<PowerInfoEntry> = Vec::new();
        match self {
            PowerInfo::V2(p) => {
                let e = entries_prefix(p.entries.as_slice(), p.count as usize);
                let mut i: usize = 0;
                while i < e.len()
                    invariant
                        i <= e@.len(),
                        p.count <= 4,
                        e@ == p.entries@.subrange(0, p.count as int),
                        out@ == Seq::new(i as nat, |j: int| PowerInfoEntry::V2(p.entries@[j])),
                    decreases e@.len() - i,
                {
                    assert(e@[i as int] == p.entries@[i as int]);
                    out.push(PowerInfoEntry::V2(e[i]));
                    i += 1;
                    assert(out@ =~= Seq::new(i as nat, |j: int| PowerInfoEntry::V2(p.entries@[j])));
                }
            },
            PowerInfo::V1(p) => {
                let e = entries_prefix(p.entries.as_slice(), p.count as usize);
                let mut i: usize = 0;
                while i < e.len()
                    invariant
                        i <= e@.len(),
                        p.count <= 4,
                        e@ == p.entries@.subrange(0, p.count as int),
                        out@ == Seq::new(i as nat, |j: int| PowerInfoEntry::V1(p.entries@[j])),
                    decreases e@.len() - i,
                {
                    assert(e@[i as int] == p.entries@[i as int]);
                    out.push(PowerInfoEntry::V1(e[i]));
                    i += 1;
                    assert(out@ =~= Seq::new(i as nat, |j: int| PowerInfoEntry::V1(p.entries@[j])));
                }
            },
        }
        out
    }
}

/// The limit of one power policy, in the version the driver answered with.
#[derive(Copy, Clone, Debug, PartialEq, Eq, Structural)]
pub enum PowerPolicyStatus {
    V2(NV_GPU_CLIENT_POWER_POLICY_STATUS_V2),
    V1(NV_GPU_CLIENT_POWER_POLICY_STATUS_V1),
}

impl PowerPolicyStatus {
    /// The raw policy id.
    pub fn policy(&self) -> (r: NV_GPU_CLIENT_POWER_POLICIES_POLICY_ID)
        ensures
            r == (match *self { PowerPolicyStatus::V2(e) => e.policy_id, PowerPolicyStatus::V1(e) => e.policy_id }),
    {
        match self {
            PowerPolicyStatus::V2(e) => e.policy_id,
            PowerPolicyStatus::V1(e) => e.policy_id,
        }
    }

    /// The power target.
    pub fn power_target(&self) -> (r: Percentage1000)
        ensures
            r == (match *self {
                PowerPolicyStatus::V2(e) => Percentage1000(e.power_target),
                PowerPolicyStatus::V1(e) => Percentage1000(e.power_target),
            }),
    {
        match self {
            PowerPolicyStatus::V2(e) => Percentage1000(e.power_target),
            PowerPolicyStatus::V1(e) => Percentage1000(e.power_target),
        }
    }
}

/// The power limits of a GPU, in the version the driver answered with.
#[derive(Copy, Clone, Debug, PartialEq, Eq)]
pub enum PowerPolicies {
    V2(NV_GPU_CLIENT_POWER_POLICIES_STATUS_V2),
    V1(NV_GPU_CLIENT_POWER_POLICIES_STATUS_V1),
}

impl PowerPolicies {
    /// The `count` limits of the answer.
    pub fn into_entries(self) -> (r: Vec<PowerPolicyStatus>)
        requires
            match self { PowerPolicies::V2(p) => p.count <= 4, PowerPolicies::V1(p) => p.count <= 4 },
        ensures
            match self {
                PowerPolicies::V2(p) => r@ == Seq::new(p.count as nat, |i: int| PowerPolicyStatus::V2(p.entries@[i])),
                PowerPolicies::V1(p) => r@ == Seq::new(p.count as nat, |i: int| PowerPolicyStatus::V1(p.entries@[i])),
            },
    {
        let mut out: Vec<PowerPolicyStatus> = Vec::new();
        match self {
            PowerPolicies::V2(p) => {
                let e = entries_prefix(p.entries.as_slice(), p.count as usize);
                let mut i: usize = 0;
                while i < e.len()
                    invariant
                        i <= e@.len(),
                        p.count <= 4,
                        e@ == p.entries@.subrange(0, p.count as int),
                        out@ == Seq::new(i as nat, |j: int| PowerPolicyStatus::V2(p.entries@[j])),
                    decreases e@.len() - i,
                {
                    assert(e@[i as int] == p.entries@[i as int]);
                    out.push(PowerPolicyStatus::V2(e[i]));
                    i += 1;
                    assert(out@ =~= Seq::new(i as nat, |j: int| PowerPolicyStatus::V2(p.entries@[j])));
                }
            },
            PowerPolicies::V1(p) => {
                let e = entries_prefix(p.entries.as_slice(), p.count as usize);
                let mut i: usize = 0;
                while i < e.len()
                    invariant
                        i <= e@.len(),
                        p.count <= 4,
                        e@ == p.entries@.subrange(0, p.count as int),
                        out@ == Seq::new(i as nat, |j: int| PowerPolicyStatus::V1(p.entries@[j])),
                    decreases e@.len() - i,
                {
                    assert(e@[i as int] == p.entries@[i as int]);
                    out.push(PowerPolicyStatus::V1(e[i]));
                    i += 1;
                    assert(out@ =~= Seq::new(i as nat, |j: int| PowerPolicyStatus::V1(p.entries@[j])));
                }
            },
        }
        out
    }
}

} // verus!
