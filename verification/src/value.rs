use vstd::prelude::*;
use crate::status::{Status, ArgumentRangeError, status_code, status_from_raw_spec};
use crate::sys_cooler::{FanArbiterInfoFlags, FanArbiterControlFlags};

verus! {

/// A value of a driver enum or flag set, stored as its raw representation.
pub trait NvValueData: Copy + Sized {
    type Repr: Copy;

    /// The raw representation of the value.
    spec fn spec_repr(self) -> Self::Repr;

    /// The value a raw representation stands for, or a range error.
    spec fn spec_from_repr(value: Self::Repr) -> Result<Self, ArgumentRangeError>;

    fn repr(self) -> (r: Self::Repr)
        ensures
            r == self.spec_repr(),
    ;

    fn from_repr(value: Self::Repr) -> (r: Result<Self, ArgumentRangeError>)
        ensures
            r == Self::spec_from_repr(value),
    ;
}

/// A driver enum: each raw value names at most one variant.
pub trait NvValueEnum: NvValueData {
}

/// A driver flag set: any raw value can be cut down to the known flags.
pub trait NvValueBits: NvValueData {
    /// The known flags of a raw value.
    spec fn spec_from_repr_truncate(value: Self::Repr) -> Self;

    fn from_repr_truncate(value: Self::Repr) -> (r: Self)
        ensures
            r == Self::spec_from_repr_truncate(value),
    ;
}

impl NvValueData for Status {
    type Repr = i32;

    open spec fn spec_repr(self) -> i32 {
        status_code(self)
    }

    open spec fn spec_from_repr(value: i32) -> Result<Status, ArgumentRangeError> {
        status_from_raw_spec(value)
    }

    fn repr(self) -> (r: i32) {
        self.raw()
    }

    fn from_repr(value: i32) -> (r: Result<Status, ArgumentRangeError>) {
        Status::from_raw(value)
    }
}

impl NvValueEnum for Status {
}

impl NvValueData for FanArbiterInfoFlags {
    type Repr = u32;

    open spec fn spec_repr(self) -> u32 {
        self.bits
    }

    /// Only the known flags (bits 0 and 1) make a valid value.
    open spec fn spec_from_repr(value: u32) -> Result<FanArbiterInfoFlags, ArgumentRangeError> {
        if value & 3 == value { Ok(FanArbiterInfoFlags { bits: value }) } else { Err(ArgumentRangeError) }
    }

    fn repr(self) -> (r: u32) {
        self.bits
    }

    fn from_repr(value: u32) -> (r: Result<FanArbiterInfoFlags, ArgumentRangeError>) {
        if value & 3 == value { Ok(FanArbiterInfoFlags { bits: value }) } else { Err(ArgumentRangeError) }
    }
}

impl NvValueBits for FanArbiterInfoFlags {
    open spec fn spec_from_repr_truncate(value: u32) -> FanArbiterInfoFlags {
        FanArbiterInfoFlags { bits: value & 3 }
    }

    fn from_repr_truncate(value: u32) -> (r: FanArbiterInfoFlags) {
        FanArbiterInfoFlags::from_bits_truncate(value)
    }
}

impl NvValueData for FanArbiterControlFlags {
    type Repr = u32;

    open spec fn spec_repr(self) -> u32 {
        self.bits
    }

    /// Only the known flag (bit 0) makes a valid value.
    open spec fn spec_from_repr(value: u32) -> Result<FanArbiterControlFlags, ArgumentRangeError> {
        if value & 1 == value { Ok(FanArbiterControlFlags { bits: value }) } else { Err(ArgumentRangeError) }
    }

    fn repr(self) -> (r: u32) {
        self.bits
    }

    fn from_repr(value: u32) -> (r: Result<FanArbiterControlFlags, ArgumentRangeError>) {
        if value & 1 == value { Ok(FanArbiterControlFlags { bits: value }) } else { Err(ArgumentRangeError) }
    }
}

impl NvValueBits for FanArbiterControlFlags {
    open spec fn spec_from_repr_truncate(value: u32) -> FanArbiterControlFlags {
        FanArbiterControlFlags { bits: value & 1 }
    }

    fn from_repr_truncate(value: u32) -> (r: FanArbiterControlFlags) {
        FanArbiterControlFlags::from_bits_truncate(value)
    }
}

/// Cutting a raw flag word down to the known flags gives a valid value, which
/// converts back to the same word.
pub proof fn lemma_truncate_is_valid(value: u32)
    ensures
        FanArbiterInfoFlags::spec_from_repr(FanArbiterInfoFlags::spec_from_repr_truncate(value).bits)
            == Ok::<FanArbiterInfoFlags, ArgumentRangeError>(FanArbiterInfoFlags::spec_from_repr_truncate(value)),
        FanArbiterControlFlags::spec_from_repr(FanArbiterControlFlags::spec_from_repr_truncate(value).bits)
            == Ok::<FanArbiterControlFlags, ArgumentRangeError>(FanArbiterControlFlags::spec_from_repr_truncate(value)),
{
    assert((value & 3) & 3 == value & 3) by (bit_vector);
    assert((value & 1) & 1 == value & 1) by (bit_vector);
}

} // verus!
