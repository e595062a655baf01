use vstd::prelude::*;

verus! {

/// Value of a set NvAPI boolean.
pub const NV_TRUE: u8 = 1;
/// Value of a cleared NvAPI boolean.
pub const NV_FALSE: u8 = 0;

/// A boolean flag stored in bit 0 of a `u32`, alongside reserved bits.
#[derive(Copy, Clone, Debug, PartialEq, Eq, Structural)]
pub struct BoolU32(pub u32);

impl BoolU32 {
    /// Mask of the flag bit.
    pub const FLAG_MASK: u32 = 1;
    /// Mask of the reserved bits that are kept beside the flag.
    pub const FLAGS_MASK: u32 = 0xfffffffe;

    pub open spec fn spec_get(self) -> bool {
        self.0 & 1 == 1
    }

    pub open spec fn spec_flags(self) -> u32 {
        self.0 & 0xfffffffe
    }

    pub fn with_value(value: u32) -> (r: Self)
        ensures
            r.0 == value,
    {
        BoolU32(value)
    }

    pub fn new(flag: bool, flags: u32) -> (r: Self)
        ensures
            r.0 == (flags & 0xfffffffe) | (if flag { 1u32 } else { 0u32 }),
            r.spec_get() == flag,
            r.spec_flags() == flags & 0xfffffffe,
    {
        let bit: u32 = if flag { NV_TRUE as u32 } else { NV_FALSE as u32 };
        let v = (flags & Self::FLAGS_MASK) | bit;
        assert((((flags & 0xfffffffe) | 1u32) & 1 == 1) && (((flags & 0xfffffffe) | 0u32) & 1 == 0)) by (bit_vector);
        assert((((flags & 0xfffffffe) | 1u32) & 0xfffffffe == flags & 0xfffffffe) && (((flags & 0xfffffffe) | 0u32) & 0xfffffffe == flags & 0xfffffffe)) by (bit_vector);
        BoolU32(v)
    }

    /// The flag bit.
    pub fn get(self) -> (r: bool)
        ensures
            r == self.spec_get(),
    {
        self.value() & Self::FLAG_MASK == NV_TRUE as u32
    }

    /// The reserved bits kept beside the flag.
    pub fn flags(self) -> (r: u32)
        ensures
            r == self.spec_flags(),
    {
        self.value() & Self::FLAGS_MASK
    }

    pub fn value(self) -> (r: u32)
        ensures
            r == self.0,
    {
        self.0
    }

    /// Sets the flag, keeping the reserved bits.
    pub fn set(&mut self, value: bool)
        ensures
            final(self).0 == (old(self).0 & 0xfffffffe) | (if value { 1u32 } else { 0u32 }),
            final(self).spec_get() == value,
            final(self).spec_flags() == old(self).spec_flags(),
    {
        let x = self.0;
        self.0 = x & Self::FLAGS_MASK;
        let bit: u32 = if value { NV_TRUE as u32 } else { NV_FALSE as u32 };
        self.0 = self.0 | bit;
        assert((((x & 0xfffffffe) | 1u32) & 1 == 1) && (((x & 0xfffffffe) | 0u32) & 1 == 0)) by (bit_vector);
        assert((((x & 0xfffffffe) | 1u32) & 0xfffffffe == x & 0xfffffffe) && (((x & 0xfffffffe) | 0u32) & 0xfffffffe == x & 0xfffffffe)) by (bit_vector);
    }
}

/// Setting the flag and reading it back gives the value set, and the reserved
/// bits that were there stay.
pub proof fn lemma_boolu32_set_get(b: BoolU32, flag: bool)
    ensures
        BoolU32((b.0 & 0xfffffffe) | (if flag { 1u32 } else { 0u32 })).spec_get() == flag,
        BoolU32((b.0 & 0xfffffffe) | (if flag { 1u32 } else { 0u32 })).spec_flags() == b.spec_flags(),
{
    let x = b.0;
    assert((((x & 0xfffffffe) | 1u32) & 1 == 1) && (((x & 0xfffffffe) | 0u32) & 1 == 0)) by (bit_vector);
    assert((((x & 0xfffffffe) | 1u32) & 0xfffffffe == x & 0xfffffffe) && (((x & 0xfffffffe) | 0u32) & 0xfffffffe == x & 0xfffffffe)) by (bit_vector);
}

impl From<bool> for BoolU32 {
    fn from(v: bool) -> (r: Self) {
        assert(((0u32 & 0xfffffffe) | 1u32) == 1u32 && ((0u32 & 0xfffffffe) | 0u32) == 0u32) by (bit_vector);
        Self::new(v, 0)
    }
}

impl vstd::std_specs::convert::FromSpecImpl<bool> for BoolU32 {
    open spec fn obeys_from_spec() -> bool {
        true
    }

    open spec fn from_spec(v: bool) -> Self {
        BoolU32(if v { 1u32 } else { 0u32 })
    }
}

impl From<BoolU32> for bool {
    fn from(v: BoolU32) -> (r: bool) {
        v.get()
    }
}

impl vstd::std_specs::convert::FromSpecImpl<BoolU32> for bool {
    open spec fn obeys_from_spec() -> bool {
        true
    }

    open spec fn from_spec(v: BoolU32) -> bool {
        v.spec_get()
    }
}

impl From<u32> for BoolU32 {
    fn from(v: u32) -> (r: Self) {
        BoolU32::with_value(v)
    }
}

impl vstd::std_specs::convert::FromSpecImpl<u32> for BoolU32 {
    open spec fn obeys_from_spec() -> bool {
        true
    }

    open spec fn from_spec(v: u32) -> Self {
        BoolU32(v)
    }
}

impl From<BoolU32> for u32 {
    fn from(v: BoolU32) -> (r: u32) {
        v.value()
    }
}

impl vstd::std_specs::convert::FromSpecImpl<BoolU32> for u32 {
    open spec fn obeys_from_spec() -> bool {
        true
    }

    open spec fn from_spec(v: BoolU32) -> u32 {
        v.0
    }
}

} // verus!
