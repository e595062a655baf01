use vstd::prelude::*;

verus! {

/// An NvAPI struct version: the struct's size in bytes in the low 16 bits and
/// its version number in the high 16 bits.
#[derive(Copy, Clone, Debug, PartialEq, Eq, Structural, Hash)]
pub struct NvVersion {
    pub data: u32,
}

/// The packed word for a struct of `size` bytes at version `version`.
pub open spec fn pack_version(size: usize, version: u16) -> u32 {
    (size as u32) | ((version as u32) << 16u32)
}

/// The version number that a packed word holds.
pub open spec fn version_of(data: u32) -> u16 {
    (data >> 16u32) as u16
}

/// The struct size that a packed word holds.
pub open spec fn size_of_version(data: u32) -> usize {
    (data & 0xffffu32) as usize
}

impl NvVersion {
    pub fn with_version(data: u32) -> (r: Self)
        ensures
            r.data == data,
    {
        NvVersion { data }
    }

    /// Packs a size and a version number. A size of `0x10000` bytes or more
    /// spills into the version bits, as in the C macro.
    pub fn new(size: usize, version: u16) -> (r: Self)
        ensures
            r.data == pack_version(size, version),
    {
        NvVersion { data: (size as u32) | ((version as u32) << 16u32) }
    }

    /// The version word of the struct type `T` at version `version`.
    pub fn with_struct<T>(version: u16) -> (r: Self)
        ensures
            r.data == pack_version(vstd::layout::size_of::<T>() as usize, version),
    {
        Self::new(core::mem::size_of::<T>(), version)
    }

    pub fn version(&self) -> (r: u16)
        ensures
            r == version_of(self.data),
    {
        (self.data >> 16u32) as u16
    }

    pub fn size(&self) -> (r: usize)
        ensures
            r == size_of_version(self.data),
    {
        (self.data & 0xffffu32) as usize
    }
}

/// Packing a size below `0x10000` with a version and reading both back gives
/// them unchanged.
pub proof fn lemma_version_roundtrip(size: usize, version: u16)
    requires
        size < 0x10000,
    ensures
        version_of(pack_version(size, version)) == version,
        size_of_version(pack_version(size, version)) == size,
{
    let s = size as u32;
    assert(s < 0x10000u32);
    let v = version as u32;
    assert(v < 0x10000u32);
    assert(((s | (v << 16u32)) >> 16u32) == v) by (bit_vector)
        requires s < 0x10000u32, v < 0x10000u32;
    assert(((s | (v << 16u32)) & 0xffffu32) == s) by (bit_vector)
        requires s < 0x10000u32, v < 0x10000u32;
}

/// Any version word is the packing of the size and version it holds.
pub proof fn lemma_version_unpack_pack(data: u32)
    ensures
        pack_version(size_of_version(data), version_of(data)) == data,
{
    let s = data & 0xffffu32;
    let v = (data >> 16u32) as u16;
    assert(((data & 0xffffu32) | (((data >> 16u32) as u16 as u32) << 16u32)) == data) by (bit_vector);
    assert(size_of_version(data) as u32 == s);
}

/// The version word of the struct type `T` at version `ver`.
#[allow(non_snake_case)]
pub fn MAKE_NVAPI_VERSION<T>(ver: u16) -> (r: u32)
    ensures
        r == pack_version(vstd::layout::size_of::<T>() as usize, ver),
{
    NvVersion::with_struct::<T>(ver).data
}

/// The version number that a version word holds.
#[allow(non_snake_case)]
pub fn GET_NVAPI_VERSION(ver: u32) -> (r: u16)
    ensures
        r == version_of(ver),
{
    NvVersion::with_version(ver).version()
}

/// The struct size that a version word holds.
#[allow(non_snake_case)]
pub fn GET_NVAPI_SIZE(ver: u32) -> (r: usize)
    ensures
        r == size_of_version(ver),
{
    NvVersion::with_version(ver).size()
}

/// A struct that carries its own version word.
pub trait VersionedStruct: Sized {
    /// The version word the struct carries.
    spec fn spec_nvapi_version(&self) -> NvVersion;

    fn nvapi_version(&self) -> (r: NvVersion)
        ensures
            r == self.spec_nvapi_version(),
    ;

    /// The struct with its version word replaced, the other fields kept.
    spec fn spec_with_version(&self, version: NvVersion) -> Self;

    fn set_nvapi_version(&mut self, version: NvVersion)
        ensures
            final(self).spec_nvapi_version() == version,
            *final(self) == old(self).spec_with_version(version),
    ;
}

impl VersionedStruct for NvVersion {
    open spec fn spec_nvapi_version(&self) -> NvVersion {
        *self
    }

    open spec fn spec_with_version(&self, version: NvVersion) -> NvVersion {
        version
    }

    fn nvapi_version(&self) -> (r: NvVersion) {
        *self
    }

    fn set_nvapi_version(&mut self, version: NvVersion) {
        *self = version;
    }
}

/// A struct with a known version word for struct version `VER`.
pub trait StructVersion<const VER: u16>: VersionedStruct {
    /// The version word of this struct in version `VER`.
    spec fn spec_struct_version() -> NvVersion;

    fn struct_version() -> (r: NvVersion)
        ensures
            r == Self::spec_struct_version(),
    ;

    /// The struct with every field zero.
    spec fn spec_zeroed() -> Self;

    /// The struct with every field zero (see `spec_zeroed`).
    fn zeroed() -> (r: Self)
        ensures
            r == Self::spec_zeroed(),
    ;

    /// The zeroed struct carrying the version word of version `VER`.
    fn versioned() -> (r: Self)
        ensures
            r.spec_nvapi_version() == Self::spec_struct_version(),
            r == Self::spec_zeroed().spec_with_version(Self::spec_struct_version()),
    {
        let mut zero = Self::zeroed();
        zero.set_nvapi_version(Self::struct_version());
        zero
    }
}

} // verus!
