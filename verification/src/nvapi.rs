#![allow(non_snake_case)]
use vstd::prelude::*;
use crate::status::Status;

verus! {

/// The entry point of the library from the address the loader gave for it
/// (loading the library, then looking the symbol up): null means the library
/// is not there.
pub fn library_entry(address: usize) -> (r: Result<usize, Status>)
    ensures
        address == 0 ==> r == Err::<usize, Status>(Status::LibraryNotFound),
        address != 0 ==> r == Ok::<usize, Status>(address),
{
    if address == 0 { Err(Status::LibraryNotFound) } else { Ok(address) }
}

/// The outcome of a lookup (see `nvapi_QueryInterface`).
pub open spec fn spec_query_interface(entry: Result<usize, Status>, answer: usize) -> Result<usize, Status> {
    match entry {
        Err(s) => Err(s),
        Ok(_) => if answer == 0 { Err(Status::NoImplementation) } else { Ok(answer) },
    }
}

/// The address of the function with interface `id`, from the library's entry
/// point (or the failure to find it) and what the entry point answered for
/// `id`: a null answer means the function is not implemented.
pub fn nvapi_QueryInterface(entry: Result<usize, Status>, answer: usize) -> (r: Result<usize, Status>)
    ensures
        r == spec_query_interface(entry, answer),
{
    match entry {
        Err(s) => Err(s),
        Ok(_) => if answer == 0 { Err(Status::NoImplementation) } else { Ok(answer) },
    }
}

/// A cache of the address of one NvAPI function (0 while unknown).
#[derive(Debug, Default)]
pub struct NvapiFnCache {
    cache: usize,
}

impl NvapiFnCache {
    pub closed spec fn spec_cache(&self) -> usize {
        self.cache
    }

    pub fn new_usize(value: usize) -> (r: Self)
        ensures
            r.spec_cache() == value,
    {
        NvapiFnCache { cache: value }
    }

    pub fn empty() -> (r: Self)
        ensures
            r.spec_cache() == 0,
    {
        Self::new_usize(0)
    }

    /// The cached address, if known.
    pub fn get(&self) -> (r: Option<usize>)
        ensures
            r == (if self.spec_cache() == 0 { None } else { Some(self.spec_cache()) }),
    {
        if self.cache == 0 { None } else { Some(self.cache) }
    }

    /// Caches an address (`None` forgets it).
    pub fn set(&mut self, ptr: Option<usize>)
        ensures
            final(self).spec_cache() == (match ptr { Some(p) => p, None => 0 }),
    {
        self.cache = match ptr {
            Some(p) => p,
            None => 0,
        };
    }

    /// Whether the address is unknown, so that the driver must be asked for it
    /// (`query_ptr` only looks at the driver's answer then).
    pub fn needs_lookup(&self) -> (r: bool)
        ensures
            r == (self.spec_cache() == 0),
    {
        self.cache == 0
    }

    /// The address of the function: the cached one, else the outcome of the
    /// lookup (`nvapi_QueryInterface` with the library's entry point and the
    /// driver's answer), which is then cached where it succeeded.
    pub fn query_ptr(&mut self, entry: Result<usize, Status>, answer: usize) -> (r: Result<usize, Status>)
        ensures
            old(self).spec_cache() != 0 ==> r == Ok::<usize, Status>(old(self).spec_cache())
                && final(self).spec_cache() == old(self).spec_cache(),
            old(self).spec_cache() == 0 ==> r == spec_query_interface(entry, answer)
                && final(self).spec_cache() == (match spec_query_interface(entry, answer) {
                    Ok(p) => p,
                    Err(_) => 0,
                }),
            r matches Ok(p) ==> p != 0 && final(self).spec_cache() == p,
    {
        match self.get() {
            Some(v) => Ok(v),
            None => {
                let lookup = nvapi_QueryInterface(entry, answer);
                match lookup {
                    Ok(p) => {
                        self.set(Some(p));
                        Ok(p)
                    },
                    Err(s) => Err(s),
                }
            },
        }
    }

    /// The address of the function: the cached one, without running `lookup`;
    /// else `lookup` is run once for the library's entry point and the driver's
    /// answer, their outcome (see `nvapi_QueryInterface`) is returned, and it is
    /// cached where it succeeded.
    pub fn query_ptr_with<F: FnOnce() -> (Result<usize, Status>, usize)>(&mut self, lookup: F) -> (r: Result<usize, Status>)
        requires
            old(self).spec_cache() == 0 ==> lookup.requires(()),
        ensures
            old(self).spec_cache() != 0 ==> r == Ok::<usize, Status>(old(self).spec_cache())
                && final(self).spec_cache() == old(self).spec_cache(),
            old(self).spec_cache() == 0 ==> exists|a: (Result<usize, Status>, usize)| {
                &&& #[trigger] lookup.ensures((), a)
                &&& r == spec_query_interface(a.0, a.1)
                &&& final(self).spec_cache() == (match spec_query_interface(a.0, a.1) {
                    Ok(p) => p,
                    Err(_) => 0,
                })
            },
            r matches Ok(p) ==> p != 0 && final(self).spec_cache() == p,
    {
        if self.cache != 0 {
            return Ok(self.cache);
        }
        let (entry, answer) = lookup();
        let lookup_result = nvapi_QueryInterface(entry, answer);
        match lookup_result {
            Ok(p) => {
                self.cache = p;
                Ok(p)
            },
            Err(s) => Err(s),
        }
    }
}

} // verus!
