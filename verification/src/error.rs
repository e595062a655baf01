use vstd::prelude::*;
use crate::status::{Status, NvAPI_Status, ArgumentRangeError, status_code, status_or_error};
pub use crate::nvid::{Api, api_id, api_of_id, lemma_api_id_roundtrip};

verus! {

/// An NvAPI call that failed: the status it returned and the API it called.
#[derive(Copy, Clone, Debug, PartialEq, Eq, Structural, Hash)]
pub struct NvapiError {
    pub status: NvAPI_Status,
    pub nvid: Api,
}

/// The result of a call that names the API on failure.
pub type NvapiResult<T> = Result<T, NvapiError>;

/// The status codes under which a caller may fall back to an older struct version.
pub open spec fn is_version_incompat(status: NvAPI_Status) -> bool {
    status.value == status_code(Status::IncompatibleStructVersion)
        || status.value == status_code(Status::NoImplementation)
        || status.value == status_code(Status::NotSupported)
}

impl NvapiError {
    pub fn new(status: NvAPI_Status, nvid: Api) -> (r: Self)
        ensures
            r.status == status,
            r.nvid == nvid,
    {
        NvapiError { status, nvid }
    }

    /// `Ok` when `status` is `NVAPI_OK`, otherwise the error that names `nvid`.
    pub fn new_result(status: NvAPI_Status, nvid: Api) -> (r: Result<(), Self>)
        ensures
            status.value == 0 ==> r == Ok::<(), Self>(()),
            status.value != 0 ==> r == Err::<(), Self>(NvapiError { status, nvid }),
    {
        match status.to_result() {
            Err(status) => Err(Self::new(status, nvid)),
            Ok(()) => Ok(()),
        }
    }

    /// `Ok` when the failure only means that this struct version is not supported
    /// (an incompatible version, no implementation, or not supported), otherwise
    /// the error itself.
    pub fn allow_version_incompat(self) -> (r: Result<(), Self>)
        ensures
            is_version_incompat(self.status) ==> r == Ok::<(), Self>(()),
            !is_version_incompat(self.status) ==> r == Err::<(), Self>(self),
    {
        let v = self.status.value;
        if v == -9i32 || v == -3i32 || v == -104i32 {
            Ok(())
        } else {
            Err(self)
        }
    }

    /// This error as a failed result.
    pub fn to_result<T>(self) -> (r: Result<(), Self>)
        ensures
            r == Err::<(), Self>(self),
    {
        Err(self)
    }

    /// The status value of the failure (`Status::Error` for a code that is not known).
    pub fn status(&self) -> (r: Status)
        ensures
            r == status_or_error(self.status.value),
    {
        self.status.to_status()
    }
}

/// Maps the status of a failed call to the error that names `nvid`.
pub fn status_result(nvid: Api, status: NvAPI_Status) -> (r: Result<(), NvapiError>)
    ensures
        status.value == 0 ==> r == Ok::<(), NvapiError>(()),
        status.value != 0 ==> r == Err::<(), NvapiError>(NvapiError { status, nvid }),
{
    match status.to_result() {
        Ok(()) => Ok(()),
        Err(status) => Err(NvapiError::new(status, nvid)),
    }
}

/// The result of a call with its failure tagged with the API that was called.
pub open spec fn spec_with_api<T>(res: Result<T, Status>, nvid: Api) -> NvapiResult<T> {
    match res {
        Ok(v) => Ok(v),
        Err(s) => Err(NvapiError { status: NvAPI_Status { value: status_code(s) }, nvid }),
    }
}

/// Tags the failure of a call with the API that was called.
pub fn with_api<T>(res: Result<T, Status>, nvid: Api) -> (r: NvapiResult<T>)
    ensures
        r == spec_with_api(res, nvid),
{
    match res {
        Ok(v) => Ok(v),
        Err(s) => Err(NvapiError::new(NvAPI_Status::new(s), nvid)),
    }
}

/// Either a failed NvAPI call or data outside the range of known values.
#[derive(Copy, Clone, Debug, PartialEq, Eq, Structural, Hash)]
pub enum Error {
    Nvapi(NvapiError),
    ArgumentRange(ArgumentRangeError),
}

/// The outcome of `Error::allowable_result` on a failure `e`: `None` where the
/// failure only means that the data is not available in this form.
pub open spec fn allowable_error(e: Error) -> Option<Error> {
    match e {
        Error::ArgumentRange(..) => None,
        Error::Nvapi(n) => if is_version_incompat(n.status)
            || status_or_error(n.status.value) == Status::ArgumentExceedMaxSize {
            None
        } else {
            Some(e)
        },
    }
}

impl Error {
    /// The status of a failed NvAPI call, `None` for a range error.
    pub fn nvapi_status(&self) -> (r: Option<Status>)
        ensures
            r == (match *self {
                Error::Nvapi(e) => Some(status_or_error(e.status.value)),
                Error::ArgumentRange(..) => None,
            }),
    {
        match self {
            Error::Nvapi(e) => Some(e.status()),
            _ => None,
        }
    }

    /// `Ok` for an NvAPI failure that only means that the struct version is not
    /// supported, otherwise the error itself.
    pub fn allow_version_incompat(self) -> (r: Result<(), Self>)
        ensures
            r == (match self {
                Error::Nvapi(e) => if is_version_incompat(e.status) {
                    Ok::<(), Self>(())
                } else {
                    Err(self)
                },
                Error::ArgumentRange(..) => Err(self),
            }),
    {
        match self {
            Error::Nvapi(e) => match e.allow_version_incompat() {
                Ok(()) => Ok(()),
                Err(e) => Err(Error::Nvapi(e)),
            },
            Error::ArgumentRange(..) => Err(self),
        }
    }

    /// Turns the failures that only mean "not available" (an unsupported struct
    /// version or out-of-range data) into `Ok(None)`.
    pub fn allowable_result<T>(v: Result<T, Self>) -> (r: Result<Option<T>, Self>)
        ensures
            r == (match v {
                Ok(x) => Ok::<Option<T>, Self>(Some(x)),
                Err(e) => match allowable_error(e) {
                    None => Ok(None),
                    Some(e2) => Err(e2),
                },
            }),
    {
        match v {
            Ok(x) => Ok(Some(x)),
            Err(e) => {
                let res: Result<(), Result<(), Error>> = match e.allow_version_incompat() {
                    Err(Error::ArgumentRange(..)) => Err(Ok(())),
                    Err(Error::Nvapi(n)) => {
                        if n.status() == ArgumentRangeError.to_status() {
                            Err(Ok(()))
                        } else {
                            Err(Err(Error::Nvapi(n)))
                        }
                    },
                    Ok(()) => Err(Ok(())),
                };
                match res {
                    Ok(()) => Ok(None),
                    Err(Ok(())) => Ok(None),
                    Err(Err(e)) => Err(e),
                }
            },
        }
    }
}

/// A result whose "not available" failures (see `Error::allowable_result`) are
/// replaced by `fallback`.
pub fn allowable_result_fallback<T>(v: Result<T, Error>, fallback: T) -> (r: Result<T, Error>)
    ensures
        r == (match v {
            Ok(x) => Ok::<T, Error>(x),
            Err(e) => match allowable_error(e) {
                None => Ok(fallback),
                Some(e2) => Err(e2),
            },
        }),
{
    match Error::allowable_result(v) {
        Ok(Some(x)) => Ok(x),
        Ok(None) => Ok(fallback),
        Err(e) => Err(e),
    }
}

} // verus!
