//! Firmware status codes and their conversion into results.
use vstd::prelude::*;

verus! {

/// A raw firmware status code. Codes with the top bit set are errors; all
/// others, zero included, are success or warnings.
#[derive(Clone, Copy, Debug, PartialEq, Eq, Structural)]
pub struct Status(pub usize);

/// The code falls in the error range (its top bit is set).
pub open spec fn is_error_code(code: usize) -> bool {
    code > usize::MAX / 2
}

impl Status {
    pub open spec fn spec_is_error(self) -> bool {
        is_error_code(self.0)
    }

    /// Whether the code lies in the error range.
    #[verifier::when_used_as_spec(spec_is_error)]
    pub fn is_error(self) -> (r: bool)
        ensures
            r == is_error_code(self.0),
    {
        self.0 > usize::MAX / 2
    }

    /// Whether the code is success or a warning.
    pub fn is_success(self) -> (r: bool)
        ensures
            r == !is_error_code(self.0),
    {
        !self.is_error()
    }
}

/// Why an operation of this library did not succeed.
#[derive(Clone, Copy, Debug, PartialEq, Eq, Structural)]
pub enum Error {
    /// The firmware reported this error status.
    Firmware(Status),
    /// The service is no longer available: boot services have been exited.
    Unavailable,
    /// The arguments were rejected before any firmware call was made.
    InvalidArgument,
    /// The firmware reported success with a length larger than the buffer
    /// it was given.
    BadLength,
}

/// The outcome of a binding call.
pub type Result<T> = core::result::Result<T, Error>;

/// The result that a status gives for a call producing `value` on success.
pub open spec fn status_result<T>(code: Status, value: T) -> Result<T> {
    if is_error_code(code.0) {
        Err(Error::Firmware(code))
    } else {
        Ok(value)
    }
}

/// Converts a status into a unit result: success and warnings give `Ok`,
/// errors give `Err` carrying the code.
pub fn from_status(code: Status) -> (r: Result<()>)
    ensures
        r == status_result(code, ()),
{
    if code.is_error() {
        Err(Error::Firmware(code))
    } else {
        Ok(())
    }
}

/// Converts a status into a result that carries `value` on success.
pub fn from_status_with_value<T>(code: Status, value: T) -> (r: Result<T>)
    ensures
        r == status_result(code, value),
{
    if code.is_error() {
        Err(Error::Firmware(code))
    } else {
        Ok(value)
    }
}

/// Every code outside the error range converts to `Ok`, and every code with
/// the top bit set converts to `Err` carrying that very code.
pub proof fn lemma_status_partition(code: usize)
    ensures
        status_result(Status(code), ()) is Ok <==> !is_error_code(code),
        is_error_code(code) ==> status_result(Status(code), ()) == Err::<(), Error>(
            Error::Firmware(Status(code)),
        ),
        !is_error_code(code) ==> status_result(Status(code), ()) == Ok::<(), Error>(()),
        is_error_code(code) <==> code >= (usize::MAX as int + 1) / 2,
        !is_error_code(0),
{
}

} // verus!
