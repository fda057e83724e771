//! The errors that an AEAD operation reports.

use parsec_interface::requests::ResponseStatus;
use vstd::prelude::*;

verus! {

/// The status code of the service's wire protocol. The library carries the
/// codes that the key store and the request validation answer with and never
/// looks inside one.
#[verifier::external_type_specification]
#[verifier::external_body]
pub struct ExResponseStatus(ResponseStatus);

/// Why an AEAD operation failed.
#[derive(Clone, Copy, Debug, PartialEq, Eq)]
pub enum AeadError {
    /// The algorithm is of no family that the device implements.
    UnsupportedAlgorithm,
    /// The key store could not give the key's slot or its attributes. The
    /// status is the key store's own.
    KeyResolutionFailure(ResponseStatus),
    /// The key's attributes do not allow the operation. The status is the
    /// validation's own.
    ValidationFailure(ResponseStatus),
    /// The device failed, or the data did not authenticate. The two are
    /// reported alike, so that a caller cannot learn which check failed.
    CryptographicFailure,
}

/// The device could not carry out a request. What went wrong is for the
/// operator's log and is never part of an operation's result.
#[derive(Clone, Copy, Debug, PartialEq, Eq)]
pub struct DeviceError;

} // verus!
