use vstd::prelude::*;

verus! {

/// Every way in which receiving an activity or resolving an object can fail.
#[derive(Clone, Copy, Debug, PartialEq, Eq, Structural)]
pub enum Error {
    /// The body does not hash to the declared digest header.
    DigestInvalid,
    /// The body is not a well-formed activity.
    MalformedPayload,
    /// The activity's id or actor breaks the configured domain policy.
    DomainInvalid,
    /// The request signature does not match the sender's public key.
    SignatureInvalid,
    /// The object is not stored locally and may not be fetched.
    NotFound,
    /// The remote server reports the object as deleted.
    ObjectGone,
    /// This request has already made as many fetches as it may.
    FetchLimitExceeded,
    /// A network fetch failed for another reason.
    NetworkFailure,
    /// A string that should be an absolute URL is not one.
    MalformedUrl,
    /// An error raised by the host application, identified by its code.
    Host(u32),
}

} // verus!
