use vstd::prelude::*;

verus! {

/// Why a single redeem submission did not succeed.
#[derive(Debug, Clone)]
pub enum RedeemFailure {
    /// The endpoint answered with a status outside the success range.
    Status(u16),
    /// The request never produced a response; the cause as text.
    Transport(String),
}

/// Every failure a command of the client can report.
#[derive(Debug, Clone)]
pub enum ClientError {
    /// The session file could not be written or read; the cause as text.
    Storage(String),
    /// No session has been stored yet: log in first.
    NotAuthenticated,
    /// The stored session could not be parsed into a record; the cause as text.
    CorruptSession(String),
    /// The stored cookie text is not a valid header value.
    InvalidSessionFormat,
    /// The login endpoint answered with this non-success status.
    Authentication(u16),
    /// The login succeeded but set no cookie.
    NoCookie,
    /// A single-mode redeem did not succeed.
    RedeemFailed(RedeemFailure),
}

} // verus!
