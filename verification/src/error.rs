//! What can go wrong in a run, by the component that reports it.

use crate::ledger::LedgerError;
use vstd::prelude::*;

verus! {

/// The run cannot find out which request identifier to use.
#[derive(Debug, Clone, Copy, PartialEq, Eq)]
pub enum ConfigError {
    /// No data directory was given, and the user has no home directory.
    NoDataDirectory,
    /// The ledger file is missing or cannot be read.
    LedgerUnreadable,
    /// The ledger file does not hold a request identifier.
    LedgerMalformed(LedgerError),
}

/// No access token was obtained.
#[derive(Debug, Clone, Copy, PartialEq, Eq)]
pub enum AuthError {
    /// The client secret is missing or malformed.
    Secret,
    /// Consent was denied, or the exchange for a token failed.
    Flow,
    /// The flow ended without an access token.
    MissingToken,
}

/// A call to the calendar failed.
#[derive(Debug, Clone, Copy, PartialEq, Eq)]
pub enum ApiError {
    /// The start or end of the meeting is outside the calendar's range.
    InvalidTime,
    /// The address of the call is not a URL.
    InvalidUrl,
    /// The call could not be sent, or no answer came back.
    Transport,
    /// The answer carries this status, which is not a success.
    Status(u16),
    /// The answer is a success, but its body is not the expected one.
    MalformedBody,
}

/// Why a run ended without a meeting link.
#[derive(Debug, Clone, Copy, PartialEq, Eq)]
pub enum AbortReason {
    Config(ConfigError),
    Auth(AuthError),
    Api(ApiError),
}

} // verus!
