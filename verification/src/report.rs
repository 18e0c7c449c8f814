//! What the user is told, as lines of text.

use crate::error::{AbortReason, ApiError, AuthError, ConfigError};
use crate::ledger::{decimal_text, render_decimal, LedgerError};
use crate::orchestrator::Notice;
use vstd::prelude::*;
use vstd::string::*;

verus! {

pub const LINK_PREFIX: &'static str = "Google Meet Link: ";

pub const LINK_COPIED: &'static str = "Link is copied to the clipboard!";

pub const CLIPBOARD_FAILED: &'static str = "Warning: the link could not be copied to the clipboard";

pub const LEDGER_NOT_ADVANCED: &'static str =
    "Warning: the request identifier could not be advanced; the next run will use it again";

pub const DELETE_FAILED_PREFIX: &'static str = "Warning: the calendar event could not be deleted: ";

pub const BROWSER_FAILED: &'static str = "Warning: the link could not be opened in the browser";

pub const ABORTED_PREFIX: &'static str = "Error: ";

pub const NO_DATA_DIRECTORY: &'static str = "no data directory was given and there is no home directory";

pub const LEDGER_UNREADABLE: &'static str = "the request identifier file cannot be read";

pub const LEDGER_EMPTY: &'static str = "the request identifier file is empty";

pub const LEDGER_INVALID_DIGIT: &'static str = "the request identifier file does not hold a number";

pub const LEDGER_OVERFLOW: &'static str = "the request identifier is too large";

pub const AUTH_SECRET: &'static str = "the client secret cannot be read";

pub const AUTH_FLOW: &'static str = "authorization failed";

pub const AUTH_MISSING_TOKEN: &'static str = "authorization gave no access token";

pub const API_INVALID_TIME: &'static str = "the time of the meeting is out of range";

pub const API_INVALID_URL: &'static str = "the address of the calendar is not a URL";

pub const API_TRANSPORT: &'static str = "the calendar could not be reached";

pub const API_STATUS_PREFIX: &'static str = "the calendar answered with status ";

pub const API_MALFORMED_BODY: &'static str = "the answer of the calendar was not understood";

pub open spec fn ledger_error_text(error: LedgerError) -> Seq<char> {
    match error {
        LedgerError::Empty => LEDGER_EMPTY@,
        LedgerError::InvalidDigit => LEDGER_INVALID_DIGIT@,
        LedgerError::Overflow => LEDGER_OVERFLOW@,
    }
}

pub open spec fn config_error_text(error: ConfigError) -> Seq<char> {
    match error {
        ConfigError::NoDataDirectory => NO_DATA_DIRECTORY@,
        ConfigError::LedgerUnreadable => LEDGER_UNREADABLE@,
        ConfigError::LedgerMalformed(e) => ledger_error_text(e),
    }
}

pub open spec fn auth_error_text(error: AuthError) -> Seq<char> {
    match error {
        AuthError::Secret => AUTH_SECRET@,
        AuthError::Flow => AUTH_FLOW@,
        AuthError::MissingToken => AUTH_MISSING_TOKEN@,
    }
}

pub open spec fn api_error_text(error: ApiError) -> Seq<char> {
    match error {
        ApiError::InvalidTime => API_INVALID_TIME@,
        ApiError::InvalidUrl => API_INVALID_URL@,
        ApiError::Transport => API_TRANSPORT@,
        ApiError::Status(status) => API_STATUS_PREFIX@ + decimal_text(status as nat),
        ApiError::MalformedBody => API_MALFORMED_BODY@,
    }
}

pub open spec fn abort_reason_text(reason: AbortReason) -> Seq<char> {
    match reason {
        AbortReason::Config(e) => config_error_text(e),
        AbortReason::Auth(e) => auth_error_text(e),
        AbortReason::Api(e) => api_error_text(e),
    }
}

/// The line that tells the user of `notice`.
pub open spec fn notice_text(notice: Notice<Seq<char>>) -> Seq<char> {
    match notice {
        Notice::LinkReady { link } => LINK_PREFIX@ + link,
        Notice::LinkCopied => LINK_COPIED@,
        Notice::ClipboardFailed => CLIPBOARD_FAILED@,
        Notice::LedgerNotAdvanced => LEDGER_NOT_ADVANCED@,
        Notice::DeleteFailed { error } => DELETE_FAILED_PREFIX@ + api_error_text(error),
        Notice::BrowserFailed => BROWSER_FAILED@,
        Notice::Aborted { reason } => ABORTED_PREFIX@ + abort_reason_text(reason),
    }
}

pub fn describe_ledger_error(error: LedgerError) -> (text: &'static str)
    ensures
        text@ == ledger_error_text(error),
{
    match error {
        LedgerError::Empty => LEDGER_EMPTY,
        LedgerError::InvalidDigit => LEDGER_INVALID_DIGIT,
        LedgerError::Overflow => LEDGER_OVERFLOW,
    }
}

pub fn describe_config_error(error: ConfigError) -> (text: &'static str)
    ensures
        text@ == config_error_text(error),
{
    match error {
        ConfigError::NoDataDirectory => NO_DATA_DIRECTORY,
        ConfigError::LedgerUnreadable => LEDGER_UNREADABLE,
        ConfigError::LedgerMalformed(e) => describe_ledger_error(e),
    }
}

pub fn describe_auth_error(error: AuthError) -> (text: &'static str)
    ensures
        text@ == auth_error_text(error),
{
    match error {
        AuthError::Secret => AUTH_SECRET,
        AuthError::Flow => AUTH_FLOW,
        AuthError::MissingToken => AUTH_MISSING_TOKEN,
    }
}

pub fn describe_api_error(error: ApiError) -> (text: String)
    ensures
        text@ == api_error_text(error),
{
    match error {
        ApiError::InvalidTime => String::from_str(API_INVALID_TIME),
        ApiError::InvalidUrl => String::from_str(API_INVALID_URL),
        ApiError::Transport => String::from_str(API_TRANSPORT),
        ApiError::Status(status) => {
            let number = render_decimal(status as u128);
            String::from_str(API_STATUS_PREFIX).concat(number.as_str())
        },
        ApiError::MalformedBody => String::from_str(API_MALFORMED_BODY),
    }
}

pub fn describe_abort_reason(reason: AbortReason) -> (text: String)
    ensures
        text@ == abort_reason_text(reason),
{
    match reason {
        AbortReason::Config(e) => String::from_str(describe_config_error(e)),
        AbortReason::Auth(e) => String::from_str(describe_auth_error(e)),
        AbortReason::Api(e) => describe_api_error(e),
    }
}

/// The line that tells the user of `notice`.
pub fn describe_notice(notice: &Notice<String>) -> (text: String)
    ensures
        text@ == notice_text(notice@),
{
    match notice {
        Notice::LinkReady { link } => String::from_str(LINK_PREFIX).concat(link.as_str()),
        Notice::LinkCopied => String::from_str(LINK_COPIED),
        Notice::ClipboardFailed => String::from_str(CLIPBOARD_FAILED),
        Notice::LedgerNotAdvanced => String::from_str(LEDGER_NOT_ADVANCED),
        Notice::DeleteFailed { error } => {
            let cause = describe_api_error(*error);
            String::from_str(DELETE_FAILED_PREFIX).concat(cause.as_str())
        },
        Notice::BrowserFailed => String::from_str(BROWSER_FAILED),
        Notice::Aborted { reason } => {
            let cause = describe_abort_reason(*reason);
            String::from_str(ABORTED_PREFIX).concat(cause.as_str())
        },
    }
}

} // verus!
