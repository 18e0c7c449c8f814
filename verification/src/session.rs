//! The calendar session: the two calls that mint a meeting link, and what
//! their answers mean.
//!
//! Creating an event that asks for a conference makes the calendar generate
//! a meeting link. Deleting the event afterwards leaves the link in place
//! and the calendar clean. This module says what is sent; sending it is the
//! caller's part.

use crate::error::ApiError;
use crate::event::{text_of, EventModel, GoogleCalendarEvent};
use crate::text::characters;
use vstd::prelude::*;
use vstd::string::*;

verus! {

/// The events collection of the user's primary calendar.
pub const CALENDAR_API_URL: &'static str =
    "https://www.googleapis.com/calendar/v3/calendars/primary/events/";

/// The query parameter that makes the calendar honour a conference request.
pub const CONFERENCE_VERSION_KEY: &'static str = "conferenceDataVersion";

pub const CONFERENCE_VERSION: &'static str = "1";

/// The header that carries the access token.
pub const AUTHORIZATION: &'static str = "Authorization";

/// What precedes the access token in the `Authorization` header.
pub const BEARER_PREFIX: &'static str = "Bearer ";

/// Why a string is not a URL. Opaque: the session only reports that it is not.
#[verifier::external_type_specification]
#[verifier::external_body]
pub struct ExUrlParseError(url::ParseError);

/// The URL that `reqwest::Url::parse_with_params` makes of `input` and one
/// query parameter, as text; `None` where it reports an error.
pub uninterp spec fn url_with_param(input: Seq<char>, key: Seq<char>, value: Seq<char>) -> Option<
    Seq<char>,
>;

/// The URL that `reqwest::Url::join` resolves `reference` to against the URL
/// that `reqwest::Url::parse` makes of `base`, as text; `None` where either
/// reports an error.
pub uninterp spec fn url_joined(base: Seq<char>, reference: Seq<char>) -> Option<Seq<char>>;

/// `reqwest::Url::parse_with_params` with a single pair: parses `input` as an
/// absolute URL and appends `key=value` to its query. The outcome is a
/// function of the three strings alone.
#[verifier::external_body]
fn parse_url_with_param(input: &str, key: &str, value: &str) -> (url: Result<
    String,
    url::ParseError,
>)
    ensures
        match url {
            Ok(text) => url_with_param(input@, key@, value@) == Some(text@),
            Err(_) => url_with_param(input@, key@, value@) is None,
        },
{
    match reqwest::Url::parse_with_params(input, &[(key, value)]) {
        Ok(url) => Ok(String::from(url)),
        Err(error) => Err(error),
    }
}

/// `reqwest::Url::join` on the URL that `reqwest::Url::parse` makes of
/// `base`: resolves `reference` as a browser would resolve a link found on
/// the page `base`. The outcome is a function of the two strings alone.
#[verifier::external_body]
fn join_url(base: &str, reference: &str) -> (url: Result<String, url::ParseError>)
    ensures
        match url {
            Ok(text) => url_joined(base@, reference@) == Some(text@),
            Err(_) => url_joined(base@, reference@) is None,
        },
{
    match reqwest::Url::parse(base) {
        Ok(parsed) => match parsed.join(reference) {
            Ok(url) => Ok(String::from(url)),
            Err(error) => Err(error),
        },
        Err(error) => Err(error),
    }
}

/// How a call acts on its address.
#[derive(Debug, Clone, Copy, PartialEq, Eq)]
pub enum Method {
    Post,
    Delete,
}

/// A call to the calendar, ready to be sent.
#[derive(Debug, Clone, PartialEq, Eq)]
pub struct Call {
    pub method: Method,
    pub url: String,
    /// The value of the `Authorization` header.
    pub authorization: String,
    /// The event to send as JSON, if the call has a body.
    pub body: Option<GoogleCalendarEvent>,
}

/// What the calendar answers to a successful creation.
#[derive(Debug, Clone, PartialEq, Eq)]
pub struct CreateEventResponse {
    /// The identifier that the calendar gave the event.
    pub id: String,
    /// The meeting link that the calendar generated.
    pub link: String,
}

pub struct CallModel {
    pub method: Method,
    pub url: Seq<char>,
    pub authorization: Seq<char>,
    pub body: Option<EventModel>,
}

pub struct ResponseModel {
    pub id: Seq<char>,
    pub link: Seq<char>,
}

impl View for Call {
    type V = CallModel;

    open spec fn view(&self) -> CallModel {
        CallModel {
            method: self.method,
            url: self.url@,
            authorization: self.authorization@,
            body: match self.body {
                Some(event) => Some(event@),
                None => None,
            },
        }
    }
}

impl View for CreateEventResponse {
    type V = ResponseModel;

    open spec fn view(&self) -> ResponseModel {
        ResponseModel { id: self.id@, link: self.link@ }
    }
}

/// The `Authorization` header that carries `token`.
pub open spec fn bearer(token: Seq<char>) -> Seq<char> {
    BEARER_PREFIX@ + token
}

/// The `Authorization` header that carries `access_token`.
pub fn authorization_header(access_token: &str) -> (header: String)
    ensures
        header@ == bearer(access_token@),
{
    String::from_str(BEARER_PREFIX).concat(access_token)
}

/// Where events are created, if that is a URL.
pub open spec fn create_url() -> Option<Seq<char>> {
    url_with_param(CALENDAR_API_URL@, CONFERENCE_VERSION_KEY@, CONFERENCE_VERSION@)
}

/// Where the event `id` is deleted, if that is a URL.
pub open spec fn delete_url(id: Seq<char>) -> Option<Seq<char>> {
    url_joined(CALENDAR_API_URL@, id)
}

/// Characters that an event's identifier may hold: no white space, no
/// control character, and nothing that ends a path segment, starts a scheme
/// or an escape.
pub open spec fn is_segment_char(c: char) -> bool {
    let code = c as u32;
    &&& code > 0x20
    &&& code != 0x7F
    &&& c != '/'
    &&& c != '\\'
    &&& c != '?'
    &&& c != '#'
    &&& c != ':'
    &&& c != '%'
}

/// Identifiers that address one event below the events collection: a
/// single path segment, not empty and neither `.` nor `..`.
pub open spec fn is_path_segment(id: Seq<char>) -> bool {
    &&& id.len() > 0
    &&& !(id.len() == 1 && id[0] == '.')
    &&& !(id.len() == 2 && id[0] == '.' && id[1] == '.')
    &&& forall|i: int| 0 <= i < id.len() ==> is_segment_char(#[trigger] id[i])
}

/// The creation call to `url` for `event`, authorised by `token`.
pub open spec fn create_call_spec(url: Option<Seq<char>>, event: EventModel, token: Seq<char>)
    -> Result<CallModel, ApiError> {
    match url {
        Some(address) => Ok(
            CallModel {
                method: Method::Post,
                url: address,
                authorization: bearer(token),
                body: Some(event),
            },
        ),
        None => Err(ApiError::InvalidUrl),
    }
}

/// The deletion call to `url`, authorised by `token`.
pub open spec fn delete_call_spec(url: Option<Seq<char>>, token: Seq<char>) -> Result<
    CallModel,
    ApiError,
> {
    match url {
        Some(address) => Ok(
            CallModel {
                method: Method::Delete,
                url: address,
                authorization: bearer(token),
                body: None,
            },
        ),
        None => Err(ApiError::InvalidUrl),
    }
}

/// The deletion call for the event `id`, authorised by `token`. An
/// identifier that is no single path segment is refused: resolved against
/// the events collection it could address something else.
pub open spec fn delete_call_for(id: Seq<char>, token: Seq<char>) -> Result<CallModel, ApiError> {
    if is_path_segment(id) {
        delete_call_spec(delete_url(id), token)
    } else {
        Err(ApiError::InvalidUrl)
    }
}

/// Whether `call` is the outcome that `expected` describes.
pub open spec fn call_is(call: Result<Call, ApiError>, expected: Result<CallModel, ApiError>)
    -> bool {
    match call {
        Ok(c) => expected == Ok::<CallModel, ApiError>(c@),
        Err(error) => expected == Err::<CallModel, ApiError>(error),
    }
}

/// The creation call to `url`, or `InvalidUrl` where there is none.
pub fn create_call_to(url: Option<String>, event: GoogleCalendarEvent, access_token: &str) -> (call:
    Result<Call, ApiError>)
    ensures
        call_is(call, create_call_spec(text_of(url), event@, access_token@)),
{
    match url {
        Some(address) => Ok(
            Call {
                method: Method::Post,
                url: address,
                authorization: authorization_header(access_token),
                body: Some(event),
            },
        ),
        None => Err(ApiError::InvalidUrl),
    }
}

/// The deletion call to `url`, or `InvalidUrl` where there is none.
pub fn delete_call_to(url: Option<String>, access_token: &str) -> (call: Result<Call, ApiError>)
    ensures
        call_is(call, delete_call_spec(text_of(url), access_token@)),
{
    match url {
        Some(address) => Ok(
            Call {
                method: Method::Delete,
                url: address,
                authorization: authorization_header(access_token),
                body: None,
            },
        ),
        None => Err(ApiError::InvalidUrl),
    }
}

/// The call that creates `event` in the primary calendar and asks for its
/// conference to be generated.
pub fn create_call(event: GoogleCalendarEvent, access_token: &str) -> (call: Result<
    Call,
    ApiError,
>)
    ensures
        call_is(call, create_call_spec(create_url(), event@, access_token@)),
{
    let url = match parse_url_with_param(
        CALENDAR_API_URL,
        CONFERENCE_VERSION_KEY,
        CONFERENCE_VERSION,
    ) {
        Ok(address) => Some(address),
        Err(_) => None,
    };
    create_call_to(url, event, access_token)
}

pub fn segment_char(c: char) -> (ok: bool)
    ensures
        ok == is_segment_char(c),
{
    let code: u32 = c as u32;
    code > 0x20 && code != 0x7F && c != '/' && c != '\\' && c != '?' && c != '#' && c != ':' && c
        != '%'
}

/// Whether `id` addresses one event below the events collection.
pub fn path_segment(id: &str) -> (ok: bool)
    ensures
        ok == is_path_segment(id@),
{
    let chars = characters(id);
    let len = chars.len();
    if len == 0 {
        return false;
    }
    if len == 1 && chars[0] == '.' {
        return false;
    }
    if len == 2 && chars[0] == '.' && chars[1] == '.' {
        return false;
    }
    let mut i: usize = 0;
    while i < len
        invariant
            len == chars@.len(),
            chars@ == id@,
            0 <= i <= len,
            forall|k: int| 0 <= k < i ==> is_segment_char(#[trigger] chars@[k]),
        decreases len - i,
    {
        if !segment_char(chars[i]) {
            return false;
        }
        i += 1;
    }
    true
}

/// The call that deletes the event `id` from the primary calendar.
pub fn delete_call(id: &str, access_token: &str) -> (call: Result<Call, ApiError>)
    ensures
        call_is(call, delete_call_for(id@, access_token@)),
{
    if !path_segment(id) {
        return Err(ApiError::InvalidUrl);
    }
    let url = match join_url(CALENDAR_API_URL, id) {
        Ok(address) => Some(address),
        Err(_) => None,
    };
    delete_call_to(url, access_token)
}

/// Statuses 200 to 299 report success.
pub open spec fn is_success(status: u16) -> bool {
    200 <= status < 300
}

pub fn status_is_success(status: u16) -> (success: bool)
    ensures
        success == is_success(status),
{
    200 <= status && status < 300
}

/// What the answer to a creation call means: the event's identifier and
/// link if the status reports success and the body was understood.
pub open spec fn interpret_create_spec(status: u16, body: Option<ResponseModel>) -> Result<
    ResponseModel,
    ApiError,
> {
    if !is_success(status) {
        Err(ApiError::Status(status))
    } else {
        match body {
            Some(response) => Ok(response),
            None => Err(ApiError::MalformedBody),
        }
    }
}

/// What the answer to a deletion call means.
pub open spec fn interpret_delete_spec(status: u16) -> Result<(), ApiError> {
    if is_success(status) {
        Ok(())
    } else {
        Err(ApiError::Status(status))
    }
}

/// What an optional answer says.
pub open spec fn response_of(body: Option<CreateEventResponse>) -> Option<ResponseModel> {
    match body {
        Some(response) => Some(response@),
        None => None,
    }
}

/// Whether `result` is the outcome that `expected` describes.
pub open spec fn response_is(
    result: Result<CreateEventResponse, ApiError>,
    expected: Result<ResponseModel, ApiError>,
) -> bool {
    match result {
        Ok(response) => expected == Ok::<ResponseModel, ApiError>(response@),
        Err(error) => expected == Err::<ResponseModel, ApiError>(error),
    }
}

/// Reads the answer to a creation call. `body` is the decoded body, or
/// `None` if it could not be decoded.
pub fn interpret_create(status: u16, body: Option<CreateEventResponse>) -> (result: Result<
    CreateEventResponse,
    ApiError,
>)
    ensures
        response_is(result, interpret_create_spec(status, response_of(body))),
{
    if !status_is_success(status) {
        Err(ApiError::Status(status))
    } else {
        match body {
            Some(response) => Ok(response),
            None => Err(ApiError::MalformedBody),
        }
    }
}

/// Reads the answer to a deletion call.
pub fn interpret_delete(status: u16) -> (result: Result<(), ApiError>)
    ensures
        result == interpret_delete_spec(status),
{
    if status_is_success(status) {
        Ok(())
    } else {
        Err(ApiError::Status(status))
    }
}

} // verus!
