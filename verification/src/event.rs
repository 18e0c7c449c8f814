//! The calendar event whose creation mints the meeting link.
//!
//! The event lasts one hour from its start, which the caller reads off the
//! clock. It asks for a conference to be attached, and names the request
//! identifier as the key by which the calendar recognises a repeated
//! request.

use crate::error::ApiError;
use crate::ledger::{decimal_text, render_decimal};
use vstd::prelude::*;
use vstd::string::*;

verus! {

/// How long the meeting lasts, in seconds.
pub const MEETING_SECONDS: i64 = 3600;

/// The kind of conference that is asked for.
pub const CONFERENCE_SOLUTION: &'static str = "hangoutsMeet";

/// A point in time: seconds since 1970-01-01T00:00:00Z, and the nanoseconds
/// into that second.
#[derive(Debug, Clone, Copy, PartialEq, Eq)]
pub struct Timestamp {
    pub secs: i64,
    pub nanos: u32,
}

impl Timestamp {
    /// The nanoseconds stay within the second.
    pub open spec fn well_formed(self) -> bool {
        self.nanos < 1_000_000_000
    }

    /// The point in time with these seconds and nanoseconds, if the
    /// nanoseconds stay within the second.
    pub fn new(secs: i64, nanos: u32) -> (time: Option<Timestamp>)
        ensures
            time == if nanos < 1_000_000_000 {
                Some(Timestamp { secs, nanos })
            } else {
                None
            },
    {
        if nanos < 1_000_000_000 {
            Some(Timestamp { secs, nanos })
        } else {
            None
        }
    }
}

#[derive(Debug, Clone, PartialEq, Eq)]
pub struct EventDateTime {
    pub date_time: String,
}

#[derive(Debug, Clone, PartialEq, Eq)]
pub struct ConferenceSolutionKey {
    pub ty: String,
}

#[derive(Debug, Clone, PartialEq, Eq)]
pub struct CreateRequest {
    pub request_id: String,
    pub conference_solution_key: ConferenceSolutionKey,
}

#[derive(Debug, Clone, PartialEq, Eq)]
pub struct ConferenceData {
    pub create_request: CreateRequest,
}

#[derive(Debug, Clone, PartialEq, Eq)]
pub struct GoogleCalendarEvent {
    pub start: EventDateTime,
    pub end: EventDateTime,
    pub conference_data: ConferenceData,
}

/// What an event says, as text.
pub struct EventModel {
    pub start: Seq<char>,
    pub end: Seq<char>,
    pub request_id: Seq<char>,
    pub solution: Seq<char>,
}

impl View for GoogleCalendarEvent {
    type V = EventModel;

    open spec fn view(&self) -> EventModel {
        EventModel {
            start: self.start.date_time@,
            end: self.end.date_time@,
            request_id: self.conference_data.create_request.request_id@,
            solution: self.conference_data.create_request.conference_solution_key.ty@,
        }
    }
}

/// The RFC 3339 text of a point in time, in UTC, as
/// `chrono::DateTime::to_rfc3339` writes it; `None` for a point that
/// `chrono::DateTime::from_timestamp` does not accept.
pub uninterp spec fn rfc3339_text(secs: i64, nanos: u32) -> Option<Seq<char>>;

/// `chrono::DateTime::to_rfc3339` of the point that
/// `chrono::DateTime::from_timestamp` makes of `secs` and `nanos`. The text
/// is a function of the two numbers alone: the time zone is always UTC.
#[verifier::external_body]
fn format_rfc3339(secs: i64, nanos: u32) -> (text: Option<String>)
    ensures
        match text {
            Some(t) => rfc3339_text(secs, nanos) == Some(t@),
            None => rfc3339_text(secs, nanos) is None,
        },
{
    match chrono::DateTime::from_timestamp(secs, nanos) {
        Some(time) => Some(time.to_rfc3339()),
        None => None,
    }
}

/// When a meeting that starts at `start` ends. A start whose nanoseconds
/// leave the second stands for a leap second, and has no end here.
pub open spec fn meeting_end_spec(start: Timestamp) -> Option<Timestamp> {
    if start.well_formed() && start.secs + MEETING_SECONDS <= i64::MAX {
        Some(Timestamp { secs: (start.secs + MEETING_SECONDS) as i64, nanos: start.nanos })
    } else {
        None
    }
}

/// When a meeting that starts at `start` ends: one hour later, unless the
/// start is not well formed or the seconds run out.
pub fn meeting_end(start: Timestamp) -> (end: Option<Timestamp>)
    ensures
        end == meeting_end_spec(start),
        end matches Some(e) ==> e.well_formed(),
{
    if start.nanos >= 1_000_000_000 {
        return None;
    }
    match start.secs.checked_add(MEETING_SECONDS) {
        Some(secs) => Some(Timestamp { secs, nanos: start.nanos }),
        None => None,
    }
}

/// The event for a request identifier, given the texts of its start and end.
pub open spec fn event_model(request_id: u64, start: Seq<char>, end: Seq<char>) -> EventModel {
    EventModel {
        start,
        end,
        request_id: decimal_text(request_id as nat),
        solution: CONFERENCE_SOLUTION@,
    }
}

/// The event for a request identifier, given what the formatting of its
/// start and end came to.
pub open spec fn event_from_texts_spec(
    request_id: u64,
    start: Option<Seq<char>>,
    end: Option<Seq<char>>,
) -> Result<EventModel, ApiError> {
    match (start, end) {
        (Some(s), Some(e)) => Ok(event_model(request_id, s, e)),
        _ => Err(ApiError::InvalidTime),
    }
}

/// The event that a meeting starting at `start` is created with. There is
/// none where the start is not well formed, where the end is out of reach,
/// or where either cannot be written.
pub open spec fn new_event_spec(request_id: u64, start: Timestamp) -> Result<
    EventModel,
    ApiError,
> {
    match meeting_end_spec(start) {
        Some(end) => event_from_texts_spec(
            request_id,
            rfc3339_text(start.secs, start.nanos),
            rfc3339_text(end.secs, end.nanos),
        ),
        None => Err(ApiError::InvalidTime),
    }
}

/// Whether `result` is the outcome that `expected` describes.
pub open spec fn event_result_is(
    result: Result<GoogleCalendarEvent, ApiError>,
    expected: Result<EventModel, ApiError>,
) -> bool {
    match result {
        Ok(event) => expected == Ok::<EventModel, ApiError>(event@),
        Err(error) => expected == Err::<EventModel, ApiError>(error),
    }
}

/// What an optional string says, as text.
pub open spec fn text_of(text: Option<String>) -> Option<Seq<char>> {
    match text {
        Some(t) => Some(t@),
        None => None,
    }
}

/// Builds the event from the texts of its start and end. A missing text
/// means that the time cannot be written, and no event is built.
pub fn event_from_texts(request_id: u64, start: Option<String>, end: Option<String>) -> (result:
    Result<GoogleCalendarEvent, ApiError>)
    ensures
        event_result_is(result, event_from_texts_spec(request_id, text_of(start), text_of(end))),
{
    match (start, end) {
        (Some(start_text), Some(end_text)) => {
            let event = GoogleCalendarEvent {
                start: EventDateTime { date_time: start_text },
                end: EventDateTime { date_time: end_text },
                conference_data: ConferenceData {
                    create_request: CreateRequest {
                        request_id: render_decimal(request_id as u128),
                        conference_solution_key: ConferenceSolutionKey {
                            ty: String::from_str(CONFERENCE_SOLUTION),
                        },
                    },
                },
            };
            Ok(event)
        },
        _ => Err(ApiError::InvalidTime),
    }
}

/// Builds the event for a meeting that starts at `start` and lasts an hour.
pub fn new_event(request_id: u64, start: Timestamp) -> (result: Result<
    GoogleCalendarEvent,
    ApiError,
>)
    ensures
        event_result_is(result, new_event_spec(request_id, start)),
{
    match meeting_end(start) {
        Some(end) => {
            let start_text = format_rfc3339(start.secs, start.nanos);
            let end_text = format_rfc3339(end.secs, end.nanos);
            event_from_texts(request_id, start_text, end_text)
        },
        None => Err(ApiError::InvalidTime),
    }
}

} // verus!
