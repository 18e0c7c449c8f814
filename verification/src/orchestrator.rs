//! The run as a state machine.
//!
//! A run alternates between outside work and decisions. The caller does the
//! outside work: it performs the action that the current state asks for and
//! reports what came of it as an event. The decisions are here: `step` takes
//! the state and the event to the next state, and `pending_action` says what
//! to do next.
//!
//! The states are generic in their text, so that the same definitions serve
//! the running program, over `String`, and its model, over `Seq<char>`.

use crate::error::{AbortReason, ApiError, AuthError, ConfigError};
use crate::ledger::{decimal_text, next_ledger_text, parse_request_id, parse_request_id_spec};
use crate::session::CreateEventResponse;
use vstd::prelude::*;

verus! {

/// A created event and what it was created with.
#[derive(Debug, Clone, PartialEq, Eq)]
pub struct Meeting<T> {
    /// The request identifier that the creation call carried.
    pub request_id: u64,
    /// The access token that authorises the calls.
    pub token: T,
    /// The identifier that the calendar gave the event.
    pub event_id: T,
    /// The meeting link.
    pub link: T,
}

/// How far a run has come.
#[derive(Debug, Clone, PartialEq, Eq)]
pub enum State<T> {
    /// Nothing has happened yet.
    Init,
    /// The ledger has been read.
    Ready { request_id: u64 },
    /// An access token has been obtained.
    Authorized { request_id: u64, token: T },
    /// The event exists, and the link has been shown.
    Created { meeting: Meeting<T> },
    /// The link has been offered to the clipboard.
    LinkDelivered { meeting: Meeting<T> },
    /// The ledger has been told to advance; `advanced` says whether it did.
    AdvancedLedger { meeting: Meeting<T>, advanced: bool },
    /// The event has been told to go.
    Deleted { link: T, advanced: bool },
    /// The run is over, and the user has the link.
    Done { link: T, advanced: bool },
    /// The run is over, and there is no link.
    Aborted { reason: AbortReason },
}

/// What came of the action that a state asked for.
#[derive(Debug, Clone, PartialEq, Eq)]
pub enum Event<T> {
    /// The ledger file holds `contents`.
    LedgerRead { contents: T },
    /// The ledger file is missing or cannot be read.
    LedgerUnreadable,
    TokenGranted { token: T },
    TokenDenied { denial: AuthError },
    /// The calendar created the event `id` and generated `link` for it.
    EventCreated { id: T, link: T },
    CreateFailed { error: ApiError },
    /// The clipboard took the link, or did not.
    LinkCopied { ok: bool },
    /// The ledger file took its new contents, or did not.
    LedgerWritten { ok: bool },
    /// The deletion call is over, with this error if it failed.
    DeleteFinished { failure: Option<ApiError> },
    /// The browser opened the link, or did not.
    BrowserOpened { ok: bool },
}

/// The outside work that a state asks for.
#[derive(Debug, Clone, PartialEq, Eq)]
pub enum Action<T> {
    ReadLedger,
    Authorize,
    CreateEvent { request_id: u64, token: T },
    CopyLink { link: T },
    /// Replace the contents of the ledger file by `contents`.
    WriteLedger { contents: T },
    DeleteEvent { event_id: T, token: T },
    OpenBrowser { link: T },
    /// Leave, reporting success or failure to whoever started the program.
    Exit { success: bool },
}

/// What a step has to tell the user.
#[derive(Debug, Clone, PartialEq, Eq)]
pub enum Notice<T> {
    LinkReady { link: T },
    LinkCopied,
    ClipboardFailed,
    /// The ledger still holds the identifier that was just used.
    LedgerNotAdvanced,
    DeleteFailed { error: ApiError },
    BrowserFailed,
    Aborted { reason: AbortReason },
}

/// The outcome of a step.
#[derive(Debug, Clone, PartialEq, Eq)]
pub struct Transition<T> {
    pub next: State<T>,
    pub notice: Option<Notice<T>>,
}

impl View for Meeting<String> {
    type V = Meeting<Seq<char>>;

    open spec fn view(&self) -> Meeting<Seq<char>> {
        Meeting {
            request_id: self.request_id,
            token: self.token@,
            event_id: self.event_id@,
            link: self.link@,
        }
    }
}

impl View for State<String> {
    type V = State<Seq<char>>;

    open spec fn view(&self) -> State<Seq<char>> {
        match *self {
            State::Init => State::Init,
            State::Ready { request_id } => State::Ready { request_id },
            State::Authorized { request_id, token } => State::Authorized {
                request_id,
                token: token@,
            },
            State::Created { meeting } => State::Created { meeting: meeting@ },
            State::LinkDelivered { meeting } => State::LinkDelivered { meeting: meeting@ },
            State::AdvancedLedger { meeting, advanced } => State::AdvancedLedger {
                meeting: meeting@,
                advanced,
            },
            State::Deleted { link, advanced } => State::Deleted { link: link@, advanced },
            State::Done { link, advanced } => State::Done { link: link@, advanced },
            State::Aborted { reason } => State::Aborted { reason },
        }
    }
}

impl View for Event<String> {
    type V = Event<Seq<char>>;

    open spec fn view(&self) -> Event<Seq<char>> {
        match *self {
            Event::LedgerRead { contents } => Event::LedgerRead { contents: contents@ },
            Event::LedgerUnreadable => Event::LedgerUnreadable,
            Event::TokenGranted { token } => Event::TokenGranted { token: token@ },
            Event::TokenDenied { denial } => Event::TokenDenied { denial },
            Event::EventCreated { id, link } => Event::EventCreated { id: id@, link: link@ },
            Event::CreateFailed { error } => Event::CreateFailed { error },
            Event::LinkCopied { ok } => Event::LinkCopied { ok },
            Event::LedgerWritten { ok } => Event::LedgerWritten { ok },
            Event::DeleteFinished { failure } => Event::DeleteFinished { failure },
            Event::BrowserOpened { ok } => Event::BrowserOpened { ok },
        }
    }
}

impl View for Action<String> {
    type V = Action<Seq<char>>;

    open spec fn view(&self) -> Action<Seq<char>> {
        match *self {
            Action::ReadLedger => Action::ReadLedger,
            Action::Authorize => Action::Authorize,
            Action::CreateEvent { request_id, token } => Action::CreateEvent {
                request_id,
                token: token@,
            },
            Action::CopyLink { link } => Action::CopyLink { link: link@ },
            Action::WriteLedger { contents } => Action::WriteLedger { contents: contents@ },
            Action::DeleteEvent { event_id, token } => Action::DeleteEvent {
                event_id: event_id@,
                token: token@,
            },
            Action::OpenBrowser { link } => Action::OpenBrowser { link: link@ },
            Action::Exit { success } => Action::Exit { success },
        }
    }
}

impl View for Notice<String> {
    type V = Notice<Seq<char>>;

    open spec fn view(&self) -> Notice<Seq<char>> {
        match *self {
            Notice::LinkReady { link } => Notice::LinkReady { link: link@ },
            Notice::LinkCopied => Notice::LinkCopied,
            Notice::ClipboardFailed => Notice::ClipboardFailed,
            Notice::LedgerNotAdvanced => Notice::LedgerNotAdvanced,
            Notice::DeleteFailed { error } => Notice::DeleteFailed { error },
            Notice::BrowserFailed => Notice::BrowserFailed,
            Notice::Aborted { reason } => Notice::Aborted { reason },
        }
    }
}

impl View for Transition<String> {
    type V = Transition<Seq<char>>;

    open spec fn view(&self) -> Transition<Seq<char>> {
        Transition {
            next: self.next@,
            notice: match self.notice {
                Some(notice) => Some(notice@),
                None => None,
            },
        }
    }
}

/// A step that tells the user nothing.
pub open spec fn quiet(next: State<Seq<char>>) -> Transition<Seq<char>> {
    Transition { next, notice: None }
}

/// A step that tells the user something.
pub open spec fn telling(next: State<Seq<char>>, notice: Notice<Seq<char>>) -> Transition<
    Seq<char>,
> {
    Transition { next, notice: Some(notice) }
}

/// The step that gives the run up.
pub open spec fn abort(reason: AbortReason) -> Transition<Seq<char>> {
    telling(State::Aborted { reason }, Notice::Aborted { reason })
}

/// What an event makes of a state.
///
/// A failure before the event exists is fatal. A failure afterwards is
/// reported and the run goes on, because the user has the link by then. An
/// event that does not answer the question that the state asked changes
/// nothing.
pub open spec fn transition(state: State<Seq<char>>, event: Event<Seq<char>>) -> Transition<
    Seq<char>,
> {
    match (state, event) {
        (State::Init, Event::LedgerRead { contents }) => match parse_request_id_spec(contents) {
            Ok(request_id) => quiet(State::Ready { request_id }),
            Err(error) => abort(AbortReason::Config(ConfigError::LedgerMalformed(error))),
        },
        (State::Init, Event::LedgerUnreadable) => abort(
            AbortReason::Config(ConfigError::LedgerUnreadable),
        ),
        (State::Ready { request_id }, Event::TokenGranted { token }) => quiet(
            State::Authorized { request_id, token },
        ),
        (State::Ready { .. }, Event::TokenDenied { denial }) => abort(AbortReason::Auth(denial)),
        (State::Authorized { request_id, token }, Event::EventCreated { id, link }) => telling(
            State::Created { meeting: Meeting { request_id, token, event_id: id, link } },
            Notice::LinkReady { link },
        ),
        (State::Authorized { .. }, Event::CreateFailed { error }) => abort(AbortReason::Api(error)),
        (State::Created { meeting }, Event::LinkCopied { ok }) => telling(
            State::LinkDelivered { meeting },
            if ok {
                Notice::LinkCopied
            } else {
                Notice::ClipboardFailed
            },
        ),
        (State::LinkDelivered { meeting }, Event::LedgerWritten { ok }) => Transition {
            next: State::AdvancedLedger { meeting, advanced: ok },
            notice: if ok {
                None
            } else {
                Some(Notice::LedgerNotAdvanced)
            },
        },
        (State::AdvancedLedger { meeting, advanced }, Event::DeleteFinished { failure }) => Transition {
            next: State::Deleted { link: meeting.link, advanced },
            notice: match failure {
                None => None,
                Some(e) => Some(Notice::DeleteFailed { error: e }),
            },
        },
        (State::Deleted { link, advanced }, Event::BrowserOpened { ok }) => Transition {
            next: State::Done { link, advanced },
            notice: if ok {
                None
            } else {
                Some(Notice::BrowserFailed)
            },
        },
        _ => quiet(state),
    }
}

/// The state that an event leads to.
pub open spec fn next_state(state: State<Seq<char>>, event: Event<Seq<char>>) -> State<Seq<char>> {
    transition(state, event).next
}

/// The outside work that a state asks for.
pub open spec fn pending(state: State<Seq<char>>) -> Action<Seq<char>> {
    match state {
        State::Init => Action::ReadLedger,
        State::Ready { .. } => Action::Authorize,
        State::Authorized { request_id, token } => Action::CreateEvent { request_id, token },
        State::Created { meeting } => Action::CopyLink { link: meeting.link },
        State::LinkDelivered { meeting } => Action::WriteLedger {
            contents: decimal_text((meeting.request_id + 1) as nat),
        },
        State::AdvancedLedger { meeting, .. } => Action::DeleteEvent {
            event_id: meeting.event_id,
            token: meeting.token,
        },
        State::Deleted { link, .. } => Action::OpenBrowser { link },
        State::Done { .. } => Action::Exit { success: true },
        State::Aborted { .. } => Action::Exit { success: false },
    }
}

/// The state in which every run starts.
pub fn initial_state() -> (state: State<String>)
    ensures
        state@ == State::<Seq<char>>::Init,
{
    State::Init
}

fn give_up(reason: AbortReason) -> (t: Transition<String>)
    ensures
        t@ == abort(reason),
{
    Transition { next: State::Aborted { reason }, notice: Some(Notice::Aborted { reason }) }
}

/// Takes the run one step further: from the state and what came of its
/// action to the next state, and to what the user is to be told.
pub fn step(state: State<String>, event: Event<String>) -> (t: Transition<String>)
    ensures
        t@ == transition(state@, event@),
{
    match (state, event) {
        (State::Init, Event::LedgerRead { contents }) => match parse_request_id(
            contents.as_str(),
        ) {
            Ok(request_id) => Transition { next: State::Ready { request_id }, notice: None },
            Err(error) => give_up(AbortReason::Config(ConfigError::LedgerMalformed(error))),
        },
        (State::Init, Event::LedgerUnreadable) => give_up(
            AbortReason::Config(ConfigError::LedgerUnreadable),
        ),
        (State::Ready { request_id }, Event::TokenGranted { token }) => Transition {
            next: State::Authorized { request_id, token },
            notice: None,
        },
        (State::Ready { .. }, Event::TokenDenied { denial }) => give_up(AbortReason::Auth(denial)),
        (State::Authorized { request_id, token }, Event::EventCreated { id, link }) => {
            let shown = link.clone();
            Transition {
                next: State::Created {
                    meeting: Meeting { request_id, token, event_id: id, link },
                },
                notice: Some(Notice::LinkReady { link: shown }),
            }
        },
        (State::Authorized { .. }, Event::CreateFailed { error }) => give_up(
            AbortReason::Api(error),
        ),
        (State::Created { meeting }, Event::LinkCopied { ok }) => Transition {
            next: State::LinkDelivered { meeting },
            notice: Some(
                if ok {
                    Notice::LinkCopied
                } else {
                    Notice::ClipboardFailed
                },
            ),
        },
        (State::LinkDelivered { meeting }, Event::LedgerWritten { ok }) => Transition {
            next: State::AdvancedLedger { meeting, advanced: ok },
            notice: if ok {
                None
            } else {
                Some(Notice::LedgerNotAdvanced)
            },
        },
        (State::AdvancedLedger { meeting, advanced }, Event::DeleteFinished { failure }) => Transition {
            next: State::Deleted { link: meeting.link, advanced },
            notice: match failure {
                None => None,
                Some(e) => Some(Notice::DeleteFailed { error: e }),
            },
        },
        (State::Deleted { link, advanced }, Event::BrowserOpened { ok }) => Transition {
            next: State::Done { link, advanced },
            notice: if ok {
                None
            } else {
                Some(Notice::BrowserFailed)
            },
        },
        (state, _) => Transition { next: state, notice: None },
    }
}

/// The outside work that `state` asks for.
pub fn pending_action(state: &State<String>) -> (action: Action<String>)
    ensures
        action@ == pending(state@),
{
    match state {
        State::Init => Action::ReadLedger,
        State::Ready { .. } => Action::Authorize,
        State::Authorized { request_id, token } => Action::CreateEvent {
            request_id: *request_id,
            token: token.clone(),
        },
        State::Created { meeting } => Action::CopyLink { link: meeting.link.clone() },
        State::LinkDelivered { meeting } => Action::WriteLedger {
            contents: next_ledger_text(meeting.request_id),
        },
        State::AdvancedLedger { meeting, .. } => Action::DeleteEvent {
            event_id: meeting.event_id.clone(),
            token: meeting.token.clone(),
        },
        State::Deleted { link, .. } => Action::OpenBrowser { link: link.clone() },
        State::Done { .. } => Action::Exit { success: true },
        State::Aborted { .. } => Action::Exit { success: false },
    }
}

/// What reading the ledger file came to. `None` stands for a file that is
/// missing or cannot be read.
pub fn ledger_event(contents: Option<String>) -> (event: Event<String>)
    ensures
        event@ == match contents {
            Some(text) => Event::LedgerRead { contents: text@ },
            None => Event::LedgerUnreadable,
        },
{
    match contents {
        Some(text) => Event::LedgerRead { contents: text },
        None => Event::LedgerUnreadable,
    }
}

/// What the authorization came to. A flow that ends without an access
/// token has failed.
pub fn auth_event(outcome: Result<Option<String>, AuthError>) -> (event: Event<String>)
    ensures
        event@ == match outcome {
            Ok(Some(token)) => Event::TokenGranted { token: token@ },
            Ok(None) => Event::TokenDenied { denial: AuthError::MissingToken },
            Err(denial) => Event::TokenDenied { denial },
        },
{
    match outcome {
        Ok(Some(token)) => Event::TokenGranted { token },
        Ok(None) => Event::TokenDenied { denial: AuthError::MissingToken },
        Err(denial) => Event::TokenDenied { denial },
    }
}

/// What the creation call came to.
pub fn creation_event(outcome: Result<CreateEventResponse, ApiError>) -> (event: Event<String>)
    ensures
        event@ == match outcome {
            Ok(response) => Event::EventCreated { id: response.id@, link: response.link@ },
            Err(error) => Event::CreateFailed { error },
        },
{
    match outcome {
        Ok(response) => Event::EventCreated { id: response.id, link: response.link },
        Err(error) => Event::CreateFailed { error },
    }
}

/// What the deletion call came to.
pub fn deletion_event(outcome: Result<(), ApiError>) -> (event: Event<String>)
    ensures
        event@ == (Event::<Seq<char>>::DeleteFinished {
            failure: match outcome {
                Ok(_) => None,
                Err(error) => Some(error),
            },
        }),
{
    match outcome {
        Ok(_) => Event::DeleteFinished { failure: None },
        Err(error) => Event::DeleteFinished { failure: Some(error) },
    }
}

} // verus!
