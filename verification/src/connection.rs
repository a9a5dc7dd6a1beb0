//! The life cycle of one connection.
//!
//! A connection is driven from outside: the caller performs the reads and
//! writes, and after each hands the outcome to [`Connection::step`], which
//! moves the connection on and says what to do next.  Parsing, authorizing,
//! resolving and rendering take place within a step.

use crate::config::{Config, ConfigView};
use crate::handler::{process_request, record, record_text, request_plan, Plan, PlanView};
use crate::request::{parsed_url, MAX_REQUEST_BYTES};
use crate::resolver::{file_reply, file_response, FileOutcome, FileOutcomeView};
use crate::response::{Response, ResponseView};
use crate::text::{find_pair, find_pair_from};
use vstd::prelude::*;
use vstd::slice::slice_subrange;
use vstd::string::*;
use vstd::utf8::{decode_utf8, encode_utf8, valid_utf8};

verus! {

/// How many bytes of a request are looked at: the longest request line and
/// the CRLF that ends it.
pub const READ_LIMIT: usize = MAX_REQUEST_BYTES + 2;

/// Carriage return.
pub const CR: u8 = 13;

/// Line feed.
pub const LF: u8 = 10;

/// The part of what was received that is looked at.
pub open spec fn window(received: Seq<u8>) -> Seq<u8> {
    if received.len() > READ_LIMIT {
        received.take(READ_LIMIT as int)
    } else {
        received
    }
}

/// The request line in what was received: the text before the first CRLF
/// within the window.  What follows that CRLF is ignored.  There is none if
/// nothing was received, if the window holds no CRLF, or if the bytes
/// before the CRLF are not UTF-8.
pub open spec fn request_line_of(received: Seq<u8>) -> Option<Seq<char>> {
    match find_pair(window(received), CR, LF) {
        None => None,
        Some(end) => {
            let line = window(received).take(end);
            if valid_utf8(line) {
                Some(decode_utf8(line))
            } else {
                None
            }
        },
    }
}

/// `core::str::from_utf8`.
///
/// Trusted: it succeeds exactly on valid UTF-8, and the text it gives is
/// the one that the bytes encode.
#[verifier::external_body]
fn text_of(bytes: &[u8]) -> (text: Option<&str>)
    ensures
        match text {
            Some(text) => valid_utf8(bytes@) && text@ == decode_utf8(bytes@),
            None => !valid_utf8(bytes@),
        },
{
    match core::str::from_utf8(bytes) {
        Ok(text) => Some(text),
        Err(_) => None,
    }
}

/// Extracts the request line from what one read gave.
pub fn request_line(received: &[u8]) -> (line: Option<String>)
    ensures
        match line {
            Some(line) => request_line_of(received@) == Some(line@),
            None => request_line_of(received@) is None,
        },
{
    let seen = if received.len() > READ_LIMIT {
        slice_subrange(received, 0, READ_LIMIT)
    } else {
        received
    };
    assert(seen@ =~= window(received@));
    let mut i: usize = 0;
    while i + 1 < seen.len()
        invariant
            i <= seen.len(),
            seen@ == window(received@),
            find_pair(seen@, CR, LF) == find_pair_from(seen@, i as int, CR, LF),
        decreases seen.len() - i,
    {
        if seen[i] == CR && seen[i + 1] == LF {
            let before = slice_subrange(seen, 0, i);
            assert(before@ =~= seen@.take(i as int));
            return match text_of(before) {
                Some(text) => Some(text.to_owned()),
                None => None,
            };
        }
        i += 1;
    }
    None
}

/// Where a connection stands.  A new connection has completed its
/// handshake and waits for the one read of up to `READ_LIMIT` bytes.
#[derive(Debug, PartialEq, Eq)]
pub enum Connection {
    /// Waiting for what the read gives.
    ReadingRequest,
    /// Waiting for the outcome of reading the document.
    Resolving { request_line: String },
    /// Waiting for the reply to be written in full.
    Writing,
    /// Done: the stream is to be shut down, and nothing more happens.
    Closed,
}

/// What happened outside.
#[derive(Debug, PartialEq, Eq)]
pub enum Event {
    /// The read gave these bytes; none if the peer closed first.
    Received(Vec<u8>),
    /// The document was looked up.
    Found(FileOutcome),
    /// The reply was written in full.
    Written,
    /// A read or write failed.
    Failed,
}

/// What to do next.
#[derive(Debug, PartialEq, Eq)]
pub enum Action {
    /// Read the document at `location` and report `Event::Found`.
    Fetch { location: String },
    /// Write `bytes` to the stream, log `record`, and report
    /// `Event::Written`.
    Send { bytes: Vec<u8>, record: String },
    /// Shut the stream down.
    Close,
}

/// A connection as contracts see it.
pub enum ConnectionView {
    ReadingRequest,
    Resolving { request_line: Seq<char> },
    Writing,
    Closed,
}

/// An event as contracts see it.
pub enum EventView {
    Received(Seq<u8>),
    Found(FileOutcomeView),
    Written,
    Failed,
}

/// An action as contracts see it.
pub enum ActionView {
    Fetch { location: Seq<char> },
    Send { bytes: Seq<u8>, record: Seq<char> },
    Close,
}

impl View for Connection {
    type V = ConnectionView;

    open spec fn view(&self) -> ConnectionView {
        match self {
            Connection::ReadingRequest => ConnectionView::ReadingRequest,
            Connection::Resolving { request_line } => ConnectionView::Resolving {
                request_line: request_line@,
            },
            Connection::Writing => ConnectionView::Writing,
            Connection::Closed => ConnectionView::Closed,
        }
    }
}

impl View for Event {
    type V = EventView;

    open spec fn view(&self) -> EventView {
        match self {
            Event::Received(bytes) => EventView::Received(bytes@),
            Event::Found(outcome) => EventView::Found(outcome@),
            Event::Written => EventView::Written,
            Event::Failed => EventView::Failed,
        }
    }
}

impl View for Action {
    type V = ActionView;

    open spec fn view(&self) -> ActionView {
        match self {
            Action::Fetch { location } => ActionView::Fetch { location: location@ },
            Action::Send { bytes, record } => ActionView::Send { bytes: bytes@, record: record@ },
            Action::Close => ActionView::Close,
        }
    }
}

/// The action that sends `response` in reply to `line`: the rendered
/// response in UTF-8, and the record for the log.
pub open spec fn sending(response: ResponseView, line: Seq<char>) -> ActionView {
    ActionView::Send {
        bytes: encode_utf8(response.text()),
        record: record_text(response.header.status, line),
    }
}

/// The next state and the action for every state and event.
///
/// What was received either holds no request line, and the connection is
/// closed without a reply, or it is answered: at once if the request is
/// rejected or refused, else after the document was looked up.  Once the
/// reply is written the connection is closed.  A failure, and any event
/// that the state does not wait for, closes the connection.
pub open spec fn transition(
    state: ConnectionView,
    event: EventView,
    config: ConfigView,
) -> (ConnectionView, ActionView) {
    match (state, event) {
        (ConnectionView::ReadingRequest, EventView::Received(received)) => match request_line_of(
            received,
        ) {
            None => (ConnectionView::Closed, ActionView::Close),
            Some(line) => match request_plan(line, parsed_url(line), config) {
                PlanView::Reply(response) => (ConnectionView::Writing, sending(response, line)),
                PlanView::Fetch { location } => (
                    ConnectionView::Resolving { request_line: line },
                    ActionView::Fetch { location },
                ),
            },
        },
        (ConnectionView::Resolving { request_line }, EventView::Found(outcome)) => (
            ConnectionView::Writing,
            sending(file_reply(outcome), request_line),
        ),
        (ConnectionView::Writing, EventView::Written) => (
            ConnectionView::Closed,
            ActionView::Close,
        ),
        _ => (ConnectionView::Closed, ActionView::Close),
    }
}

fn send(response: &Response, line: &str) -> (action: Action)
    ensures
        action@ == sending(response@, line@),
{
    let text = response.render();
    Action::Send {
        bytes: text.as_str().as_bytes_vec(),
        record: record(response.header.status, line),
    }
}

impl Connection {
    /// A connection whose handshake is complete.
    pub fn new() -> (connection: Connection)
        ensures
            connection@ == ConnectionView::ReadingRequest,
    {
        Connection::ReadingRequest
    }

    /// Moves the connection on by one event.
    pub fn step(self, event: Event, config: &Config) -> (next: (Connection, Action))
        ensures
            (next.0@, next.1@) == transition(self@, event@, config@),
    {
        match (self, event) {
            (Connection::ReadingRequest, Event::Received(received)) => {
                match request_line(received.as_slice()) {
                    None => (Connection::Closed, Action::Close),
                    Some(line) => match process_request(line.clone(), config) {
                        Plan::Reply(response) => {
                            let action = send(&response, line.as_str());
                            (Connection::Writing, action)
                        },
                        Plan::Fetch { location } => (
                            Connection::Resolving { request_line: line },
                            Action::Fetch { location },
                        ),
                    },
                }
            },
            (Connection::Resolving { request_line }, Event::Found(outcome)) => {
                let response = file_response(outcome);
                let action = send(&response, request_line.as_str());
                (Connection::Writing, action)
            },
            (Connection::Writing, Event::Written) => (Connection::Closed, Action::Close),
            _ => (Connection::Closed, Action::Close),
        }
    }
}

/// How far a connection has come.
pub open spec fn progress(state: ConnectionView) -> nat {
    match state {
        ConnectionView::ReadingRequest => 0,
        ConnectionView::Resolving { .. } => 1,
        ConnectionView::Writing => 2,
        ConnectionView::Closed => 3,
    }
}

/// The state after a run of events.
pub open spec fn state_after(
    state: ConnectionView,
    events: Seq<EventView>,
    config: ConfigView,
) -> ConnectionView
    decreases events.len(),
{
    if events.len() == 0 {
        state
    } else {
        state_after(transition(state, events[0], config).0, events.drop_first(), config)
    }
}

/// How many replies are sent in a run of events.
pub open spec fn replies_sent(
    state: ConnectionView,
    events: Seq<EventView>,
    config: ConfigView,
) -> nat
    decreases events.len(),
{
    if events.len() == 0 {
        0
    } else {
        let (next, action) = transition(state, events[0], config);
        let sent: nat = if action is Send {
            1
        } else {
            0
        };
        sent + replies_sent(next, events.drop_first(), config)
    }
}

/// Every step moves the connection forward, there is no way back and no
/// cycle.  A reply is sent on entering `Writing` and nowhere else, a
/// document is asked for on entering `Resolving`, and the stream is shut
/// down on entering `Closed`.
pub proof fn lemma_step_moves_forward(
    state: ConnectionView,
    event: EventView,
    config: ConfigView,
)
    ensures
        ({
            let (next, action) = transition(state, event, config);
            &&& progress(next) > progress(state) || (state is Closed && next is Closed)
            &&& action is Send <==> next is Writing
            &&& action is Fetch <==> next is Resolving
            &&& action is Close <==> next is Closed
        }),
{
}

/// A failure closes the connection wherever it stands.
pub proof fn lemma_failure_closes(state: ConnectionView, config: ConfigView)
    ensures
        transition(state, EventView::Failed, config) == (
            ConnectionView::Closed,
            ActionView::Close,
        ),
{
}

/// Every connection is closed after three events at most, whatever they
/// are, and stays closed.
pub proof fn lemma_closes(state: ConnectionView, events: Seq<EventView>, config: ConfigView)
    ensures
        events.len() + progress(state) >= 3 ==> state_after(state, events, config) is Closed,
        progress(state_after(state, events, config)) >= progress(state),
    decreases events.len(),
{
    if events.len() > 0 {
        lemma_step_moves_forward(state, events[0], config);
        lemma_closes(transition(state, events[0], config).0, events.drop_first(), config);
    }
}

/// No connection is sent more than one reply, whatever happens; one that
/// has reached `Writing` is sent none after that.
pub proof fn lemma_one_reply_at_most(
    state: ConnectionView,
    events: Seq<EventView>,
    config: ConfigView,
)
    ensures
        replies_sent(state, events, config) <= 1,
        progress(state) >= 2 ==> replies_sent(state, events, config) == 0,
    decreases events.len(),
{
    if events.len() > 0 {
        lemma_step_moves_forward(state, events[0], config);
        lemma_one_reply_at_most(
            transition(state, events[0], config).0,
            events.drop_first(),
            config,
        );
    }
}

} // verus!
