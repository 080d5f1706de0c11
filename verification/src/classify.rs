//! Telling the events of the platform apart.
//!
//! A request counts as an event of the platform only if it carries the header
//! `x-slack-request-timestamp`; only the presence of the header is looked at.
//! A body with a member `challenge` is then a handshake, and otherwise a body
//! with a member `event` is a "link shared" event.

use vstd::prelude::*;
use crate::json::{json_parse, parse_json, JsonValue, JsonView};
use crate::slack::{
    link_shared_of,
    url_verification_of,
    LinkSharedEvent,
    SlackEvent,
    SlackEventView,
    UrlVerificationEvent,
};
use crate::text::{chars_of, eq_ignoring_ascii_case, equals_ignoring_ascii_case};

verus! {

/// Why a request is no event.
#[derive(Debug, Clone, Copy, PartialEq, Eq, Structural)]
pub enum EventError {
    /// The body is no JSON document.
    MalformedRequest,
    /// The body announces an event and does not have its shape.
    MalformedPayload,
    /// The request is no event that the service knows.
    UnrecognizedEvent,
}

/// The headers of a request: names and values, in order.
#[derive(Default, Debug, Clone, PartialEq)]
pub struct Headers {
    pub entries: Vec<(String, String)>,
}

/// True when one of `entries` is named `name`, whatever the case of letters.
pub open spec fn has_header(entries: Seq<(String, String)>, name: Seq<char>) -> bool {
    exists|i: int| 0 <= i < entries.len() && eq_ignoring_ascii_case(#[trigger] entries[i].0@, name)
}

impl Headers {
    /// No headers.
    pub fn new() -> (h: Headers)
        ensures
            h.entries@.len() == 0,
    {
        Headers { entries: Vec::new() }
    }

    /// Adds a header after those that are there.
    pub fn append(&mut self, name: &str, value: &str)
        ensures
            final(self).entries@.len() == old(self).entries@.len() + 1,
            final(self).entries@.drop_last() == old(self).entries@,
            final(self).entries@.last().0@ == name@,
            final(self).entries@.last().1@ == value@,
    {
        self.entries.push((name.to_owned(), value.to_owned()));
    }

    /// True when a header named `name` is present; names are compared without
    /// regard to the case of ASCII letters.
    pub open spec fn spec_has(&self, name: Seq<char>) -> bool {
        has_header(self.entries@, name)
    }

    /// Decides whether a header named `name` is present.
    pub fn has(&self, name: &str) -> (r: bool)
        ensures
            r == self.spec_has(name@),
    {
        let wanted = chars_of(name);
        let mut i: usize = 0;
        while i < self.entries.len()
            invariant
                i <= self.entries.len(),
                wanted@ == name@,
                forall|k: int|
                    0 <= k < i ==> !eq_ignoring_ascii_case(#[trigger] self.entries@[k].0@, name@),
            decreases self.entries.len() - i,
        {
            let have = chars_of(self.entries[i].0.as_str());
            if equals_ignoring_ascii_case(have.as_slice(), wanted.as_slice()) {
                return true;
            }
            i += 1;
        }
        false
    }

    /// True when the request carries the timestamp header of the platform.
    pub open spec fn is_stamped(&self) -> bool {
        self.spec_has("x-slack-request-timestamp"@)
    }
}

/// A stamped request whose body has a member `challenge` is a handshake.
pub open spec fn is_auth_event(stamped: bool, body: JsonView) -> bool {
    stamped && body.member("challenge"@) is Some
}

/// A stamped request whose body has a member `event` shares links.
pub open spec fn is_link_shared_event(stamped: bool, body: JsonView) -> bool {
    stamped && body.member("event"@) is Some
}

/// The event that a request holds.
///
/// A handshake is looked for first. A body that announces an event by its
/// member and does not have the event's shape is malformed; a request without
/// the timestamp header, or a body with neither member, is not recognised.
pub open spec fn classify_spec(stamped: bool, body: JsonView) -> Result<SlackEventView, EventError> {
    if is_auth_event(stamped, body) {
        match url_verification_of(body) {
            Some(e) => Ok(SlackEventView::UrlVerification(e)),
            None => Err(EventError::MalformedPayload),
        }
    } else if is_link_shared_event(stamped, body) {
        match link_shared_of(body) {
            Some(e) => Ok(SlackEventView::LinkShared(e)),
            None => Err(EventError::MalformedPayload),
        }
    } else {
        Err(EventError::UnrecognizedEvent)
    }
}

/// The event that a request with the body text `text` holds: the text must
/// be a JSON document, which is then classified.
pub open spec fn parse_event_spec(stamped: bool, text: Seq<char>) -> Result<
    SlackEventView,
    EventError,
> {
    match json_parse(text) {
        Some(body) => classify_spec(stamped, body),
        None => Err(EventError::MalformedRequest),
    }
}

/// The view of a classification.
pub open spec fn outcome_view(r: Result<SlackEvent, EventError>) -> Result<
    SlackEventView,
    EventError,
> {
    match r {
        Ok(e) => Ok(e@),
        Err(e) => Err(e),
    }
}

/// Decides whether a request is a handshake.
pub fn is_slack_auth_event(headers: &Headers, json: &JsonValue) -> (r: bool)
    ensures
        r == is_auth_event(headers.is_stamped(), json@),
{
    headers.has("x-slack-request-timestamp") && json.get("challenge").is_some()
}

/// Decides whether a request shares links.
pub fn is_slack_link_shared_event(headers: &Headers, json: &JsonValue) -> (r: bool)
    ensures
        r == is_link_shared_event(headers.is_stamped(), json@),
{
    headers.has("x-slack-request-timestamp") && json.get("event").is_some()
}

/// Classifies a request by its headers and its body.
pub fn classify_event(headers: &Headers, json: &JsonValue) -> (r: Result<SlackEvent, EventError>)
    ensures
        outcome_view(r) == classify_spec(headers.is_stamped(), json@),
{
    if is_slack_auth_event(headers, json) {
        match UrlVerificationEvent::from_json(json) {
            Some(e) => Ok(SlackEvent::UrlVerification(e)),
            None => Err(EventError::MalformedPayload),
        }
    } else if is_slack_link_shared_event(headers, json) {
        match LinkSharedEvent::from_json(json) {
            Some(e) => Ok(SlackEvent::LinkShared(e)),
            None => Err(EventError::MalformedPayload),
        }
    } else {
        Err(EventError::UnrecognizedEvent)
    }
}

/// Reads the body of a request as JSON and classifies the request.
pub fn parse_slack_event(headers: &Headers, json: String) -> (r: Result<SlackEvent, EventError>)
    ensures
        outcome_view(r) == parse_event_spec(headers.is_stamped(), json@),
{
    match parse_json(json.as_str()) {
        Some(body) => classify_event(headers, &body),
        None => Err(EventError::MalformedRequest),
    }
}

/// Without the timestamp header no request is recognised, whatever its body.
pub proof fn lemma_unstamped_is_unrecognized(body: JsonView)
    ensures
        classify_spec(false, body) == Err::<SlackEventView, EventError>(
            EventError::UnrecognizedEvent,
        ),
{
}

/// A recognised event is a handshake exactly when the body has a member
/// `challenge`, and it then carries the challenge of the body.
pub proof fn lemma_recognized_event_kind(stamped: bool, body: JsonView)
    requires
        classify_spec(stamped, body) is Ok,
    ensures
        stamped,
        classify_spec(stamped, body).unwrap() is UrlVerification <==> body.member("challenge"@)
            is Some,
        classify_spec(stamped, body).unwrap() matches SlackEventView::UrlVerification(e)
            ==> body.member("challenge"@) == Some(JsonView::Text(e.challenge)),
        classify_spec(stamped, body).unwrap() is LinkShared ==> body.member("event"@) is Some,
{
}

} // verus!
