//! What the service answers to a request, and the port it listens on.

use vstd::prelude::*;
use crate::classify::{parse_event_spec, parse_slack_event, Headers};
use crate::decimal::{append_decimal, decimal_text, parse_u64, parse_u64_spec};
use crate::ids::{get_ids_from_url, ids_of_url};
use crate::slack::{
    Link,
    LinkSharedEvent,
    LinkSharedEventView,
    LinkView,
    SlackEvent,
    SlackEventView,
};
use crate::text::chars_of;

verus! {

/// The port of the service where none is configured.
pub const DEFAULT_PORT: u16 = 3000;

/// The method of a request, as far as the service tells methods apart.
#[derive(Debug, Clone, Copy, PartialEq, Eq, Structural)]
pub enum Method {
    Get,
    Post,
    Other,
}

/// An answer: status code and body.
#[derive(Debug, Clone, PartialEq)]
pub struct Reply {
    pub status: u16,
    pub body: String,
}

pub struct ReplyView {
    pub status: u16,
    pub body: Seq<char>,
}

impl View for Reply {
    type V = ReplyView;

    open spec fn view(&self) -> ReplyView {
        ReplyView { status: self.status, body: self.body@ }
    }
}

/// What a request leads to.
#[derive(Debug, Clone, PartialEq)]
pub enum Dispatch {
    /// The answer, and nothing else to do.
    Answer(Reply),
    /// Links were shared: the answer is sent whatever becomes of the preview,
    /// and the event is handed to the orchestrator.
    Unfurl(LinkSharedEvent, Reply),
}

pub enum DispatchView {
    Answer(ReplyView),
    Unfurl(LinkSharedEventView, ReplyView),
}

impl View for Dispatch {
    type V = DispatchView;

    open spec fn view(&self) -> DispatchView {
        match self {
            Dispatch::Answer(reply) => DispatchView::Answer(reply@),
            Dispatch::Unfurl(event, reply) => DispatchView::Unfurl(event@, reply@),
        }
    }
}

/// The summary of the links of an event: a fixed opening, then for each link
/// to a creative, in order, its two identifiers.
pub open spec fn summary_spec(links: Seq<LinkView>) -> Seq<char>
    decreases links.len(),
{
    if links.len() == 0 {
        "Link object received successfully. Got IDs: "@
    } else {
        let before = summary_spec(links.drop_last());
        match ids_of_url(links.last().url) {
            Some((set, item)) => before + ", ("@ + decimal_text(set as nat) + ", "@ + decimal_text(
                item as nat,
            ) + ")"@,
            None => before,
        }
    }
}

/// What a request leads to.
///
/// `GET` is acknowledged. The body of a `POST` is read as an event: a
/// handshake is answered with its challenge, shared links with a summary, and
/// anything else with status 400. Every other method is answered with a
/// notice, with status 200.
pub open spec fn dispatch_spec(method: Method, stamped: bool, body: Seq<char>) -> DispatchView {
    match method {
        Method::Get => DispatchView::Answer(ReplyView { status: 200, body: "GET /"@ }),
        Method::Post => match parse_event_spec(stamped, body) {
            Ok(SlackEventView::UrlVerification(e)) => DispatchView::Answer(
                ReplyView { status: 200, body: e.challenge },
            ),
            Ok(SlackEventView::LinkShared(e)) => DispatchView::Unfurl(
                e,
                ReplyView { status: 200, body: summary_spec(e.event.links) },
            ),
            Err(_) => DispatchView::Answer(ReplyView { status: 400, body: "Bad Request"@ }),
        },
        Method::Other => DispatchView::Answer(
            ReplyView { status: 200, body: "Method Not Supported"@ },
        ),
    }
}

impl Method {
    /// The method with the given name; names are case-sensitive.
    pub fn from_name(name: &str) -> (m: Method)
        ensures
            m == if name@ == "GET"@ {
                Method::Get
            } else if name@ == "POST"@ {
                Method::Post
            } else {
                Method::Other
            },
    {
        let chars = chars_of(name);
        let get = chars_of("GET");
        let post = chars_of("POST");
        if crate::text::equal(chars.as_slice(), get.as_slice()) {
            Method::Get
        } else if crate::text::equal(chars.as_slice(), post.as_slice()) {
            Method::Post
        } else {
            Method::Other
        }
    }
}

/// Writes the summary of the links of an event.
pub fn link_summary(links: &Vec<Link>) -> (summary: String)
    ensures
        summary@ == summary_spec(crate::slack::links_view(links@)),
{
    let ghost views = crate::slack::links_view(links@);
    let mut summary = "Link object received successfully. Got IDs: ".to_owned();
    let mut i: usize = 0;
    proof {
        assert(views.take(0).len() == 0);
    }
    while i < links.len()
        invariant
            i <= links.len(),
            views == crate::slack::links_view(links@),
            summary@ == summary_spec(views.take(i as int)),
        decreases links.len() - i,
    {
        proof {
            let upto = views.take(i + 1);
            assert(upto.drop_last() == views.take(i as int));
            assert(upto.last() == links@[i as int]@);
        }
        match get_ids_from_url(links[i].url.as_str()) {
            Some((set, item)) => {
                summary.append(", (");
                append_decimal(&mut summary, set);
                summary.append(", ");
                append_decimal(&mut summary, item);
                summary.append(")");
            },
            None => {},
        }
        i += 1;
    }
    proof {
        assert(views.take(links.len() as int) == views);
    }
    summary
}

/// Decides what a request leads to.
pub fn dispatch(method: Method, headers: &Headers, body: String) -> (d: Dispatch)
    ensures
        d@ == dispatch_spec(method, headers.is_stamped(), body@),
{
    match method {
        Method::Get => Dispatch::Answer(Reply { status: 200, body: "GET /".to_owned() }),
        Method::Post => match parse_slack_event(headers, body) {
            Ok(SlackEvent::UrlVerification(e)) => Dispatch::Answer(
                Reply { status: 200, body: e.challenge },
            ),
            Ok(SlackEvent::LinkShared(e)) => {
                let summary = link_summary(&e.event.links);
                Dispatch::Unfurl(e, Reply { status: 200, body: summary })
            },
            Err(_) => Dispatch::Answer(Reply { status: 400, body: "Bad Request".to_owned() }),
        },
        Method::Other => Dispatch::Answer(
            Reply { status: 200, body: "Method Not Supported".to_owned() },
        ),
    }
}

/// Why the service cannot start.
#[derive(Debug, Clone, Copy, PartialEq, Eq, Structural)]
pub enum ConfigError {
    /// The configured port is no number from 1 to 65535.
    InvalidPort,
}

/// The port of the service: the default where none is configured; otherwise
/// the configured text must be a decimal number from 1 to 65535.
pub open spec fn port_spec(configured: Option<Seq<char>>) -> Result<u16, ConfigError> {
    match configured {
        None => Ok(DEFAULT_PORT),
        Some(text) => match parse_u64_spec(text) {
            Some(n) => if 1 <= n <= 65535 {
                Ok(n as u16)
            } else {
                Err(ConfigError::InvalidPort)
            },
            None => Err(ConfigError::InvalidPort),
        },
    }
}

/// Decides the port of the service from its configuration.
pub fn resolve_port(configured: Option<&str>) -> (r: Result<u16, ConfigError>)
    ensures
        r == port_spec(
            match configured {
                Some(text) => Some(text@),
                None => None,
            },
        ),
{
    match configured {
        None => Ok(DEFAULT_PORT),
        Some(text) => {
            let chars = chars_of(text);
            match parse_u64(chars.as_slice()) {
                Some(n) => {
                    if 1 <= n && n <= 65535 {
                        Ok(n as u16)
                    } else {
                        Err(ConfigError::InvalidPort)
                    }
                },
                None => Err(ConfigError::InvalidPort),
            }
        },
    }
}

/// A handshake is answered with status 200 and exactly its challenge.
pub proof fn lemma_handshake_echoes_challenge(stamped: bool, body: Seq<char>)
    requires
        parse_event_spec(stamped, body) matches Ok(SlackEventView::UrlVerification(_)),
    ensures
        parse_event_spec(stamped, body) matches Ok(SlackEventView::UrlVerification(e))
            && dispatch_spec(Method::Post, stamped, body) == DispatchView::Answer(
            ReplyView { status: 200, body: e.challenge },
        ),
{
}

/// Every answer has status 200 or 400, and 400 only to a `POST` whose body
/// holds no event.
pub proof fn lemma_reply_status(method: Method, stamped: bool, body: Seq<char>)
    ensures
        match dispatch_spec(method, stamped, body) {
            DispatchView::Answer(reply) => reply.status == 200 || (reply.status == 400 && method
                == Method::Post && parse_event_spec(stamped, body) is Err),
            DispatchView::Unfurl(_, reply) => reply.status == 200,
        },
{
}

} // verus!
