//! The events that the chat platform sends, and how they are read from JSON.
//!
//! An event is read from a JSON object by the names of its members. A member
//! that the event does not know is ignored; a required member that is missing
//! or of another type makes the whole value unreadable.

use vstd::prelude::*;
use crate::decimal::{parse_i64, parse_i64_spec};
use crate::json::{JsonValue, JsonView};
use crate::text::{chars_of, text_view, texts_view};

verus! {

/// The handshake by which the platform confirms who owns the webhook.
#[derive(Default, Debug, Clone, PartialEq)]
pub struct UrlVerificationEvent {
    pub token: String,
    pub challenge: String,
    pub type_field: String,
}

/// The envelope of a "link shared" event.
#[derive(Default, Debug, Clone, PartialEq)]
pub struct LinkSharedEvent {
    pub token: String,
    pub team_id: Option<String>,
    pub api_app_id: String,
    pub event: Event,
    pub type_field: String,
    pub authed_users: Option<Vec<String>>,
    pub event_id: String,
    pub event_time: i64,
}

/// The inner event: where the links were shared, and the links, in order.
#[derive(Default, Debug, Clone, PartialEq)]
pub struct Event {
    pub type_field: String,
    pub channel: String,
    pub is_bot_user_member: bool,
    pub user: Option<String>,
    pub message_ts: String,
    pub unfurl_id: String,
    pub thread_ts: Option<String>,
    pub source: String,
    pub links: Vec<Link>,
}

/// One shared link.
#[derive(Default, Debug, Clone, PartialEq)]
pub struct Link {
    pub domain: String,
    pub url: String,
}

/// A recognised event.
#[derive(Debug, Clone, PartialEq)]
pub enum SlackEvent {
    UrlVerification(UrlVerificationEvent),
    LinkShared(LinkSharedEvent),
}

pub struct UrlVerificationEventView {
    pub token: Seq<char>,
    pub challenge: Seq<char>,
    pub type_field: Seq<char>,
}

pub struct LinkView {
    pub domain: Seq<char>,
    pub url: Seq<char>,
}

pub struct EventView {
    pub type_field: Seq<char>,
    pub channel: Seq<char>,
    pub is_bot_user_member: bool,
    pub user: Option<Seq<char>>,
    pub message_ts: Seq<char>,
    pub unfurl_id: Seq<char>,
    pub thread_ts: Option<Seq<char>>,
    pub source: Seq<char>,
    pub links: Seq<LinkView>,
}

pub struct LinkSharedEventView {
    pub token: Seq<char>,
    pub team_id: Option<Seq<char>>,
    pub api_app_id: Seq<char>,
    pub event: EventView,
    pub type_field: Seq<char>,
    pub authed_users: Option<Seq<Seq<char>>>,
    pub event_id: Seq<char>,
    pub event_time: i64,
}

pub enum SlackEventView {
    UrlVerification(UrlVerificationEventView),
    LinkShared(LinkSharedEventView),
}

/// The views of a list of links.
pub open spec fn links_view(links: Seq<Link>) -> Seq<LinkView> {
    Seq::new(links.len(), |i: int| links[i]@)
}

impl View for UrlVerificationEvent {
    type V = UrlVerificationEventView;

    open spec fn view(&self) -> UrlVerificationEventView {
        UrlVerificationEventView {
            token: self.token@,
            challenge: self.challenge@,
            type_field: self.type_field@,
        }
    }
}

impl View for Link {
    type V = LinkView;

    open spec fn view(&self) -> LinkView {
        LinkView { domain: self.domain@, url: self.url@ }
    }
}

impl View for Event {
    type V = EventView;

    open spec fn view(&self) -> EventView {
        EventView {
            type_field: self.type_field@,
            channel: self.channel@,
            is_bot_user_member: self.is_bot_user_member,
            user: text_view(self.user),
            message_ts: self.message_ts@,
            unfurl_id: self.unfurl_id@,
            thread_ts: text_view(self.thread_ts),
            source: self.source@,
            links: links_view(self.links@),
        }
    }
}

impl View for LinkSharedEvent {
    type V = LinkSharedEventView;

    open spec fn view(&self) -> LinkSharedEventView {
        LinkSharedEventView {
            token: self.token@,
            team_id: text_view(self.team_id),
            api_app_id: self.api_app_id@,
            event: self.event@,
            type_field: self.type_field@,
            authed_users: match self.authed_users {
                Some(users) => Some(texts_view(users@)),
                None => None,
            },
            event_id: self.event_id@,
            event_time: self.event_time,
        }
    }
}

impl View for SlackEvent {
    type V = SlackEventView;

    open spec fn view(&self) -> SlackEventView {
        match self {
            SlackEvent::UrlVerification(e) => SlackEventView::UrlVerification(e@),
            SlackEvent::LinkShared(e) => SlackEventView::LinkShared(e@),
        }
    }
}

/// A required string member: its characters, or `None` where the member is
/// missing or no string.
pub open spec fn text_member(obj: JsonView, key: Seq<char>) -> Option<Seq<char>> {
    match obj.member(key) {
        Some(v) => v.as_text(),
        None => None,
    }
}

/// An optional string member. A missing member and `null` read as no string;
/// a member of another type is unreadable, which the outer `None` says.
pub open spec fn optional_text_member(obj: JsonView, key: Seq<char>) -> Option<Option<Seq<char>>> {
    match obj.member(key) {
        None => Some(None),
        Some(JsonView::Null) => Some(None),
        Some(JsonView::Text(s)) => Some(Some(s)),
        Some(_) => None,
    }
}

/// A required boolean member.
pub open spec fn bool_member(obj: JsonView, key: Seq<char>) -> Option<bool> {
    match obj.member(key) {
        Some(v) => v.as_bool(),
        None => None,
    }
}

/// A required member that is a whole number in the range of `i64`.
pub open spec fn i64_member(obj: JsonView, key: Seq<char>) -> Option<i64> {
    match obj.member(key) {
        Some(JsonView::Number(n)) => parse_i64_spec(n),
        _ => None,
    }
}

/// The strings of an array whose items are all strings.
pub open spec fn texts_of(items: Seq<JsonView>) -> Option<Seq<Seq<char>>> {
    if forall|i: int| 0 <= i < items.len() ==> (#[trigger] items[i].as_text()) is Some {
        Some(Seq::new(items.len(), |i: int| items[i].as_text().unwrap()))
    } else {
        None
    }
}

/// An optional member that is an array of strings. A missing member and
/// `null` read as no list.
pub open spec fn optional_texts_member(obj: JsonView, key: Seq<char>) -> Option<
    Option<Seq<Seq<char>>>,
> {
    match obj.member(key) {
        None => Some(None),
        Some(JsonView::Null) => Some(None),
        Some(JsonView::Array(items)) => match texts_of(items) {
            Some(list) => Some(Some(list)),
            None => None,
        },
        Some(_) => None,
    }
}

/// The handshake that a JSON value holds: an object with the strings
/// `token`, `challenge` and `type`.
pub open spec fn url_verification_of(j: JsonView) -> Option<UrlVerificationEventView> {
    let token = text_member(j, "token"@);
    let challenge = text_member(j, "challenge"@);
    let type_field = text_member(j, "type"@);
    if token is Some && challenge is Some && type_field is Some {
        Some(
            UrlVerificationEventView {
                token: token.unwrap(),
                challenge: challenge.unwrap(),
                type_field: type_field.unwrap(),
            },
        )
    } else {
        None
    }
}

/// The link that a JSON value holds: an object with the strings `domain` and
/// `url`.
pub open spec fn link_of(j: JsonView) -> Option<LinkView> {
    let domain = text_member(j, "domain"@);
    let url = text_member(j, "url"@);
    if domain is Some && url is Some {
        Some(LinkView { domain: domain.unwrap(), url: url.unwrap() })
    } else {
        None
    }
}

/// The links of an array whose items are all links, in the array's order.
pub open spec fn links_of(items: Seq<JsonView>) -> Option<Seq<LinkView>> {
    if forall|i: int| 0 <= i < items.len() ==> (#[trigger] link_of(items[i])) is Some {
        Some(Seq::new(items.len(), |i: int| link_of(items[i]).unwrap()))
    } else {
        None
    }
}

/// The required member `links`: an array of links.
pub open spec fn links_member(obj: JsonView, key: Seq<char>) -> Option<Seq<LinkView>> {
    match obj.member(key) {
        Some(JsonView::Array(items)) => links_of(items),
        _ => None,
    }
}

/// The inner event that a JSON value holds. `user` and `thread_ts` are
/// optional; every other member is required.
pub open spec fn event_of(j: JsonView) -> Option<EventView> {
    let type_field = text_member(j, "type"@);
    let channel = text_member(j, "channel"@);
    let is_bot_user_member = bool_member(j, "is_bot_user_member"@);
    let user = optional_text_member(j, "user"@);
    let message_ts = text_member(j, "message_ts"@);
    let unfurl_id = text_member(j, "unfurl_id"@);
    let thread_ts = optional_text_member(j, "thread_ts"@);
    let source = text_member(j, "source"@);
    let links = links_member(j, "links"@);
    if type_field is Some && channel is Some && is_bot_user_member is Some && user is Some
        && message_ts is Some && unfurl_id is Some && thread_ts is Some && source is Some
        && links is Some {
        Some(
            EventView {
                type_field: type_field.unwrap(),
                channel: channel.unwrap(),
                is_bot_user_member: is_bot_user_member.unwrap(),
                user: user.unwrap(),
                message_ts: message_ts.unwrap(),
                unfurl_id: unfurl_id.unwrap(),
                thread_ts: thread_ts.unwrap(),
                source: source.unwrap(),
                links: links.unwrap(),
            },
        )
    } else {
        None
    }
}

/// The required member `event`: an inner event.
pub open spec fn event_member(obj: JsonView, key: Seq<char>) -> Option<EventView> {
    match obj.member(key) {
        Some(v) => event_of(v),
        None => None,
    }
}

/// The "link shared" envelope that a JSON value holds. `team_id` and
/// `authed_users` are optional; every other member is required.
pub open spec fn link_shared_of(j: JsonView) -> Option<LinkSharedEventView> {
    let token = text_member(j, "token"@);
    let team_id = optional_text_member(j, "team_id"@);
    let api_app_id = text_member(j, "api_app_id"@);
    let event = event_member(j, "event"@);
    let type_field = text_member(j, "type"@);
    let authed_users = optional_texts_member(j, "authed_users"@);
    let event_id = text_member(j, "event_id"@);
    let event_time = i64_member(j, "event_time"@);
    if token is Some && team_id is Some && api_app_id is Some && event is Some && type_field is Some
        && authed_users is Some && event_id is Some && event_time is Some {
        Some(
            LinkSharedEventView {
                token: token.unwrap(),
                team_id: team_id.unwrap(),
                api_app_id: api_app_id.unwrap(),
                event: event.unwrap(),
                type_field: type_field.unwrap(),
                authed_users: authed_users.unwrap(),
                event_id: event_id.unwrap(),
                event_time: event_time.unwrap(),
            },
        )
    } else {
        None
    }
}

/// Reads a required string member.
pub fn read_text(obj: &JsonValue, key: &str) -> (r: Option<String>)
    ensures
        text_view(r) == text_member(obj@, key@),
{
    match obj.get(key) {
        Some(v) => match v.as_str() {
            Some(s) => Some(s.to_owned()),
            None => None,
        },
        None => None,
    }
}

/// Reads an optional string member; the outer `None` says that the member is
/// there and is neither a string nor `null`.
pub fn read_optional_text(obj: &JsonValue, key: &str) -> (r: Option<Option<String>>)
    ensures
        match r {
            Some(inner) => optional_text_member(obj@, key@) == Some(text_view(inner)),
            None => optional_text_member(obj@, key@) is None,
        },
{
    match obj.get(key) {
        None => Some(None),
        Some(v) => match v {
            JsonValue::Null => Some(None),
            JsonValue::Text(s) => Some(Some(s.clone())),
            _ => None,
        },
    }
}

/// Reads a required boolean member.
pub fn read_bool(obj: &JsonValue, key: &str) -> (r: Option<bool>)
    ensures
        r == bool_member(obj@, key@),
{
    match obj.get(key) {
        Some(v) => v.as_bool(),
        None => None,
    }
}

/// Reads a required member that is a whole number in the range of `i64`.
pub fn read_i64(obj: &JsonValue, key: &str) -> (r: Option<i64>)
    ensures
        r == i64_member(obj@, key@),
{
    match obj.get(key) {
        Some(v) => match v.as_number() {
            Some(n) => {
                let chars = chars_of(n);
                parse_i64(chars.as_slice())
            },
            None => None,
        },
        None => None,
    }
}

/// Reads the strings of an array whose items are all strings.
pub fn read_texts(items: &Vec<JsonValue>) -> (r: Option<Vec<String>>)
    ensures
        match r {
            Some(list) => texts_of(crate::json::items_view(items@)) == Some(texts_view(list@)),
            None => texts_of(crate::json::items_view(items@)) is None,
        },
{
    let ghost views = crate::json::items_view(items@);
    let mut list: Vec<String> = Vec::new();
    let mut i: usize = 0;
    while i < items.len()
        invariant
            i <= items.len(),
            views == crate::json::items_view(items@),
            list@.len() == i,
            forall|k: int| 0 <= k < i ==> (#[trigger] views[k].as_text()) == Some(list@[k]@),
        decreases items.len() - i,
    {
        match items[i].as_str() {
            Some(s) => {
                list.push(s.to_owned());
            },
            None => {
                proof {
                    assert(views[i as int].as_text() is None);
                }
                return None;
            },
        }
        i += 1;
    }
    proof {
        assert(texts_of(views).unwrap() =~= texts_view(list@));
    }
    Some(list)
}

/// Reads an optional member that is an array of strings.
pub fn read_optional_texts(obj: &JsonValue, key: &str) -> (r: Option<Option<Vec<String>>>)
    ensures
        match r {
            Some(Some(list)) => optional_texts_member(obj@, key@) == Some(Some(texts_view(list@))),
            Some(None) => optional_texts_member(obj@, key@) == Some(
                None::<Seq<Seq<char>>>,
            ),
            None => optional_texts_member(obj@, key@) is None,
        },
{
    match obj.get(key) {
        None => Some(None),
        Some(v) => {
            if v.is_null() {
                return Some(None);
            }
            match v.as_array() {
                Some(items) => match read_texts(items) {
                    Some(list) => Some(Some(list)),
                    None => None,
                },
                None => None,
            }
        },
    }
}

impl UrlVerificationEvent {
    /// Reads the handshake from a JSON value.
    pub fn from_json(j: &JsonValue) -> (r: Option<UrlVerificationEvent>)
        ensures
            match r {
                Some(e) => url_verification_of(j@) == Some(e@),
                None => url_verification_of(j@) is None,
            },
    {
        let token = match read_text(j, "token") {
            Some(s) => s,
            None => return None,
        };
        let challenge = match read_text(j, "challenge") {
            Some(s) => s,
            None => return None,
        };
        let type_field = match read_text(j, "type") {
            Some(s) => s,
            None => return None,
        };
        Some(UrlVerificationEvent { token, challenge, type_field })
    }
}

impl Link {
    /// Reads a link from a JSON value.
    pub fn from_json(j: &JsonValue) -> (r: Option<Link>)
        ensures
            match r {
                Some(l) => link_of(j@) == Some(l@),
                None => link_of(j@) is None,
            },
    {
        let domain = match read_text(j, "domain") {
            Some(s) => s,
            None => return None,
        };
        let url = match read_text(j, "url") {
            Some(s) => s,
            None => return None,
        };
        Some(Link { domain, url })
    }
}

/// Reads the links of an array whose items are all links.
pub fn read_links(items: &Vec<JsonValue>) -> (r: Option<Vec<Link>>)
    ensures
        match r {
            Some(links) => links_of(crate::json::items_view(items@)) == Some(links_view(links@)),
            None => links_of(crate::json::items_view(items@)) is None,
        },
{
    let ghost views = crate::json::items_view(items@);
    let mut links: Vec<Link> = Vec::new();
    let mut i: usize = 0;
    while i < items.len()
        invariant
            i <= items.len(),
            views == crate::json::items_view(items@),
            links@.len() == i,
            forall|k: int| 0 <= k < i ==> (#[trigger] link_of(views[k])) == Some(links@[k]@),
        decreases items.len() - i,
    {
        match Link::from_json(&items[i]) {
            Some(link) => {
                links.push(link);
            },
            None => {
                proof {
                    assert(link_of(views[i as int]) is None);
                }
                return None;
            },
        }
        i += 1;
    }
    proof {
        assert(links_of(views).unwrap() =~= links_view(links@));
    }
    Some(links)
}

/// Reads the required member `key`: an array of links.
pub fn read_links_member(obj: &JsonValue, key: &str) -> (r: Option<Vec<Link>>)
    ensures
        match r {
            Some(links) => links_member(obj@, key@) == Some(links_view(links@)),
            None => links_member(obj@, key@) is None,
        },
{
    match obj.get(key) {
        Some(v) => match v.as_array() {
            Some(items) => read_links(items),
            None => None,
        },
        None => None,
    }
}

impl Event {
    /// Reads the inner event from a JSON value.
    pub fn from_json(j: &JsonValue) -> (r: Option<Event>)
        ensures
            match r {
                Some(e) => event_of(j@) == Some(e@),
                None => event_of(j@) is None,
            },
    {
        let type_field = match read_text(j, "type") {
            Some(s) => s,
            None => return None,
        };
        let channel = match read_text(j, "channel") {
            Some(s) => s,
            None => return None,
        };
        let is_bot_user_member = match read_bool(j, "is_bot_user_member") {
            Some(b) => b,
            None => return None,
        };
        let user = match read_optional_text(j, "user") {
            Some(s) => s,
            None => return None,
        };
        let message_ts = match read_text(j, "message_ts") {
            Some(s) => s,
            None => return None,
        };
        let unfurl_id = match read_text(j, "unfurl_id") {
            Some(s) => s,
            None => return None,
        };
        let thread_ts = match read_optional_text(j, "thread_ts") {
            Some(s) => s,
            None => return None,
        };
        let source = match read_text(j, "source") {
            Some(s) => s,
            None => return None,
        };
        let links = match read_links_member(j, "links") {
            Some(l) => l,
            None => return None,
        };
        Some(
            Event {
                type_field,
                channel,
                is_bot_user_member,
                user,
                message_ts,
                unfurl_id,
                thread_ts,
                source,
                links,
            },
        )
    }
}

impl LinkSharedEvent {
    /// Reads the "link shared" envelope from a JSON value.
    pub fn from_json(j: &JsonValue) -> (r: Option<LinkSharedEvent>)
        ensures
            match r {
                Some(e) => link_shared_of(j@) == Some(e@),
                None => link_shared_of(j@) is None,
            },
    {
        let token = match read_text(j, "token") {
            Some(s) => s,
            None => return None,
        };
        let team_id = match read_optional_text(j, "team_id") {
            Some(s) => s,
            None => return None,
        };
        let api_app_id = match read_text(j, "api_app_id") {
            Some(s) => s,
            None => return None,
        };
        let event = match j.get("event") {
            Some(v) => match Event::from_json(v) {
                Some(e) => e,
                None => return None,
            },
            None => return None,
        };
        let type_field = match read_text(j, "type") {
            Some(s) => s,
            None => return None,
        };
        let authed_users = match read_optional_texts(j, "authed_users") {
            Some(u) => u,
            None => return None,
        };
        let event_id = match read_text(j, "event_id") {
            Some(s) => s,
            None => return None,
        };
        let event_time = match read_i64(j, "event_time") {
            Some(t) => t,
            None => return None,
        };
        Some(
            LinkSharedEvent {
                token,
                team_id,
                api_app_id,
                event,
                type_field,
                authed_users,
                event_id,
                event_time,
            },
        )
    }
}

} // verus!
