//! What to do about a "link shared" event, step by step.
//!
//! The service fetches the metadata of a creative and posts a preview; both
//! are requests over the network, which the caller makes. Between them the
//! functions here decide: from the event what to fetch, from the answer to
//! the fetch what to post, and from the answer to the post how it went.

use vstd::prelude::*;
use crate::ids::{ids_from_path, ids_of_path, parse_url, url_parts};
use crate::json::{json_parse, parse_json, JsonValue, JsonView};
use crate::slack::{LinkSharedEvent, LinkSharedEventView};
use crate::unfurl::{
    build_unfurl_message,
    build_unfurl_request,
    environment_of_host,
    is_success,
    is_success_status,
    lemma_unfurl_request_members,
    metadata_of,
    metadata_url,
    metadata_url_spec,
    read_metadata,
    unfurl_accepted,
    unfurl_accepted_spec,
    unfurl_message_spec,
    unfurl_request_spec,
    Environment,
};

verus! {

/// Why a preview could not be made.
#[derive(Debug, Clone, PartialEq)]
pub enum OrchestratorError {
    /// The event shares no link.
    NoLinksPresent,
    /// A request did not reach the other side; the text says why.
    UpstreamUnreachable(String),
    /// The metadata is no JSON object.
    MalformedUpstreamResponse,
    /// No bot token is configured.
    ConfigurationError,
}

pub enum OrchestratorErrorView {
    NoLinksPresent,
    UpstreamUnreachable(Seq<char>),
    MalformedUpstreamResponse,
    ConfigurationError,
}

impl View for OrchestratorError {
    type V = OrchestratorErrorView;

    open spec fn view(&self) -> OrchestratorErrorView {
        match self {
            OrchestratorError::NoLinksPresent => OrchestratorErrorView::NoLinksPresent,
            OrchestratorError::UpstreamUnreachable(reason) => OrchestratorErrorView::UpstreamUnreachable(
                reason@,
            ),
            OrchestratorError::MalformedUpstreamResponse => OrchestratorErrorView::MalformedUpstreamResponse,
            OrchestratorError::ConfigurationError => OrchestratorErrorView::ConfigurationError,
        }
    }
}

/// The fetch that a link to a creative asks for.
#[derive(Debug, Clone, PartialEq)]
pub struct FetchPlan {
    /// The link as it was shared.
    pub shared_link: String,
    /// Where the metadata is fetched.
    pub metadata_url: String,
    pub creativeset: u64,
    pub creative: u64,
    pub environment: Environment,
}

pub struct FetchPlanView {
    pub shared_link: Seq<char>,
    pub metadata_url: Seq<char>,
    pub creativeset: u64,
    pub creative: u64,
    pub environment: Environment,
}

impl View for FetchPlan {
    type V = FetchPlanView;

    open spec fn view(&self) -> FetchPlanView {
        FetchPlanView {
            shared_link: self.shared_link@,
            metadata_url: self.metadata_url@,
            creativeset: self.creativeset,
            creative: self.creative,
            environment: self.environment,
        }
    }
}

/// What a "link shared" event asks for.
#[derive(Debug, Clone, PartialEq)]
pub enum LinkPlan {
    /// The first link is no link to a creative: nothing is done.
    Ignore,
    /// The metadata of the creative is to be fetched.
    Fetch(FetchPlan),
}

pub enum LinkPlanView {
    Ignore,
    Fetch(FetchPlanView),
}

impl View for LinkPlan {
    type V = LinkPlanView;

    open spec fn view(&self) -> LinkPlanView {
        match self {
            LinkPlan::Ignore => LinkPlanView::Ignore,
            LinkPlan::Fetch(plan) => LinkPlanView::Fetch(plan@),
        }
    }
}

/// How a request over the network ended.
#[derive(Debug, Clone, PartialEq)]
pub enum Exchange {
    /// The other side answered.
    Answered { status: u16, body: String },
    /// The request did not reach the other side; the text says why.
    Failed(String),
}

pub enum ExchangeView {
    Answered { status: u16, body: Seq<char> },
    Failed(Seq<char>),
}

impl View for Exchange {
    type V = ExchangeView;

    open spec fn view(&self) -> ExchangeView {
        match self {
            Exchange::Answered { status, body } => ExchangeView::Answered {
                status: *status,
                body: body@,
            },
            Exchange::Failed(reason) => ExchangeView::Failed(reason@),
        }
    }
}

/// What follows the fetch of the metadata.
#[derive(Debug, PartialEq)]
pub enum UnfurlPlan {
    /// The fetch was answered without success: nothing is posted.
    Skip,
    /// The body of the request that posts the preview.
    Post(JsonValue),
}

pub enum UnfurlPlanView {
    Skip,
    Post(JsonView),
}

impl View for UnfurlPlan {
    type V = UnfurlPlanView;

    open spec fn view(&self) -> UnfurlPlanView {
        match self {
            UnfurlPlan::Skip => UnfurlPlanView::Skip,
            UnfurlPlan::Post(body) => UnfurlPlanView::Post(body@),
        }
    }
}

/// The fetch that a link asks for, if it is a link to a creative.
pub open spec fn fetch_of_link(link: Seq<char>) -> Option<FetchPlanView> {
    match url_parts(link) {
        Some(parts) => match ids_of_path(parts.path) {
            Some((set, item)) => Some(
                FetchPlanView {
                    shared_link: link,
                    metadata_url: metadata_url_spec(environment_of_host(parts.host), set, item),
                    creativeset: set,
                    creative: item,
                    environment: environment_of_host(parts.host),
                },
            ),
            None => None,
        },
        None => None,
    }
}

/// What a "link shared" event asks for.
///
/// An event without links is an error. Otherwise the first link decides, and
/// only the first: a link that is no link to a creative is ignored; a link to
/// a creative asks for its metadata, from the studio of its host.
pub open spec fn link_plan_spec(event: LinkSharedEventView) -> Result<
    LinkPlanView,
    OrchestratorErrorView,
> {
    if event.event.links.len() == 0 {
        Err(OrchestratorErrorView::NoLinksPresent)
    } else {
        match fetch_of_link(event.event.links[0].url) {
            Some(plan) => Ok(LinkPlanView::Fetch(plan)),
            None => Ok(LinkPlanView::Ignore),
        }
    }
}

/// The body of the request that posts the preview of a creative, from its
/// metadata document; `None` where the document is no JSON object.
pub open spec fn unfurl_body_spec(
    meta: JsonView,
    event: LinkSharedEventView,
    plan: FetchPlanView,
) -> Option<JsonView> {
    match metadata_of(meta) {
        Some(shown) => Some(
            unfurl_request_spec(
                event.event.channel,
                event.event.message_ts,
                plan.shared_link,
                unfurl_message_spec(
                    shown,
                    plan.shared_link,
                    plan.creativeset,
                    plan.creative,
                    plan.environment,
                ),
            ),
        ),
        None => None,
    }
}

/// What follows the fetch of the metadata.
///
/// A fetch that did not reach the studio is an error, with its reason. An
/// answer without success ends the work, and nothing is posted. The body of
/// a successful answer must be a JSON object; the preview made from it is
/// posted.
pub open spec fn unfurl_plan_spec(
    event: LinkSharedEventView,
    plan: FetchPlanView,
    exchange: ExchangeView,
) -> Result<UnfurlPlanView, OrchestratorErrorView> {
    match exchange {
        ExchangeView::Failed(reason) => Err(OrchestratorErrorView::UpstreamUnreachable(reason)),
        ExchangeView::Answered { status, body } => if !is_success_status(status) {
            Ok(UnfurlPlanView::Skip)
        } else {
            match json_parse(body) {
                Some(meta) => match unfurl_body_spec(meta, event, plan) {
                    Some(request) => Ok(UnfurlPlanView::Post(request)),
                    None => Err(OrchestratorErrorView::MalformedUpstreamResponse),
                },
                None => Err(OrchestratorErrorView::MalformedUpstreamResponse),
            }
        },
    }
}

/// How the post of a preview went.
///
/// A post that did not reach the platform is an error, with its reason. Any
/// answer ends the work without error; the preview was taken if the answer
/// reports success and its body is a JSON object whose `ok` is `true`.
pub open spec fn conclusion_spec(exchange: ExchangeView) -> Result<bool, OrchestratorErrorView> {
    match exchange {
        ExchangeView::Failed(reason) => Err(OrchestratorErrorView::UpstreamUnreachable(reason)),
        ExchangeView::Answered { status, body } => Ok(
            is_success_status(status) && match json_parse(body) {
                Some(answer) => unfurl_accepted_spec(answer),
                None => false,
            },
        ),
    }
}

/// The view of a step's result.
pub open spec fn step_view<T: View>(r: Result<T, OrchestratorError>) -> Result<
    T::V,
    OrchestratorErrorView,
> {
    match r {
        Ok(v) => Ok(v@),
        Err(e) => Err(e@),
    }
}

/// Decides what a link asks for.
pub fn plan_fetch(shared_link: &str) -> (r: Option<FetchPlan>)
    ensures
        match r {
            Some(plan) => fetch_of_link(shared_link@) == Some(plan@),
            None => fetch_of_link(shared_link@) is None,
        },
{
    match parse_url(shared_link) {
        Some(parts) => match ids_from_path(parts.path.as_str()) {
            Some((creativeset, creative)) => {
                let environment = Environment::of_host(&parts.host);
                Some(
                    FetchPlan {
                        shared_link: shared_link.to_owned(),
                        metadata_url: metadata_url(environment, creativeset, creative),
                        creativeset,
                        creative,
                        environment,
                    },
                )
            },
            None => None,
        },
        None => None,
    }
}

/// Decides what a "link shared" event asks for.
pub fn handle_link_shared_event(event: &LinkSharedEvent) -> (r: Result<LinkPlan, OrchestratorError>)
    ensures
        step_view(r) == link_plan_spec(event@),
{
    if event.event.links.len() == 0 {
        return Err(OrchestratorError::NoLinksPresent);
    }
    let link = &event.event.links[0];
    proof {
        assert(event@.event.links[0] == link@);
    }
    match plan_fetch(link.url.as_str()) {
        Some(plan) => Ok(LinkPlan::Fetch(plan)),
        None => Ok(LinkPlan::Ignore),
    }
}

/// Builds the body of the request that posts the preview of a creative from
/// its metadata document.
pub fn unfurl_request_body(meta: &JsonValue, event: &LinkSharedEvent, plan: &FetchPlan) -> (r:
    Option<JsonValue>)
    ensures
        match r {
            Some(body) => unfurl_body_spec(meta@, event@, plan@) == Some(body@),
            None => unfurl_body_spec(meta@, event@, plan@) is None,
        },
{
    match read_metadata(meta) {
        Some(shown) => {
            let message = build_unfurl_message(
                &shown,
                plan.shared_link.as_str(),
                plan.creativeset,
                plan.creative,
                plan.environment,
            );
            Some(
                build_unfurl_request(
                    event.event.channel.as_str(),
                    event.event.message_ts.as_str(),
                    plan.shared_link.as_str(),
                    message,
                ),
            )
        },
        None => None,
    }
}

/// Decides what follows the fetch of the metadata.
pub fn plan_unfurl(event: &LinkSharedEvent, plan: &FetchPlan, exchange: Exchange) -> (r: Result<
    UnfurlPlan,
    OrchestratorError,
>)
    ensures
        step_view(r) == unfurl_plan_spec(event@, plan@, exchange@),
{
    match exchange {
        Exchange::Failed(reason) => Err(OrchestratorError::UpstreamUnreachable(reason)),
        Exchange::Answered { status, body } => {
            if !is_success(status) {
                return Ok(UnfurlPlan::Skip);
            }
            match parse_json(body.as_str()) {
                Some(meta) => match unfurl_request_body(&meta, event, plan) {
                    Some(request) => Ok(UnfurlPlan::Post(request)),
                    None => Err(OrchestratorError::MalformedUpstreamResponse),
                },
                None => Err(OrchestratorError::MalformedUpstreamResponse),
            }
        },
    }
}

/// Decides how the post of a preview went: whether the platform took it.
pub fn conclude_unfurl(exchange: Exchange) -> (r: Result<bool, OrchestratorError>)
    ensures
        match r {
            Ok(taken) => conclusion_spec(exchange@) == Ok::<bool, OrchestratorErrorView>(taken),
            Err(e) => conclusion_spec(exchange@) == Err::<bool, OrchestratorErrorView>(e@),
        },
{
    match exchange {
        Exchange::Failed(reason) => Err(OrchestratorError::UpstreamUnreachable(reason)),
        Exchange::Answered { status, body } => {
            if !is_success(status) {
                return Ok(false);
            }
            match parse_json(body.as_str()) {
                Some(answer) => Ok(unfurl_accepted(&answer)),
                None => Ok(false),
            }
        },
    }
}

/// The value of the `Authorization` header for a bot token.
pub open spec fn bearer_spec(token: Seq<char>) -> Seq<char> {
    "Bearer "@ + token
}

/// The value of the `Authorization` header of the post; without a configured
/// token there is none, and no post is made.
pub fn authorization_header(token: Option<&str>) -> (r: Result<String, OrchestratorError>)
    ensures
        match token {
            Some(t) => r matches Ok(header) && header@ == bearer_spec(t@),
            None => r matches Err(e) && e@ == OrchestratorErrorView::ConfigurationError,
        },
{
    match token {
        Some(t) => {
            let mut header = "Bearer ".to_owned();
            header.append(t);
            Ok(header)
        },
        None => Err(OrchestratorError::ConfigurationError),
    }
}

/// An event without links is an error, and only such an event: every other
/// event is handled without one.
pub proof fn lemma_only_an_empty_event_fails(event: LinkSharedEventView)
    ensures
        link_plan_spec(event) is Err <==> event.event.links.len() == 0,
{
}

/// Only the first link of an event counts: two events that share their first
/// link ask for the same.
pub proof fn lemma_first_link_decides(first: LinkSharedEventView, second: LinkSharedEventView)
    requires
        first.event.links.len() > 0,
        second.event.links.len() > 0,
        first.event.links[0].url == second.event.links[0].url,
    ensures
        link_plan_spec(first) == link_plan_spec(second),
{
}

/// After an answer without success nothing is posted, whatever its body.
pub proof fn lemma_unsuccessful_fetch_posts_nothing(
    event: LinkSharedEventView,
    plan: FetchPlanView,
    status: u16,
    body: Seq<char>,
)
    requires
        !is_success_status(status),
    ensures
        unfurl_plan_spec(event, plan, ExchangeView::Answered { status, body }) == Ok::<
            UnfurlPlanView,
            OrchestratorErrorView,
        >(UnfurlPlanView::Skip),
{
}

/// A posted preview is filed under the shared link and under no other key,
/// and goes to the channel and the message of the event.
pub proof fn lemma_posted_preview_is_keyed_by_link(
    event: LinkSharedEventView,
    plan: FetchPlanView,
    exchange: ExchangeView,
)
    requires
        unfurl_plan_spec(event, plan, exchange) matches Ok(UnfurlPlanView::Post(_)),
    ensures
        unfurl_plan_spec(event, plan, exchange) matches Ok(UnfurlPlanView::Post(request)) && {
            &&& request.member("channel"@) == Some(JsonView::Text(event.event.channel))
            &&& request.member("ts"@) == Some(JsonView::Text(event.event.message_ts))
            &&& request.member("unfurls"@) matches Some(JsonView::Object(unfurls))
                && unfurls.len() == 1 && unfurls[0].0 == plan.shared_link
        },
{
    let meta = json_parse(exchange->body).unwrap();
    let shown = metadata_of(meta).unwrap();
    let message = unfurl_message_spec(
        shown,
        plan.shared_link,
        plan.creativeset,
        plan.creative,
        plan.environment,
    );
    lemma_unfurl_request_members(
        event.event.channel,
        event.event.message_ts,
        plan.shared_link,
        message,
    );
}

} // verus!
