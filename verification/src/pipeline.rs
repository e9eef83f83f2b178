//! The request pipeline: what is decided about a request before, between and
//! after the steps that wait for the outside world.
//!
//! A request is first planned: its method is checked, its path is normalised
//! and classified. The exchange with the upstream is then a state machine. It is
//! told what the last step brought and says what to do next; whoever drives it
//! looks into the cache, waits for the ticket, sends the request and reads the
//! response.

use crate::cache::{
    cache_namespace, cacheable_status, is_cacheable_status, namespace_of, status_number, Namespace,
};
use crate::error::RequestError;
use crate::headers::{header_fields, Fields, UPSTREAM_HOST};
use crate::path::{canonical, canonical_route, normalize_path, normalized};
use crate::route::{
    classified, classify, kind_of, method_named, route_kind, route_name, Method, PathFailure,
};
use crate::text::{str_eq, view_of};
use http::header::HeaderMap;
use http::header::HeaderValue;
use http::uri::InvalidUri;
use http::StatusCode;
use http::Uri;
use twilight_http_ratelimiting::Path;
use twilight_http_ratelimiting::RatelimitHeaders;
use vstd::prelude::*;
use vstd::string::StringExecFns;

verus! {

/// The address of a request, of the `http` crate.
#[verifier::external_type_specification]
#[verifier::external_body]
pub struct ExUri(Uri);

/// The error of the `http` crate for a text that is no address.
#[verifier::external_type_specification]
#[verifier::external_body]
pub struct ExInvalidUri(InvalidUri);

/// What the upstream says of its rate limits in the headers of a response, of
/// `twilight_http_ratelimiting`.
#[verifier::external_type_specification]
#[verifier::external_body]
pub struct ExRatelimitHeaders(RatelimitHeaders);

/// What `RatelimitHeaders::from_pairs` of `twilight_http_ratelimiting` reads from
/// header fields; `None` where it fails on them.
pub uninterp spec fn ratelimit_headers_of(fields: Fields) -> Option<RatelimitHeaders>;

/// What `Uri::from_str` of the `http` crate gives for a text.
pub uninterp spec fn parsed_uri(text: Seq<char>) -> Result<Uri, InvalidUri>;

/// Calls `Uri::from_str` of the `http` crate, by way of `str::parse`. The
/// contract only names the result: it is a function of the text.
#[verifier::external_body]
fn parse_uri(text: &str) -> (r: Result<Uri, InvalidUri>)
    ensures
        r == parsed_uri(text@),
{
    text.parse::<Uri>()
}

/// Calls `RatelimitHeaders::from_pairs` of `twilight_http_ratelimiting` on the
/// names and values of a header map. It reads the rate-limit headers, the last
/// value of each, and fails where one of their values is malformed or a
/// required one is missing; a failure is handed on as `None`. The contract only
/// names the result: it is a function of the fields.
#[verifier::external_body]
fn parse_ratelimit_headers(headers: &HeaderMap<HeaderValue>) -> (r: Option<RatelimitHeaders>)
    ensures
        r == ratelimit_headers_of(header_fields(*headers)),
{
    let pairs = headers.iter().map(|(name, value)| (name.as_str(), value.as_bytes()));
    RatelimitHeaders::from_pairs(pairs).ok()
}

/// The body of the answer to a health check.
pub const HEALTH_BODY: &'static str = "Proxy running!";

/// What the proxy does with a request at first sight.
#[derive(Clone, Copy, Debug, PartialEq, Eq, Structural)]
pub enum Endpoint {
    /// The proxy answers itself that it is running.
    Health,
    /// The proxy answers itself with its metrics.
    Metrics,
    /// The request is for the upstream.
    Upstream,
}

/// The endpoint that a request is for. The proxy owns `GET /health` and, where
/// it keeps metrics, `GET /metrics`; everything else is for the upstream.
pub open spec fn endpoint_for(
    method_name: Seq<char>,
    path: Seq<char>,
    telemetry: bool,
) -> Endpoint {
    if method_name == "GET"@ && path == "/health"@ {
        Endpoint::Health
    } else if telemetry && method_name == "GET"@ && path == "/metrics"@ {
        Endpoint::Metrics
    } else {
        Endpoint::Upstream
    }
}

/// The endpoint that a request is for.
pub fn endpoint(method_name: &str, path: &str, telemetry: bool) -> (r: Endpoint)
    ensures
        r == endpoint_for(method_name@, path@, telemetry),
{
    if !str_eq(method_name, "GET") {
        Endpoint::Upstream
    } else if str_eq(path, "/health") {
        Endpoint::Health
    } else if telemetry && str_eq(path, "/metrics") {
        Endpoint::Metrics
    } else {
        Endpoint::Upstream
    }
}

/// The bearer that a request is forwarded with: its own, or the default one
/// where it brought none.
pub fn effective_bearer<'a>(supplied: Option<&'a str>, default: &'a str) -> (bearer: &'a str)
    ensures
        bearer@ == match supplied {
            Some(own) => own@,
            None => default@,
        },
{
    match supplied {
        Some(own) => own,
        None => default,
    }
}

/// What is known of a request for the upstream before anything is done for it.
#[derive(Debug)]
pub struct Plan {
    /// The method of the request.
    pub method: Method,
    /// The route of the request, which is also its rate-limit bucket.
    pub path: Path,
    /// The human-readable name of the route.
    pub route_name: &'static str,
    /// The canonical route: API prefix and trimmed path.
    pub api_route: String,
    /// The namespace of the cache that holds responses to this request, if any.
    pub namespace: Option<Namespace>,
}

impl Plan {
    /// The plan is the one for a request with this method name and this path.
    pub open spec fn is_plan_of(&self, method_name: Seq<char>, request_path: Seq<char>) -> bool {
        let parts = normalized(request_path);
        &&& method_named(method_name) == Some(self.method)
        &&& classified(self.method, parts.1) == Ok::<Path, PathFailure>(self.path)
        &&& self.route_name@ == route_name(kind_of(self.path))
        &&& self.api_route@ == canonical(parts.0, parts.1)
        &&& self.namespace == namespace_of(kind_of(self.path), self.api_route@)
    }
}

/// Why a request cannot be planned: its method is refused before its path is
/// looked at, its path if the upstream has no such route.
pub open spec fn plan_failure(method_name: Seq<char>, request_path: Seq<char>) -> Option<
    RequestError,
> {
    match method_named(method_name) {
        None => Some(RequestError::InvalidMethod),
        Some(method) => match classified(method, normalized(request_path).1) {
            Ok(_) => None,
            Err(failure) => Some(RequestError::InvalidPath(failure)),
        },
    }
}

/// Plans a request for the upstream from its method name and its path.
pub fn plan_request(method_name: &str, request_path: &str) -> (r: Result<Plan, RequestError>)
    ensures
        match r {
            Ok(plan) => plan_failure(method_name@, request_path@) is None && plan.is_plan_of(
                method_name@,
                request_path@,
            ),
            Err(error) => plan_failure(method_name@, request_path@) == Some(error),
        },
{
    let method = match Method::from_name(method_name) {
        Some(method) => method,
        None => {
            return Err(RequestError::InvalidMethod);
        },
    };
    let (api_prefix, trimmed) = normalize_path(request_path);
    let path = match classify(method, trimmed) {
        Ok(path) => path,
        Err(failure) => {
            return Err(RequestError::InvalidPath(failure));
        },
    };
    let kind = route_kind(&path);
    let api_route = canonical_route(api_prefix, trimmed);
    let namespace = cache_namespace(kind, api_route.as_str());
    Ok(Plan { method, path, route_name: kind.name(), api_route, namespace })
}

/// The address of the upstream request as text: the upstream's host, the
/// canonical route and, after a question mark, the query of the request if it
/// has one.
pub open spec fn upstream_uri_text(api_route: Seq<char>, query: Option<Seq<char>>) -> Seq<char> {
    "https://"@ + UPSTREAM_HOST@ + api_route + match query {
        Some(query) => "?"@ + query,
        None => Seq::<char>::empty(),
    }
}

/// The address of the upstream request, as text.
pub fn upstream_uri_string(api_route: &str, query: Option<&str>) -> (text: String)
    ensures
        text@ == upstream_uri_text(api_route@, view_of(query)),
{
    let mut text = String::from_str("https://");
    text.append(UPSTREAM_HOST);
    text.append(api_route);
    if let Some(query) = query {
        text.append("?");
        text.append(query);
    }
    text
}

/// The address of the upstream request, or `InvalidUri` where the text is none.
pub open spec fn upstream_uri_for(api_route: Seq<char>, query: Option<Seq<char>>) -> Result<
    Uri,
    RequestError,
> {
    match parsed_uri(upstream_uri_text(api_route, query)) {
        Ok(uri) => Ok(uri),
        Err(_) => Err(RequestError::InvalidUri),
    }
}

/// The address of the upstream request.
pub fn upstream_uri(api_route: &str, query: Option<&str>) -> (r: Result<Uri, RequestError>)
    ensures
        r == upstream_uri_for(api_route@, view_of(query)),
{
    let text = upstream_uri_string(api_route, query);
    match parse_uri(text.as_str()) {
        Ok(uri) => Ok(uri),
        Err(_) => Err(RequestError::InvalidUri),
    }
}

/// How far the exchange with the upstream has come.
#[derive(Clone, Copy, Debug, PartialEq, Eq, Structural)]
pub enum Stage {
    /// The cache is being asked.
    LookingUp,
    /// The coordinator is being waited for.
    AwaitingTicket,
    /// A ticket is held, and nothing has been reported on it yet.
    Forwarding,
    /// The response has been reported, and its body is being read for the cache.
    Buffering,
    /// The exchange is over.
    Finished,
}

/// What the last step brought.
#[derive(Debug)]
pub enum Event {
    /// The cache holds a fresh response.
    CacheHit,
    /// The cache holds no fresh response.
    CacheMiss,
    /// The coordinator has issued a ticket.
    TicketIssued,
    /// The coordinator has shut down.
    TicketRefused,
    /// The upstream could not be reached.
    TransportFailed,
    /// The upstream has responded with this status.
    Responded(StatusCode),
    /// The body of the response has been read.
    BodyBuffered,
    /// The body of the response could not be read.
    BodyFailed,
    /// The client has gone.
    Cancelled,
}

/// What the ticket is told.
#[derive(Clone, Copy, Debug, PartialEq, Eq, Structural)]
pub enum Report {
    /// The headers of the response.
    Headers,
    /// That there is no response.
    Nothing,
}

/// What to do next.
#[derive(Debug)]
pub enum Next {
    /// Ask the cache.
    Lookup,
    /// Answer with the response that the cache holds.
    ServeCached,
    /// Wait for a ticket.
    AcquireTicket,
    /// Rewrite the headers and send the request to this address.
    Forward(Uri),
    /// Read the whole body of the response.
    BufferBody,
    /// Put the response into the cache and answer with it.
    StoreAndReply,
    /// Answer with the response as it comes.
    Relay,
    /// Answer with this failure.
    Fail(RequestError),
    /// Nothing: nobody waits for an answer.
    Stop,
}

/// One step of the exchange: first the report on the ticket, if one is due, then
/// what to do next.
#[derive(Debug)]
pub struct Step {
    pub report: Option<Report>,
    pub next: Next,
}

/// What a ticket is told for a report: what the upstream says of its rate
/// limits in the headers of the response, or nothing where there is no
/// response or its headers cannot be read.
pub open spec fn reported(report: Report, fields: Option<Fields>) -> Option<RatelimitHeaders> {
    match (report, fields) {
        (Report::Headers, Some(fields)) => ratelimit_headers_of(fields),
        _ => None,
    }
}

/// The fields of an optional header map.
pub open spec fn fields_of(headers: Option<&HeaderMap<HeaderValue>>) -> Option<Fields> {
    match headers {
        Some(headers) => Some(header_fields(*headers)),
        None => None,
    }
}

/// What to tell the ticket for a report, given the headers of the response if
/// there is one.
pub fn ticket_report(report: Report, headers: Option<&HeaderMap<HeaderValue>>) -> (r: Option<
    RatelimitHeaders,
>)
    ensures
        r == reported(report, fields_of(headers)),
{
    match (report, headers) {
        (Report::Headers, Some(headers)) => parse_ratelimit_headers(headers),
        _ => None,
    }
}

/// Whether the response to a request is kept: its route has a namespace and the
/// status is worth caching.
pub open spec fn is_kept(namespace: Option<Namespace>, status: StatusCode) -> bool {
    namespace is Some && is_cacheable_status(status_number(status))
}

/// The stage in which an exchange begins, and its first step: only a route with
/// a namespace is looked up in the cache.
pub open spec fn opening(namespace: Option<Namespace>) -> (Stage, Next) {
    if namespace is Some {
        (Stage::LookingUp, Next::Lookup)
    } else {
        (Stage::AwaitingTicket, Next::AcquireTicket)
    }
}

/// The transitions of the exchange: the stage that an event leads to and the
/// step to take, or `None` for an event that the stage does not expect.
///
/// A ticket is reported on exactly when the exchange leaves `Forwarding`, or
/// when the ticket arrives and the request has no address to go to.
pub open spec fn transition(
    stage: Stage,
    namespace: Option<Namespace>,
    uri: Result<Uri, RequestError>,
    event: Event,
) -> Option<(Stage, Step)> {
    match (stage, event) {
        (Stage::LookingUp, Event::CacheHit) => Some(
            (Stage::Finished, Step { report: None, next: Next::ServeCached }),
        ),
        (Stage::LookingUp, Event::CacheMiss) => Some(
            (Stage::AwaitingTicket, Step { report: None, next: Next::AcquireTicket }),
        ),
        (Stage::AwaitingTicket, Event::TicketIssued) => match uri {
            Ok(uri) => Some((Stage::Forwarding, Step { report: None, next: Next::Forward(uri) })),
            Err(error) => Some(
                (Stage::Finished, Step { report: Some(Report::Nothing), next: Next::Fail(error) }),
            ),
        },
        (Stage::AwaitingTicket, Event::TicketRefused) => Some(
            (
                Stage::Finished,
                Step { report: None, next: Next::Fail(RequestError::AcquiringTicket) },
            ),
        ),
        (Stage::Forwarding, Event::TransportFailed) => Some(
            (
                Stage::Finished,
                Step {
                    report: Some(Report::Nothing),
                    next: Next::Fail(RequestError::RequestIssue),
                },
            ),
        ),
        (Stage::Forwarding, Event::Responded(status)) => if is_kept(namespace, status) {
            Some((Stage::Buffering, Step { report: Some(Report::Headers), next: Next::BufferBody }))
        } else {
            Some((Stage::Finished, Step { report: Some(Report::Headers), next: Next::Relay }))
        },
        (Stage::Forwarding, Event::Cancelled) => Some(
            (Stage::Finished, Step { report: Some(Report::Nothing), next: Next::Stop }),
        ),
        (Stage::Buffering, Event::BodyBuffered) => Some(
            (Stage::Finished, Step { report: None, next: Next::StoreAndReply }),
        ),
        (Stage::Buffering, Event::BodyFailed) => Some(
            (Stage::Finished, Step { report: None, next: Next::Fail(RequestError::RequestIssue) }),
        ),
        (Stage::LookingUp, Event::Cancelled)
        | (Stage::AwaitingTicket, Event::Cancelled)
        | (Stage::Buffering, Event::Cancelled) => Some(
            (Stage::Finished, Step { report: None, next: Next::Stop }),
        ),
        _ => None,
    }
}

/// The exchange of one request with the upstream.
#[derive(Debug)]
pub struct Exchange {
    stage: Stage,
    namespace: Option<Namespace>,
    api_route: String,
    query: Option<String>,
}

impl Exchange {
    /// How far the exchange has come.
    pub closed spec fn stage(&self) -> Stage {
        self.stage
    }

    /// The namespace of the cache that holds responses to the request, if any.
    pub closed spec fn namespace(&self) -> Option<Namespace> {
        self.namespace
    }

    /// The canonical route of the request.
    pub closed spec fn api_route(&self) -> Seq<char> {
        self.api_route@
    }

    /// The query of the request, if it has one.
    pub closed spec fn query(&self) -> Option<Seq<char>> {
        match self.query {
            Some(query) => Some(query@),
            None => None,
        }
    }

    /// The address of the upstream request, or the failure to build it.
    pub open spec fn uri(&self) -> Result<Uri, RequestError> {
        upstream_uri_for(self.api_route(), self.query())
    }

    /// Begins the exchange for a planned request with this query.
    pub fn begin(plan: &Plan, query: Option<&str>) -> (r: (Exchange, Next))
        ensures
            r.0.stage() == opening(plan.namespace).0,
            r.1 == opening(plan.namespace).1,
            r.0.namespace() == plan.namespace,
            r.0.api_route() == plan.api_route@,
            r.0.query() == view_of(query),
    {
        let query = match query {
            Some(query) => Some(String::from_str(query)),
            None => None,
        };
        let api_route = plan.api_route.clone();
        match plan.namespace {
            Some(_) => (
                Exchange { stage: Stage::LookingUp, namespace: plan.namespace, api_route, query },
                Next::Lookup,
            ),
            None => (
                Exchange {
                    stage: Stage::AwaitingTicket,
                    namespace: plan.namespace,
                    api_route,
                    query,
                },
                Next::AcquireTicket,
            ),
        }
    }

    /// How far the exchange has come.
    pub fn current_stage(&self) -> (stage: Stage)
        ensures
            stage == self.stage(),
    {
        self.stage
    }

    /// Takes what the last step brought and says what to do next. An event that
    /// the stage does not expect gives `None` and changes nothing.
    pub fn advance(&mut self, event: Event) -> (r: Option<Step>)
        ensures
            final(self).namespace() == old(self).namespace(),
            final(self).api_route() == old(self).api_route(),
            final(self).query() == old(self).query(),
            match transition(old(self).stage(), old(self).namespace(), old(self).uri(), event) {
                Some((stage, step)) => final(self).stage() == stage && r == Some(step),
                None => final(self).stage() == old(self).stage() && r is None,
            },
    {
        let (stage, step) = match (self.stage, event) {
            (Stage::LookingUp, Event::CacheHit) => (
                Stage::Finished,
                Step { report: None, next: Next::ServeCached },
            ),
            (Stage::LookingUp, Event::CacheMiss) => (
                Stage::AwaitingTicket,
                Step { report: None, next: Next::AcquireTicket },
            ),
            (Stage::AwaitingTicket, Event::TicketIssued) => {
                let query = match &self.query {
                    Some(query) => Some(query.as_str()),
                    None => None,
                };
                match upstream_uri(self.api_route.as_str(), query) {
                    Ok(uri) => (Stage::Forwarding, Step { report: None, next: Next::Forward(uri) }),
                    Err(error) => (
                        Stage::Finished,
                        Step { report: Some(Report::Nothing), next: Next::Fail(error) },
                    ),
                }
            },
            (Stage::AwaitingTicket, Event::TicketRefused) => (
                Stage::Finished,
                Step { report: None, next: Next::Fail(RequestError::AcquiringTicket) },
            ),
            (Stage::Forwarding, Event::TransportFailed) => (
                Stage::Finished,
                Step {
                    report: Some(Report::Nothing),
                    next: Next::Fail(RequestError::RequestIssue),
                },
            ),
            (Stage::Forwarding, Event::Responded(status)) => {
                if self.namespace.is_some() && cacheable_status(&status) {
                    (
                        Stage::Buffering,
                        Step { report: Some(Report::Headers), next: Next::BufferBody },
                    )
                } else {
                    (Stage::Finished, Step { report: Some(Report::Headers), next: Next::Relay })
                }
            },
            (Stage::Forwarding, Event::Cancelled) => (
                Stage::Finished,
                Step { report: Some(Report::Nothing), next: Next::Stop },
            ),
            (Stage::Buffering, Event::BodyBuffered) => (
                Stage::Finished,
                Step { report: None, next: Next::StoreAndReply },
            ),
            (Stage::Buffering, Event::BodyFailed) => (
                Stage::Finished,
                Step { report: None, next: Next::Fail(RequestError::RequestIssue) },
            ),
            (Stage::LookingUp, Event::Cancelled)
            | (Stage::AwaitingTicket, Event::Cancelled)
            | (Stage::Buffering, Event::Cancelled) => (
                Stage::Finished,
                Step { report: None, next: Next::Stop },
            ),
            _ => {
                return None;
            },
        };
        self.stage = stage;
        Some(step)
    }
}

/// The count of what an exchange has done.
pub struct Tally {
    /// The tickets that the coordinator has issued.
    pub tickets: nat,
    /// The requests that were sent to the upstream.
    pub forwards: nat,
    /// The reports that were made on a ticket.
    pub reports: nat,
}

/// The stage that an exchange is in after a sequence of events, and the count of
/// what it has done by then. An event that the stage does not expect is passed
/// over.
pub open spec fn outcome(
    stage: Stage,
    namespace: Option<Namespace>,
    uri: Result<Uri, RequestError>,
    events: Seq<Event>,
) -> (Stage, Tally)
    decreases events.len(),
{
    if events.len() == 0 {
        (stage, Tally { tickets: 0, forwards: 0, reports: 0 })
    } else {
        let (before, tally) = outcome(stage, namespace, uri, events.drop_last());
        match transition(before, namespace, uri, events.last()) {
            Some((after, step)) => (
                after,
                Tally {
                    tickets: tally.tickets + if events.last() is TicketIssued {
                        1nat
                    } else {
                        0nat
                    },
                    forwards: tally.forwards + if step.next is Forward {
                        1nat
                    } else {
                        0nat
                    },
                    reports: tally.reports + if step.report is Some {
                        1nat
                    } else {
                        0nat
                    },
                },
            ),
            None => (before, tally),
        }
    }
}

/// Whatever happens to a request: it takes at most one ticket, it is forwarded
/// only with a ticket, and on every ticket exactly one report is made, which is
/// still due while the exchange is in `Forwarding` and at no other time. So for
/// a request that was forwarded, exactly one report has been made when its
/// exchange is over.
pub proof fn lemma_one_report_per_ticket(
    namespace: Option<Namespace>,
    uri: Result<Uri, RequestError>,
    events: Seq<Event>,
)
    ensures
        ({
            let (stage, tally) = outcome(opening(namespace).0, namespace, uri, events);
            &&& tally.forwards <= tally.tickets <= 1
            &&& tally.reports + (if stage == Stage::Forwarding {
                1nat
            } else {
                0nat
            }) == tally.tickets
            &&& (stage == Stage::LookingUp || stage == Stage::AwaitingTicket) ==> tally.tickets == 0
            &&& (stage == Stage::Forwarding || stage == Stage::Buffering) ==> tally.forwards == 1
            &&& stage == Stage::Finished && tally.forwards == 1 ==> tally.reports == 1
        }),
    decreases events.len(),
{
    if events.len() > 0 {
        lemma_one_report_per_ticket(namespace, uri, events.drop_last());
    }
}

/// An exchange can always be ended, and only once: while it is not over, the
/// news that the client has gone ends it, with a report that there is no
/// response exactly where a ticket is held and unreported; once it is over, it
/// takes no event any more.
pub proof fn lemma_exchange_ends(
    stage: Stage,
    namespace: Option<Namespace>,
    uri: Result<Uri, RequestError>,
    event: Event,
)
    ensures
        transition(Stage::Finished, namespace, uri, event) is None,
        stage != Stage::Finished ==> (transition(stage, namespace, uri, Event::Cancelled)
            matches Some((after, step)) && after == Stage::Finished && step.next is Stop
            && step.report == if stage == Stage::Forwarding {
            Some(Report::Nothing)
        } else {
            None
        }),
{
}

/// A request whose response the cache holds takes no ticket and is not
/// forwarded.
pub proof fn lemma_hit_takes_no_ticket(
    namespace: Option<Namespace>,
    uri: Result<Uri, RequestError>,
    events: Seq<Event>,
)
    requires
        events.len() > 0,
        events[0] is CacheHit,
        namespace is Some,
    ensures
        outcome(opening(namespace).0, namespace, uri, events).0 == Stage::Finished,
        outcome(opening(namespace).0, namespace, uri, events).1.tickets == 0,
        outcome(opening(namespace).0, namespace, uri, events).1.forwards == 0,
        outcome(opening(namespace).0, namespace, uri, events).1.reports == 0,
    decreases events.len(),
{
    if events.len() == 1 {
        // The hit is the first event: nothing has been counted before it.
        assert(events.drop_last().len() == 0);
    } else {
        lemma_hit_takes_no_ticket(namespace, uri, events.drop_last());
    }
}

} // verus!
