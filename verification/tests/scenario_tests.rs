use http::header::{HeaderMap, HeaderValue};
use http::StatusCode;
use ratelimit_proxy::cache::Cache;
use ratelimit_proxy::error::RequestError;
use ratelimit_proxy::headers::rewrite_headers;
use ratelimit_proxy::pipeline::{plan_request, ticket_report, Event, Exchange, Next, Report};
use twilight_http_ratelimiting::RatelimitHeaders;

/// What the upstream answers, and what it has seen.
struct Upstream {
    status: StatusCode,
    headers: HeaderMap<HeaderValue>,
    body: Vec<u8>,
    reachable: bool,
    requests: Vec<(String, HeaderMap<HeaderValue>)>,
}

impl Upstream {
    fn answering(status: StatusCode, headers: HeaderMap<HeaderValue>, body: &[u8]) -> Upstream {
        Upstream { status, headers, body: body.to_vec(), reachable: true, requests: Vec::new() }
    }
}

/// What the coordinator has been asked and told.
struct Coordinator {
    tickets: u32,
    reports: Vec<Option<RatelimitHeaders>>,
}

/// What the client gets.
#[derive(Debug, PartialEq)]
enum Answer {
    Response(StatusCode, HeaderMap<HeaderValue>, Vec<u8>),
    Failure(u16),
}

/// Serves one request as the proxy does, with the upstream and the coordinator
/// played by the test.
fn serve(
    cache: &mut Cache,
    upstream: &mut Upstream,
    coordinator: &mut Coordinator,
    method: &str,
    path: &str,
    query: Option<&str>,
    request_headers: &HeaderMap<HeaderValue>,
) -> Answer {
    let plan = match plan_request(method, path) {
        Ok(plan) => plan,
        Err(error) => return Answer::Failure(error.status()),
    };
    let (mut exchange, mut next) = Exchange::begin(&plan, query);
    let mut holds_ticket = false;
    let mut cached = None;
    let mut response: Option<(StatusCode, HeaderMap<HeaderValue>, Vec<u8>)> = None;
    loop {
        let (event, headers) = match next {
            Next::Lookup => {
                cached = cache.lookup(&plan.path, &plan.api_route);
                (if cached.is_some() { Event::CacheHit } else { Event::CacheMiss }, None)
            }
            Next::ServeCached => {
                let (body, headers, status) = cached.take().unwrap();
                return Answer::Response(status, headers, body);
            }
            Next::AcquireTicket => {
                coordinator.tickets += 1;
                holds_ticket = true;
                (Event::TicketIssued, None)
            }
            Next::Forward(uri) => {
                let mut headers = request_headers.clone();
                assert!(rewrite_headers(&mut headers, HeaderValue::from_static("Bot secret")));
                upstream.requests.push((uri.to_string(), headers));
                if upstream.reachable {
                    response = Some((upstream.status, upstream.headers.clone(), upstream.body.clone()));
                    (Event::Responded(upstream.status), Some(upstream.headers.clone()))
                } else {
                    (Event::TransportFailed, None)
                }
            }
            Next::BufferBody => (Event::BodyBuffered, None),
            Next::StoreAndReply => {
                let (status, headers, body) = response.take().unwrap();
                assert!(cache.store(&plan.path, plan.api_route.clone(), body.clone(), &headers, status));
                return Answer::Response(status, headers, body);
            }
            Next::Relay => {
                let (status, headers, body) = response.take().unwrap();
                assert!(!cache.store(&plan.path, plan.api_route.clone(), body.clone(), &headers, status));
                return Answer::Response(status, headers, body);
            }
            Next::Fail(error) => return Answer::Failure(error.status()),
            Next::Stop => panic!("nobody has gone"),
        };
        let step = exchange.advance(event).unwrap();
        if let Some(report) = step.report {
            assert!(holds_ticket);
            holds_ticket = false;
            coordinator.reports.push(ticket_report(report, headers.as_ref()));
        }
        next = step.next;
    }
}

fn invite_headers() -> HeaderMap<HeaderValue> {
    let mut headers = HeaderMap::new();
    headers.insert("content-type", HeaderValue::from_static("application/json"));
    headers.insert("x-ratelimit-bucket", HeaderValue::from_static("abcd"));
    headers.insert("x-ratelimit-limit", HeaderValue::from_static("5"));
    headers.insert("x-ratelimit-remaining", HeaderValue::from_static("4"));
    headers.insert("x-ratelimit-reset", HeaderValue::from_static("1470173023"));
    headers.insert("x-ratelimit-reset-after", HeaderValue::from_static("1"));
    headers
}

fn client_headers() -> HeaderMap<HeaderValue> {
    let mut headers = HeaderMap::new();
    headers.insert("authorization", HeaderValue::from_static("Bot client"));
    headers.insert("host", HeaderValue::from_static("proxy.local"));
    headers.insert("connection", HeaderValue::from_static("keep-alive"));
    headers.insert("accept", HeaderValue::from_static("*/*"));
    headers
}

#[test]
fn scenario_cache_miss_then_hit() {
    let mut cache = Cache::new(600);
    let mut upstream = Upstream::answering(StatusCode::OK, invite_headers(), b"{\"code\":\"ABCD\"}");
    let mut coordinator = Coordinator { tickets: 0, reports: Vec::new() };

    let first = serve(&mut cache, &mut upstream, &mut coordinator, "GET", "/api/v10/invites/ABCD", None, &client_headers());
    assert_eq!(first, Answer::Response(StatusCode::OK, invite_headers(), b"{\"code\":\"ABCD\"}".to_vec()));
    assert_eq!(upstream.requests.len(), 1);
    assert_eq!(coordinator.tickets, 1);
    assert_eq!(coordinator.reports.len(), 1);

    let second = serve(&mut cache, &mut upstream, &mut coordinator, "GET", "/api/v10/invites/ABCD", None, &client_headers());
    match second {
        Answer::Response(status, headers, body) => {
            assert_eq!(status, StatusCode::OK);
            assert_eq!(body, b"{\"code\":\"ABCD\"}".to_vec());
            assert!(!headers.contains_key("x-ratelimit-bucket"));
            assert!(!headers.contains_key("x-ratelimit-remaining"));
            assert!(!headers.contains_key("x-ratelimit-reset"));
            assert!(!headers.contains_key("x-ratelimit-reset-after"));
            assert_eq!(headers.get("content-type"), Some(&HeaderValue::from_static("application/json")));
        }
        other => panic!("no response: {:?}", other),
    }
    assert_eq!(upstream.requests.len(), 1);
    assert_eq!(coordinator.tickets, 1);
    assert_eq!(coordinator.reports.len(), 1);
    assert_eq!(cache.status(), "{\"users\": 0, \"invites\": 1}");
}

#[test]
fn scenario_hits_are_the_same_every_time() {
    let mut cache = Cache::new(600);
    let mut upstream = Upstream::answering(StatusCode::OK, invite_headers(), b"body");
    let mut coordinator = Coordinator { tickets: 0, reports: Vec::new() };
    serve(&mut cache, &mut upstream, &mut coordinator, "GET", "/api/v10/users/42", None, &client_headers());
    let second = serve(&mut cache, &mut upstream, &mut coordinator, "GET", "/api/v10/users/42", None, &client_headers());
    let third = serve(&mut cache, &mut upstream, &mut coordinator, "GET", "/api/v10/users/42", Some("x=1"), &HeaderMap::new());
    assert_eq!(second, third);
    assert_eq!(upstream.requests.len(), 1);
    assert_eq!(cache.status(), "{\"users\": 1, \"invites\": 0}");
}

#[test]
fn scenario_self_user_is_uncacheable() {
    let mut cache = Cache::new(600);
    let mut upstream = Upstream::answering(StatusCode::OK, invite_headers(), b"{\"id\":\"1\"}");
    let mut coordinator = Coordinator { tickets: 0, reports: Vec::new() };
    for _ in 0..2 {
        let answer = serve(&mut cache, &mut upstream, &mut coordinator, "GET", "/api/v10/users/@me", None, &client_headers());
        assert_eq!(answer, Answer::Response(StatusCode::OK, invite_headers(), b"{\"id\":\"1\"}".to_vec()));
    }
    assert_eq!(upstream.requests.len(), 2);
    assert_eq!(coordinator.tickets, 2);
    assert_eq!(coordinator.reports.len(), 2);
    assert_eq!(cache.users_len(), 0);
    assert_eq!(cache.status(), "{\"users\": 0, \"invites\": 0}");
}

#[test]
fn scenario_method_rejection() {
    let mut cache = Cache::new(600);
    let mut upstream = Upstream::answering(StatusCode::OK, invite_headers(), b"");
    let mut coordinator = Coordinator { tickets: 0, reports: Vec::new() };
    let answer = serve(&mut cache, &mut upstream, &mut coordinator, "OPTIONS", "/api/v10/guilds/1", None, &client_headers());
    assert_eq!(answer, Answer::Failure(405));
    assert!(upstream.requests.is_empty());
    assert_eq!(coordinator.tickets, 0);
    assert!(coordinator.reports.is_empty());
}

#[test]
fn scenario_unknown_path() {
    let mut cache = Cache::new(600);
    let mut upstream = Upstream::answering(StatusCode::OK, invite_headers(), b"");
    let mut coordinator = Coordinator { tickets: 0, reports: Vec::new() };
    let answer = serve(&mut cache, &mut upstream, &mut coordinator, "GET", "/api/v10/nowhere", None, &client_headers());
    assert_eq!(answer, Answer::Failure(400));
    assert!(upstream.requests.is_empty());
    assert_eq!(coordinator.tickets, 0);
}

#[test]
fn scenario_request_is_rewritten_for_the_upstream() {
    let mut cache = Cache::new(600);
    let mut upstream = Upstream::answering(StatusCode::OK, HeaderMap::new(), b"[]");
    let mut coordinator = Coordinator { tickets: 0, reports: Vec::new() };
    serve(&mut cache, &mut upstream, &mut coordinator, "GET", "/guilds/1/members", Some("limit=10"), &client_headers());
    let (uri, headers) = &upstream.requests[0];
    assert_eq!(uri, "https://discord.com/api/guilds/1/members?limit=10");
    assert_eq!(headers.get("authorization"), Some(&HeaderValue::from_static("Bot secret")));
    assert_eq!(headers.get("host"), Some(&HeaderValue::from_static("discord.com")));
    assert_eq!(headers.get("accept"), Some(&HeaderValue::from_static("*/*")));
    assert!(!headers.contains_key("connection"));
    assert_eq!(headers.len(), 3);
}

#[test]
fn scenario_upstream_limit_is_relayed_and_reported() {
    let mut cache = Cache::new(600);
    let mut headers = HeaderMap::new();
    headers.insert("x-ratelimit-global", HeaderValue::from_static("true"));
    headers.insert("x-ratelimit-scope", HeaderValue::from_static("global"));
    headers.insert("retry-after", HeaderValue::from_static("2"));
    let mut upstream = Upstream::answering(StatusCode::TOO_MANY_REQUESTS, headers.clone(), b"{\"global\":true}");
    let mut coordinator = Coordinator { tickets: 0, reports: Vec::new() };
    let answer = serve(&mut cache, &mut upstream, &mut coordinator, "GET", "/api/v10/invites/ABCD", None, &client_headers());
    assert_eq!(answer, Answer::Response(StatusCode::TOO_MANY_REQUESTS, headers, b"{\"global\":true}".to_vec()));
    assert_eq!(coordinator.reports.len(), 1);
    match &coordinator.reports[0] {
        Some(RatelimitHeaders::GlobalLimited(limited)) => assert_eq!(limited.retry_after(), 2),
        other => panic!("not a global limit: {:?}", other),
    }
    assert_eq!(cache.invites_len(), 0);
    let again = serve(&mut cache, &mut upstream, &mut coordinator, "GET", "/api/v10/invites/ABCD", None, &client_headers());
    assert!(matches!(again, Answer::Response(StatusCode::TOO_MANY_REQUESTS, _, _)));
    assert_eq!(upstream.requests.len(), 2);
}

#[test]
fn scenario_unreachable_upstream() {
    let mut cache = Cache::new(600);
    let mut upstream = Upstream::answering(StatusCode::OK, invite_headers(), b"");
    upstream.reachable = false;
    let mut coordinator = Coordinator { tickets: 0, reports: Vec::new() };
    let answer = serve(&mut cache, &mut upstream, &mut coordinator, "GET", "/api/v10/invites/ABCD", None, &client_headers());
    assert_eq!(answer, Answer::Failure(RequestError::RequestIssue.status()));
    assert_eq!(answer, Answer::Failure(502));
    assert_eq!(upstream.requests.len(), 1);
    assert_eq!(coordinator.tickets, 1);
    assert_eq!(coordinator.reports.len(), 1);
    assert!(coordinator.reports[0].is_none());
    assert_eq!(cache.invites_len(), 0);
}

#[test]
fn scenario_server_errors_are_not_kept() {
    let mut cache = Cache::new(600);
    let mut upstream = Upstream::answering(StatusCode::INTERNAL_SERVER_ERROR, HeaderMap::new(), b"oops");
    let mut coordinator = Coordinator { tickets: 0, reports: Vec::new() };
    for _ in 0..3 {
        let answer = serve(&mut cache, &mut upstream, &mut coordinator, "GET", "/api/v10/users/7", None, &client_headers());
        assert_eq!(answer, Answer::Response(StatusCode::INTERNAL_SERVER_ERROR, HeaderMap::new(), b"oops".to_vec()));
    }
    assert_eq!(upstream.requests.len(), 3);
    assert_eq!(coordinator.reports.len(), 3);
    assert!(matches!(coordinator.reports[0], Some(RatelimitHeaders::None)));
    assert_eq!(cache.users_len(), 0);
}

#[test]
fn scenario_stale_entries_are_fetched_again() {
    let mut cache = Cache::new(0);
    let mut upstream = Upstream::answering(StatusCode::OK, invite_headers(), b"body");
    let mut coordinator = Coordinator { tickets: 0, reports: Vec::new() };
    serve(&mut cache, &mut upstream, &mut coordinator, "GET", "/api/v10/invites/ABCD", None, &client_headers());
    serve(&mut cache, &mut upstream, &mut coordinator, "GET", "/api/v10/invites/ABCD", None, &client_headers());
    assert_eq!(upstream.requests.len(), 2);
    assert_eq!(cache.invites_len(), 1);
}

#[test]
fn scenario_hits_keep_repeated_headers() {
    let mut cache = Cache::new(600);
    let mut headers = invite_headers();
    headers.append("set-cookie", HeaderValue::from_static("a=1"));
    headers.append("set-cookie", HeaderValue::from_static("b=2"));
    let mut upstream = Upstream::answering(StatusCode::OK, headers, b"body");
    let mut coordinator = Coordinator { tickets: 0, reports: Vec::new() };
    serve(&mut cache, &mut upstream, &mut coordinator, "GET", "/api/v10/invites/ABCD", None, &client_headers());
    match serve(&mut cache, &mut upstream, &mut coordinator, "GET", "/api/v10/invites/ABCD", None, &client_headers()) {
        Answer::Response(_, cached, _) => {
            let cookies: Vec<&[u8]> = cached.get_all("set-cookie").iter().map(|value| value.as_bytes()).collect();
            assert_eq!(cookies, vec![&b"a=1"[..], &b"b=2"[..]]);
        }
        other => panic!("no response: {:?}", other),
    }
    assert_eq!(upstream.requests.len(), 1);
}
