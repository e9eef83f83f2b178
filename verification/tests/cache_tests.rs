use http::header::{HeaderMap, HeaderValue};
use http::StatusCode;
use ratelimit_proxy::cache::{
    cache_namespace, cacheable_status, clean_cache, clean_cache_at, get, get_at, insert, insert_at, reaper,
    reaper_at, Cache, CachedResponse, Namespace, ResponseMap, DEFAULT_CACHE_DURATION, REAPER_INTERVAL,
};
use ratelimit_proxy::route::RouteKind;
use std::time::Duration;
use tokio::time::Instant;
use twilight_http_ratelimiting::Path;

fn plain_headers() -> HeaderMap<HeaderValue> {
    let mut headers = HeaderMap::new();
    headers.insert("content-type", HeaderValue::from_static("application/json"));
    headers.append("set-cookie", HeaderValue::from_static("a=1"));
    headers.append("set-cookie", HeaderValue::from_static("b=2"));
    headers
}

fn upstream_headers() -> HeaderMap<HeaderValue> {
    let mut headers = plain_headers();
    headers.insert("x-ratelimit-bucket", HeaderValue::from_static("abcd"));
    headers.insert("x-ratelimit-remaining", HeaderValue::from_static("4"));
    headers.insert("x-ratelimit-reset", HeaderValue::from_static("1470173023"));
    headers.insert("x-ratelimit-reset-after", HeaderValue::from_static("1"));
    headers
}

fn later(start: Instant, secs: u64) -> Instant {
    start + Duration::from_secs(secs)
}

#[test]
fn defaults() {
    assert_eq!(DEFAULT_CACHE_DURATION, 600);
    assert_eq!(REAPER_INTERVAL, 120);
}

#[test]
fn statuses_worth_caching() {
    assert!(cacheable_status(&StatusCode::OK));
    assert!(cacheable_status(&StatusCode::CREATED));
    assert!(cacheable_status(&StatusCode::NO_CONTENT));
    assert!(cacheable_status(&StatusCode::from_u16(299).unwrap()));
    assert!(cacheable_status(&StatusCode::NOT_FOUND));
    assert!(!cacheable_status(&StatusCode::from_u16(199).unwrap()));
    assert!(!cacheable_status(&StatusCode::CONTINUE));
    assert!(!cacheable_status(&StatusCode::MULTIPLE_CHOICES));
    assert!(!cacheable_status(&StatusCode::BAD_REQUEST));
    assert!(!cacheable_status(&StatusCode::FORBIDDEN));
    assert!(!cacheable_status(&StatusCode::METHOD_NOT_ALLOWED));
    assert!(!cacheable_status(&StatusCode::TOO_MANY_REQUESTS));
    assert!(!cacheable_status(&StatusCode::INTERNAL_SERVER_ERROR));
    assert!(!cacheable_status(&StatusCode::BAD_GATEWAY));
}

#[test]
fn namespaces_of_routes() {
    assert_eq!(cache_namespace(RouteKind::InvitesCode, "/api/v10/invites/ABCD"), Some(Namespace::Invites));
    assert_eq!(cache_namespace(RouteKind::InvitesCode, "/api/v10/invites/@me"), Some(Namespace::Invites));
    assert_eq!(cache_namespace(RouteKind::UsersId, "/api/v10/users/123"), Some(Namespace::Users));
    assert_eq!(cache_namespace(RouteKind::UsersId, "/api/v10/users/@me"), None);
    assert_eq!(cache_namespace(RouteKind::UsersId, "/api/users/12@me3"), None);
    assert_eq!(cache_namespace(RouteKind::UsersIdGuilds, "/api/v10/users/123/guilds"), None);
    assert_eq!(cache_namespace(RouteKind::GuildsId, "/api/v10/guilds/1"), None);
    assert_eq!(cache_namespace(RouteKind::Gateway, "/api/gateway"), None);
    assert_eq!(cache_namespace(RouteKind::Unknown, "/api/x"), None);
}

#[test]
fn a_response_is_fresh_for_its_lifetime() {
    let start = Instant::now();
    let response = CachedResponse::at(start, vec![1, 2, 3], plain_headers(), StatusCode::OK);
    assert!(response.is_fresh_at(&start, 600));
    assert!(response.is_fresh_at(&later(start, 599), 600));
    assert!(response.is_fresh_at(&(later(start, 599) + Duration::from_millis(999)), 600));
    assert!(!response.is_fresh_at(&later(start, 600), 600));
    assert!(!response.is_fresh_at(&later(start, 601), 600));
    assert!(!response.is_fresh_at(&start, 0));
}

#[test]
fn a_response_from_the_future_is_fresh() {
    let start = Instant::now();
    let response = CachedResponse::at(later(start, 1000), vec![], plain_headers(), StatusCode::OK);
    assert!(response.is_fresh_at(&start, 1));
    assert!(!response.is_fresh_at(&start, 0));
}

#[test]
fn a_new_response_is_cached_from_now() {
    let before = Instant::now();
    let response = CachedResponse::new(vec![7], plain_headers(), StatusCode::NOT_FOUND);
    let after = Instant::now();
    assert!(before <= response.cached_at && response.cached_at <= after);
    assert_eq!(response.bytes, vec![7]);
    assert_eq!(response.headers, plain_headers());
    assert_eq!(response.statuscode, StatusCode::NOT_FOUND);
}

#[test]
fn a_reply_copies_the_response() {
    let response = CachedResponse::at(Instant::now(), vec![1, 2, 3], plain_headers(), StatusCode::CREATED);
    let (bytes, headers, status) = response.reply();
    assert_eq!(bytes, vec![1, 2, 3]);
    assert_eq!(headers, plain_headers());
    assert_eq!(status, StatusCode::CREATED);
    assert_eq!(response.bytes, vec![1, 2, 3]);
}

#[test]
fn map_miss_then_hit() {
    let start = Instant::now();
    let mut map = ResponseMap::new();
    assert!(get_at(&map, "/api/v10/invites/ABCD", 600, &start).is_none());
    insert_at(&mut map, "/api/v10/invites/ABCD".to_owned(), b"{\"code\":\"ABCD\"}".to_vec(), plain_headers(), StatusCode::OK, start);
    let hit = get_at(&map, "/api/v10/invites/ABCD", 600, &later(start, 10));
    assert_eq!(hit, Some((b"{\"code\":\"ABCD\"}".to_vec(), plain_headers(), StatusCode::OK)));
    assert!(get_at(&map, "/api/v10/invites/ABCE", 600, &later(start, 10)).is_none());
    assert_eq!(map.len(), 1);
}

#[test]
fn map_stale_entry_is_a_miss_and_stays() {
    let start = Instant::now();
    let mut map = ResponseMap::new();
    insert_at(&mut map, "k".to_owned(), vec![1], plain_headers(), StatusCode::OK, start);
    assert!(get_at(&map, "k", 600, &later(start, 599)).is_some());
    assert!(get_at(&map, "k", 600, &later(start, 600)).is_none());
    assert!(get_at(&map, "k", 600, &later(start, 6000)).is_none());
    assert_eq!(map.len(), 1);
    assert!(get_at(&map, "k", 6001, &later(start, 6000)).is_some());
}

#[test]
fn map_insert_overwrites() {
    let start = Instant::now();
    let mut map = ResponseMap::new();
    insert_at(&mut map, "k".to_owned(), vec![1], plain_headers(), StatusCode::OK, start);
    insert_at(&mut map, "other".to_owned(), vec![9], plain_headers(), StatusCode::OK, start);
    insert_at(&mut map, "k".to_owned(), vec![2], HeaderMap::new(), StatusCode::NOT_FOUND, later(start, 700));
    assert_eq!(map.len(), 2);
    assert_eq!(get_at(&map, "k", 600, &later(start, 800)), Some((vec![2], HeaderMap::new(), StatusCode::NOT_FOUND)));
    assert_eq!(get_at(&map, "other", 600, &later(start, 10)), Some((vec![9], plain_headers(), StatusCode::OK)));
}

#[test]
fn map_with_the_clock() {
    let mut map = ResponseMap::new();
    assert!(get(&map, "k", 600).is_none());
    insert(&mut map, "k".to_owned(), vec![1], plain_headers(), StatusCode::OK);
    assert_eq!(get(&map, "k", 600), Some((vec![1], plain_headers(), StatusCode::OK)));
    assert!(get(&map, "k", 0).is_none());
    clean_cache(&mut map, 600);
    assert_eq!(map.len(), 1);
    clean_cache(&mut map, 0);
    assert_eq!(map.len(), 0);
}

#[test]
fn map_cleaning_removes_what_is_stale() {
    let start = Instant::now();
    let mut map = ResponseMap::new();
    insert_at(&mut map, "old".to_owned(), vec![1], plain_headers(), StatusCode::OK, start);
    insert_at(&mut map, "edge".to_owned(), vec![2], plain_headers(), StatusCode::OK, later(start, 1));
    insert_at(&mut map, "new".to_owned(), vec![3], plain_headers(), StatusCode::OK, later(start, 2));
    clean_cache_at(&mut map, 600, &later(start, 601));
    assert_eq!(map.len(), 1);
    assert!(map.contains_key("new"));
    assert_eq!(get_at(&map, "new", 600, &later(start, 601)), Some((vec![3], plain_headers(), StatusCode::OK)));
    clean_cache_at(&mut map, 600, &later(start, 601));
    assert_eq!(map.len(), 1);
}

#[test]
fn new_cache_is_empty() {
    let cache = Cache::new(600);
    assert_eq!(cache.users_len(), 0);
    assert_eq!(cache.invites_len(), 0);
    assert_eq!(cache.status(), "{\"users\": 0, \"invites\": 0}");
    assert!(cache.get_user("/api/v10/users/1").is_none());
    assert!(cache.get_invite("/api/v10/invites/A").is_none());
}

#[test]
fn namespaces_are_kept_apart() {
    let start = Instant::now();
    let mut cache = Cache::new(600);
    cache.insert_at(Namespace::Users, "key".to_owned(), vec![1], plain_headers(), StatusCode::OK, start);
    assert!(cache.get_at(Namespace::Users, "key", &start).is_some());
    assert!(cache.get_at(Namespace::Invites, "key", &start).is_none());
    cache.insert_at(Namespace::Invites, "key".to_owned(), vec![2], plain_headers(), StatusCode::OK, start);
    assert_eq!(cache.get_at(Namespace::Users, "key", &start), Some((vec![1], plain_headers(), StatusCode::OK)));
    assert_eq!(cache.get_at(Namespace::Invites, "key", &start), Some((vec![2], plain_headers(), StatusCode::OK)));
    assert_eq!(cache.status(), "{\"users\": 1, \"invites\": 1}");
}

#[test]
fn invites_are_read_from_invites() {
    let mut cache = Cache::new(600);
    cache.insert_invite("/api/v10/invites/ABCD".to_owned(), vec![1], plain_headers(), StatusCode::OK);
    assert_eq!(cache.get_invite("/api/v10/invites/ABCD"), Some((vec![1], plain_headers(), StatusCode::OK)));
    assert!(cache.get_user("/api/v10/invites/ABCD").is_none());
    cache.insert_user("/api/v10/users/1".to_owned(), vec![2], plain_headers(), StatusCode::OK);
    assert_eq!(cache.get_user("/api/v10/users/1"), Some((vec![2], plain_headers(), StatusCode::OK)));
    assert!(cache.get_invite("/api/v10/users/1").is_none());
    assert_eq!(cache.users_len(), 1);
    assert_eq!(cache.invites_len(), 1);
}

#[test]
fn freshness_is_now_minus_cached_at() {
    let start = Instant::now();
    let mut cache = Cache::new(600);
    cache.insert_at(Namespace::Users, "k".to_owned(), vec![1], plain_headers(), StatusCode::OK, later(start, 1000));
    assert!(cache.get_at(Namespace::Users, "k", &later(start, 1599)).is_some());
    assert!(cache.get_at(Namespace::Users, "k", &later(start, 1600)).is_none());
    assert!(cache.get_at(Namespace::Users, "k", &later(start, 4000)).is_none());
}

#[test]
fn cache_miss_then_hit() {
    let start = Instant::now();
    let mut cache = Cache::new(600);
    let route = "/api/v10/invites/ABCD";
    assert!(cache.lookup_at(&Path::InvitesCode, route, &start).is_none());
    let mut headers = plain_headers();
    headers.insert("x-ratelimit-remaining", HeaderValue::from_static("4"));
    assert!(cache.store_at(&Path::InvitesCode, route.to_owned(), b"{\"code\":\"ABCD\"}".to_vec(), &headers, StatusCode::OK, start));
    let (bytes, cached, status) = cache.lookup_at(&Path::InvitesCode, route, &later(start, 1)).unwrap();
    assert_eq!(status, StatusCode::OK);
    assert_eq!(bytes, b"{\"code\":\"ABCD\"}".to_vec());
    assert!(!cached.contains_key("x-ratelimit-remaining"));
    assert_eq!(cached, plain_headers());
    assert_eq!(cache.status(), "{\"users\": 0, \"invites\": 1}");
}

#[test]
fn stored_headers_lose_the_bucket_headers_only() {
    let start = Instant::now();
    let mut cache = Cache::new(600);
    let headers = upstream_headers();
    assert!(cache.store_at(&Path::UsersId, "/api/v10/users/1".to_owned(), vec![1], &headers, StatusCode::OK, start));
    assert_eq!(headers, upstream_headers());
    let (_, cached, _) = cache.lookup_at(&Path::UsersId, "/api/v10/users/1", &start).unwrap();
    assert_eq!(cached, plain_headers());
}

#[test]
fn self_user_is_not_cached() {
    let start = Instant::now();
    let mut cache = Cache::new(600);
    let route = "/api/v10/users/@me";
    assert!(cache.lookup_at(&Path::UsersId, route, &start).is_none());
    assert!(!cache.store_at(&Path::UsersId, route.to_owned(), vec![1], &plain_headers(), StatusCode::OK, start));
    assert!(cache.lookup_at(&Path::UsersId, route, &start).is_none());
    assert!(!cache.store_at(&Path::UsersId, route.to_owned(), vec![1], &plain_headers(), StatusCode::OK, start));
    assert_eq!(cache.users_len(), 0);
    assert_eq!(cache.invites_len(), 0);
    assert_eq!(cache.status(), "{\"users\": 0, \"invites\": 0}");
}

#[test]
fn other_routes_are_not_cached() {
    let start = Instant::now();
    let mut cache = Cache::new(600);
    for path in [Path::GuildsId(1), Path::Gateway, Path::UsersIdGuilds, Path::UsersIdChannels, Path::ChannelsIdInvites(1), Path::GuildsIdInvites(1)] {
        assert!(!cache.store_at(&path, "/api/v10/invites/ABCD".to_owned(), vec![1], &plain_headers(), StatusCode::OK, start));
        assert!(cache.lookup_at(&path, "/api/v10/invites/ABCD", &start).is_none());
    }
    assert_eq!(cache.status(), "{\"users\": 0, \"invites\": 0}");
}

#[test]
fn lookup_asks_the_namespace_of_the_route_only() {
    let start = Instant::now();
    let mut cache = Cache::new(600);
    cache.insert_at(Namespace::Users, "/api/v10/invites/ABCD".to_owned(), vec![1], plain_headers(), StatusCode::OK, start);
    cache.insert_at(Namespace::Invites, "/api/users/1".to_owned(), vec![2], plain_headers(), StatusCode::OK, start);
    assert!(cache.lookup_at(&Path::InvitesCode, "/api/v10/invites/ABCD", &start).is_none());
    assert!(cache.lookup_at(&Path::UsersId, "/api/users/1", &start).is_none());
    assert!(cache.lookup_at(&Path::GuildsId(1), "/api/users/1", &start).is_none());
}

#[test]
fn failures_are_not_cached() {
    let start = Instant::now();
    let mut cache = Cache::new(600);
    for status in [StatusCode::FORBIDDEN, StatusCode::TOO_MANY_REQUESTS, StatusCode::BAD_GATEWAY, StatusCode::MOVED_PERMANENTLY, StatusCode::CONTINUE] {
        assert!(!cache.store_at(&Path::InvitesCode, "/api/invites/A".to_owned(), vec![1], &plain_headers(), status, start));
    }
    assert_eq!(cache.invites_len(), 0);
    assert!(cache.store_at(&Path::InvitesCode, "/api/invites/A".to_owned(), vec![1], &plain_headers(), StatusCode::NOT_FOUND, start));
    assert_eq!(cache.lookup_at(&Path::InvitesCode, "/api/invites/A", &start), Some((vec![1], plain_headers(), StatusCode::NOT_FOUND)));
}

#[test]
fn store_and_lookup_with_the_clock() {
    let mut cache = Cache::new(600);
    assert!(cache.lookup(&Path::InvitesCode, "/api/invites/A").is_none());
    assert!(cache.store(&Path::InvitesCode, "/api/invites/A".to_owned(), vec![1], &upstream_headers(), StatusCode::OK));
    assert_eq!(cache.lookup(&Path::InvitesCode, "/api/invites/A"), Some((vec![1], plain_headers(), StatusCode::OK)));
    assert!(!cache.store(&Path::UsersId, "/api/users/@me".to_owned(), vec![1], &upstream_headers(), StatusCode::OK));
    assert!(cache.lookup(&Path::UsersId, "/api/users/@me").is_none());
}

#[test]
fn reaper_removes_stale_entries() {
    let start = Instant::now();
    let mut cache = Cache::new(DEFAULT_CACHE_DURATION);
    cache.insert_at(Namespace::Users, "/api/v10/users/1".to_owned(), vec![1], plain_headers(), StatusCode::OK, start);
    assert_eq!(cache.status(), "{\"users\": 1, \"invites\": 0}");
    reaper_at(&mut cache, &later(start, DEFAULT_CACHE_DURATION + 1));
    assert_eq!(cache.status(), "{\"users\": 0, \"invites\": 0}");
}

#[test]
fn reaper_sweeps_both_namespaces() {
    let start = Instant::now();
    let mut cache = Cache::new(600);
    cache.insert_at(Namespace::Users, "u-old".to_owned(), vec![1], plain_headers(), StatusCode::OK, start);
    cache.insert_at(Namespace::Users, "u-new".to_owned(), vec![2], plain_headers(), StatusCode::OK, later(start, 300));
    cache.insert_at(Namespace::Invites, "i-old".to_owned(), vec![3], plain_headers(), StatusCode::OK, start);
    cache.insert_at(Namespace::Invites, "i-new".to_owned(), vec![4], plain_headers(), StatusCode::OK, later(start, 300));
    reaper_at(&mut cache, &later(start, 599));
    assert_eq!(cache.status(), "{\"users\": 2, \"invites\": 2}");
    reaper_at(&mut cache, &later(start, 600));
    assert_eq!(cache.status(), "{\"users\": 1, \"invites\": 1}");
    assert!(cache.get_at(Namespace::Users, "u-new", &later(start, 600)).is_some());
    assert!(cache.get_at(Namespace::Invites, "i-new", &later(start, 600)).is_some());
    cache.sweep_at(Namespace::Users, &later(start, 900));
    assert_eq!(cache.status(), "{\"users\": 0, \"invites\": 1}");
    cache.sweep_at(Namespace::Invites, &later(start, 900));
    assert_eq!(cache.status(), "{\"users\": 0, \"invites\": 0}");
}

#[test]
fn reaper_with_the_clock() {
    let mut cache = Cache::new(600);
    cache.insert_user("/api/users/1".to_owned(), vec![1], plain_headers(), StatusCode::OK);
    reaper(&mut cache);
    assert_eq!(cache.users_len(), 1);
    let mut short = Cache::new(0);
    short.insert_user("/api/users/1".to_owned(), vec![1], plain_headers(), StatusCode::OK);
    short.insert_invite("/api/invites/A".to_owned(), vec![1], plain_headers(), StatusCode::OK);
    reaper(&mut short);
    assert_eq!(short.status(), "{\"users\": 0, \"invites\": 0}");
}

#[test]
fn status_counts_entries() {
    let start = Instant::now();
    let mut cache = Cache::new(600);
    for number in 0..12u32 {
        cache.insert_at(Namespace::Users, format!("/api/users/{}", number), vec![1], plain_headers(), StatusCode::OK, start);
    }
    for number in 0..3u32 {
        cache.insert_at(Namespace::Invites, format!("/api/invites/{}", number), vec![1], plain_headers(), StatusCode::OK, start);
    }
    assert_eq!(cache.status(), "{\"users\": 12, \"invites\": 3}");
}

#[test]
fn inserts_do_not_keep_bucket_headers() {
    let start = Instant::now();
    let mut cache = Cache::new(600);
    cache.insert_at(Namespace::Users, "/api/users/1".to_owned(), vec![1], upstream_headers(), StatusCode::OK, start);
    cache.insert_user("/api/users/2".to_owned(), vec![2], upstream_headers(), StatusCode::OK);
    cache.insert_invite("/api/invites/A".to_owned(), vec![3], upstream_headers(), StatusCode::OK);
    assert_eq!(cache.get_at(Namespace::Users, "/api/users/1", &start), Some((vec![1], plain_headers(), StatusCode::OK)));
    assert_eq!(cache.get_user("/api/users/2"), Some((vec![2], plain_headers(), StatusCode::OK)));
    assert_eq!(cache.get_invite("/api/invites/A"), Some((vec![3], plain_headers(), StatusCode::OK)));
}

#[test]
fn a_namespace_grows_by_new_keys_only() {
    let start = Instant::now();
    let mut map = ResponseMap::new();
    insert_at(&mut map, "a".to_owned(), vec![1], plain_headers(), StatusCode::OK, start);
    assert_eq!(map.len(), 1);
    insert_at(&mut map, "a".to_owned(), vec![2], plain_headers(), StatusCode::OK, start);
    assert_eq!(map.len(), 1);
    insert_at(&mut map, "b".to_owned(), vec![3], plain_headers(), StatusCode::OK, start);
    assert_eq!(map.len(), 2);
    let mut cache = Cache::new(600);
    cache.insert_user("a".to_owned(), vec![1], plain_headers(), StatusCode::OK);
    cache.insert_user("a".to_owned(), vec![2], plain_headers(), StatusCode::OK);
    cache.insert_user("b".to_owned(), vec![3], plain_headers(), StatusCode::OK);
    assert_eq!(cache.users_len(), 2);
    assert_eq!(cache.invites_len(), 0);
}
