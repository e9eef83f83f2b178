//! The response cache: two namespaces, `users` and `invites`, of frozen
//! responses that stay valid for a fixed number of seconds.
//!
//! Responses are kept in the hash map of the `ahash` crate, under the canonical
//! route of the request. Time is read from the clock of `tokio`; every function
//! that reads it has a sibling, named `.._at`, that takes the time as an argument.

use crate::headers::{
    clone_headers, header_fields, is_stripped, lemma_stripped, strip_bucket_headers,
    without_bucket_headers, Fields,
};
use crate::path::{names_self, refers_to_self};
use crate::route::{kind_of, route_kind, RouteKind};
use crate::text::{decimal_digits, push_decimal};
use ahash::AHashMap;
use ahash::RandomState;
use http::header::HeaderMap;
use http::header::HeaderValue;
use http::StatusCode;
use tokio::time::Instant;
use twilight_http_ratelimiting::Path;
use vstd::prelude::*;
use vstd::string::StringExecFns;

verus! {

/// The hash map of the `ahash` crate.
#[verifier::external_type_specification]
#[verifier::external_body]
#[verifier::reject_recursive_types(K)]
#[verifier::reject_recursive_types(V)]
#[verifier::reject_recursive_types(S)]
pub struct ExAHashMap<K, V, S>(AHashMap<K, V, S>);

/// The hasher state of the `ahash` crate.
#[verifier::external_type_specification]
#[verifier::external_body]
pub struct ExRandomState(RandomState);

/// The status code of a response, of the `http` crate.
#[verifier::external_type_specification]
#[verifier::external_body]
pub struct ExStatusCode(StatusCode);

/// A point in time on the monotonic clock of `tokio`.
#[verifier::external_type_specification]
#[verifier::external_body]
pub struct ExInstant(Instant);

/// One namespace of the cache: responses under their canonical route.
pub type ResponseMap = AHashMap<String, CachedResponse, RandomState>;

/// What a namespace holds, as a mathematical map.
pub type Entries = Map<Seq<char>, CachedResponse>;

/// The number of seconds that a response stays valid where nothing else is configured.
pub const DEFAULT_CACHE_DURATION: u64 = 600;

/// The number of seconds between two sweeps of the cache.
pub const REAPER_INTERVAL: u64 = 120;

/// The responses that a map of the `ahash` crate holds, each under the
/// characters of its key.
pub uninterp spec fn stored(map: ResponseMap) -> Entries;

/// The whole seconds that have passed from `earlier` to `later`: what
/// `(later - earlier).as_secs()` gives on two instants of `tokio`, which is zero
/// where `earlier` is not the earlier one.
pub uninterp spec fn whole_secs(later: Instant, earlier: Instant) -> u64;

/// The number of a status code: what `StatusCode::as_u16` of the `http` crate gives.
pub uninterp spec fn status_number(status: StatusCode) -> u16;

/// The two namespaces of the cache.
#[derive(Clone, Copy, Debug, PartialEq, Eq, Structural)]
pub enum Namespace {
    Users,
    Invites,
}

/// A response as it is kept in the cache.
#[derive(Debug)]
pub struct CachedResponse {
    pub cached_at: Instant,
    pub bytes: Vec<u8>,
    pub headers: HeaderMap<HeaderValue>,
    pub statuscode: StatusCode,
}

/// What a cached response says: its body, its header fields and its status,
/// and the time from which it counts as cached.
pub struct Snapshot {
    pub cached_at: Instant,
    pub body: Seq<u8>,
    pub fields: Fields,
    pub status: StatusCode,
}

impl View for CachedResponse {
    type V = Snapshot;

    open spec fn view(&self) -> Snapshot {
        Snapshot {
            cached_at: self.cached_at,
            body: self.bytes@,
            fields: header_fields(self.headers),
            status: self.statuscode,
        }
    }
}

/// What a hit hands out: body, headers and status of the cached response.
pub open spec fn is_reply_of(
    reply: (Vec<u8>, HeaderMap<HeaderValue>, StatusCode),
    entry: CachedResponse,
) -> bool {
    &&& reply.0@ == entry@.body
    &&& header_fields(reply.1) == entry@.fields
    &&& reply.2 == entry@.status
}

/// A response is fresh while fewer whole seconds than `lifetime` have passed
/// since it was cached.
pub open spec fn is_fresh(entry: CachedResponse, now: Instant, lifetime: u64) -> bool {
    whole_secs(now, entry.cached_at) < lifetime
}

/// The entry that a lookup under `key` at time `now` finds: the one stored
/// there, if it is still fresh.
pub open spec fn found(entries: Entries, key: Seq<char>, now: Instant, lifetime: u64) -> Option<
    CachedResponse,
> {
    if entries.contains_key(key) && is_fresh(entries[key], now, lifetime) {
        Some(entries[key])
    } else {
        None
    }
}

/// The entries that are still fresh at time `now`.
pub open spec fn fresh_part(entries: Entries, now: Instant, lifetime: u64) -> Entries {
    Map::new(
        |key: Seq<char>| entries.contains_key(key) && is_fresh(entries[key], now, lifetime),
        |key: Seq<char>| entries[key],
    )
}

/// `after` is `before` with a response of this body, these fields and this
/// status put under `key`: whatever stood there has gone, and nothing else has
/// changed. There is one entry more if and only if the key is new.
pub open spec fn is_put(
    after: Entries,
    before: Entries,
    key: Seq<char>,
    body: Seq<u8>,
    fields: Fields,
    status: StatusCode,
) -> bool {
    &&& after.dom() == before.dom().insert(key)
    &&& after[key]@.body == body
    &&& after[key]@.fields == fields
    &&& after[key]@.status == status
    &&& forall|other: Seq<char>|
        other != key && before.contains_key(other) ==> after[other] == before[other]
    &&& before.dom().finite() && after.dom().finite()
    &&& after.len() == before.len() + if before.contains_key(key) {
        0nat
    } else {
        1nat
    }
}

/// `is_put`, for a response that counts as cached from `now` on.
pub open spec fn is_put_at(
    after: Entries,
    before: Entries,
    key: Seq<char>,
    body: Seq<u8>,
    fields: Fields,
    status: StatusCode,
    now: Instant,
) -> bool {
    is_put(after, before, key, body, fields, status) && after[key].cached_at == now
}

/// The response in `reply`, if a lookup finds an entry and `reply` is that entry's.
pub open spec fn is_lookup_of(
    reply: Option<(Vec<u8>, HeaderMap<HeaderValue>, StatusCode)>,
    entry: Option<CachedResponse>,
) -> bool {
    match (reply, entry) {
        (Some(reply), Some(entry)) => is_reply_of(reply, entry),
        (None, None) => true,
        _ => false,
    }
}

/// The statuses that are worth caching: success, and `404 Not Found`.
pub open spec fn is_cacheable_status(number: u16) -> bool {
    200 <= number < 300 || number == 404
}

/// The namespace in which responses of a route are cached: invites by their
/// code, users by their id unless the route is on the caller itself. No other
/// route is cached.
pub open spec fn namespace_of(kind: RouteKind, route: Seq<char>) -> Option<Namespace> {
    match kind {
        RouteKind::InvitesCode => Some(Namespace::Invites),
        RouteKind::UsersId => if names_self(route) {
            None
        } else {
            Some(Namespace::Users)
        },
        _ => None,
    }
}

/// The diagnostic report on a cache with `users` and `invites` entries.
pub open spec fn status_report(users: nat, invites: nat) -> Seq<char> {
    "{\"users\": "@ + decimal_digits(users) + ", \"invites\": "@ + decimal_digits(invites) + "}"@
}

/// Calls `Instant::now` of `tokio`. Nothing is known of the time that it gives.
#[verifier::external_body]
fn clock() -> Instant {
    Instant::now()
}

/// Subtracts two instants of `tokio` and takes `Duration::as_secs` of the
/// difference. The subtraction gives zero where `earlier` is the later one.
#[verifier::external_body]
fn secs_between(later: &Instant, earlier: &Instant) -> (secs: u64)
    ensures
        secs == whole_secs(*later, *earlier),
{
    (*later - *earlier).as_secs()
}

/// Calls `StatusCode::as_u16` of the `http` crate.
#[verifier::external_body]
fn status_u16(status: &StatusCode) -> (number: u16)
    ensures
        number == status_number(*status),
{
    status.as_u16()
}

/// Calls `AHashMap::new` of the `ahash` crate: a map that holds nothing.
#[verifier::external_body]
fn empty_map() -> (empty: ResponseMap)
    ensures
        stored(empty) == Entries::empty(),
        stored(empty).dom().finite(),
{
    AHashMap::new()
}

/// Calls `AHashMap::insert` of the `ahash` crate: the entry stands under the key,
/// in place of what stood there; no other key changes. A map holds finitely
/// many keys.
#[verifier::external_body]
fn map_insert(map: &mut ResponseMap, key: String, entry: CachedResponse)
    ensures
        stored(*final(map)) == stored(*old(map)).insert(key@, entry),
        stored(*old(map)).dom().finite(),
{
    map.insert(key, entry);
}

/// Calls `AHashMap::get` of the `ahash` crate: the entry under the key, if there
/// is one.
#[verifier::external_body]
fn map_get<'a>(map: &'a ResponseMap, key: &str) -> (entry: Option<&'a CachedResponse>)
    ensures
        entry == if stored(*map).contains_key(key@) {
            Some(&stored(*map)[key@])
        } else {
            None::<&CachedResponse>
        },
{
    map.get(key)
}

/// Calls `HashMap::len` of std, on the map inside `AHashMap`: the number of keys.
#[verifier::external_body]
fn map_len(map: &ResponseMap) -> (len: usize)
    ensures
        len == stored(*map).len(),
{
    map.len()
}

/// Calls `HashMap::retain` of std, on the map inside `AHashMap`, with the
/// freshness test of this library: the fresh entries stay as they are, the
/// others leave. A map holds finitely many keys.
#[verifier::external_body]
fn map_retain_fresh(map: &mut ResponseMap, now: &Instant, lifetime: u64)
    ensures
        stored(*final(map)) == fresh_part(stored(*old(map)), *now, lifetime),
        stored(*old(map)).dom().finite(),
{
    map.retain(|_, entry| entry.is_fresh_at(now, lifetime));
}

/// Whether a status is worth caching.
pub fn cacheable_status(status: &StatusCode) -> (r: bool)
    ensures
        r == is_cacheable_status(status_number(*status)),
{
    let number: u16 = status_u16(status);
    (200 <= number && number < 300) || number == 404
}

/// The namespace in which responses of an endpoint family are cached, if any.
pub fn cache_namespace(kind: RouteKind, route: &str) -> (r: Option<Namespace>)
    ensures
        r == namespace_of(kind, route@),
{
    match kind {
        RouteKind::InvitesCode => Some(Namespace::Invites),
        RouteKind::UsersId => if refers_to_self(route) {
            None
        } else {
            Some(Namespace::Users)
        },
        _ => None,
    }
}

impl CachedResponse {
    /// A response that counts as cached from now on.
    pub fn new(bytes: Vec<u8>, headers: HeaderMap<HeaderValue>, statuscode: StatusCode) -> (r:
        CachedResponse)
        ensures
            r.bytes == bytes,
            r.headers == headers,
            r.statuscode == statuscode,
    {
        CachedResponse::at(clock(), bytes, headers, statuscode)
    }

    /// A response that counts as cached from `cached_at` on.
    pub fn at(
        cached_at: Instant,
        bytes: Vec<u8>,
        headers: HeaderMap<HeaderValue>,
        statuscode: StatusCode,
    ) -> (r: CachedResponse)
        ensures
            r == (CachedResponse { cached_at, bytes, headers, statuscode }),
    {
        CachedResponse { cached_at, bytes, headers, statuscode }
    }

    /// Whether the response is still fresh at time `now`.
    pub fn is_fresh_at(&self, now: &Instant, lifetime: u64) -> (r: bool)
        ensures
            r == is_fresh(*self, *now, lifetime),
    {
        secs_between(now, &self.cached_at) < lifetime
    }

    /// A copy of body, headers and status, to answer a request with.
    pub fn reply(&self) -> (r: (Vec<u8>, HeaderMap<HeaderValue>, StatusCode))
        ensures
            is_reply_of(r, *self),
    {
        (self.bytes.clone(), clone_headers(&self.headers), self.statuscode)
    }
}

/// Looks a response up in one namespace, as of now: the result is that of
/// `get_at` for the time that the clock gives.
pub fn get(cache: &ResponseMap, key: &str, cache_duration: u64) -> (r: Option<
    (Vec<u8>, HeaderMap<HeaderValue>, StatusCode),
>)
    ensures
        exists|now: Instant|
            is_lookup_of(r, #[trigger] found(stored(*cache), key@, now, cache_duration)),
{
    let now = clock();
    get_at(cache, key, cache_duration, &now)
}

/// Looks a response up in one namespace, as of time `now`: a hit is the entry
/// under `key`, if it is still fresh. A stale entry is a miss and stays where it is.
pub fn get_at(cache: &ResponseMap, key: &str, cache_duration: u64, now: &Instant) -> (r: Option<
    (Vec<u8>, HeaderMap<HeaderValue>, StatusCode),
>)
    ensures
        is_lookup_of(r, found(stored(*cache), key@, *now, cache_duration)),
        r is Some ==> whole_secs(*now, stored(*cache)[key@].cached_at) < cache_duration,
{
    match map_get(cache, key) {
        Some(cached) => {
            if cached.is_fresh_at(now, cache_duration) {
                Some(cached.reply())
            } else {
                None
            }
        },
        None => None,
    }
}

/// Puts a response into one namespace, as cached from now on.
pub fn insert(
    cache: &mut ResponseMap,
    key: String,
    value: Vec<u8>,
    headers: HeaderMap<HeaderValue>,
    statuscode: StatusCode,
)
    ensures
        is_put(
            stored(*final(cache)),
            stored(*old(cache)),
            key@,
            value@,
            header_fields(headers),
            statuscode,
        ),
{
    insert_at(cache, key, value, headers, statuscode, clock());
}

/// Puts a response into one namespace, as cached from `now` on. It takes the
/// place of what stood under `key`; the namespace grows by one entry if and
/// only if nothing stood there.
pub fn insert_at(
    cache: &mut ResponseMap,
    key: String,
    value: Vec<u8>,
    headers: HeaderMap<HeaderValue>,
    statuscode: StatusCode,
    now: Instant,
)
    ensures
        stored(*final(cache)) == stored(*old(cache)).insert(
            key@,
            CachedResponse { cached_at: now, bytes: value, headers, statuscode },
        ),
        is_put_at(
            stored(*final(cache)),
            stored(*old(cache)),
            key@,
            value@,
            header_fields(headers),
            statuscode,
            now,
        ),
{
    map_insert(cache, key, CachedResponse::at(now, value, headers, statuscode));
}

/// Removes from one namespace what is stale by now: the result is that of
/// `clean_cache_at` for the time that the clock gives.
pub fn clean_cache(cache: &mut ResponseMap, cache_duration: u64)
    ensures
        exists|now: Instant|
            stored(*final(cache)) == #[trigger] fresh_part(
                stored(*old(cache)),
                now,
                cache_duration,
            ),
{
    let now = clock();
    clean_cache_at(cache, cache_duration, &now);
}

/// Removes from one namespace what is stale at time `now`: the entries of which
/// `cache_duration` seconds or more have passed.
pub fn clean_cache_at(cache: &mut ResponseMap, cache_duration: u64, now: &Instant)
    ensures
        stored(*final(cache)) == fresh_part(stored(*old(cache)), *now, cache_duration),
        stored(*old(cache)).dom().finite() && stored(*final(cache)).dom().finite(),
        stored(*final(cache)).len() <= stored(*old(cache)).len(),
{
    map_retain_fresh(cache, now, cache_duration);
    proof {
        lemma_fresh_part_is_smaller(stored(*old(cache)), *now, cache_duration);
    }
}

/// The cache: the responses of the `users` and of the `invites` namespace, and
/// the number of seconds that a response stays valid.
#[derive(Debug)]
pub struct Cache {
    users: ResponseMap,
    invites: ResponseMap,
    cache_duration: u64,
}

impl Cache {
    /// What the `users` namespace holds.
    pub closed spec fn users(&self) -> Entries {
        stored(self.users)
    }

    /// What the `invites` namespace holds.
    pub closed spec fn invites(&self) -> Entries {
        stored(self.invites)
    }

    /// The number of seconds that a response stays valid.
    pub closed spec fn cache_duration(&self) -> u64 {
        self.cache_duration
    }

    /// What one of the namespaces holds.
    pub open spec fn entries(&self, namespace: Namespace) -> Entries {
        match namespace {
            Namespace::Users => self.users(),
            Namespace::Invites => self.invites(),
        }
    }

    /// What the cache keeps true of itself: no key of `users` refers to the
    /// caller itself, no response is kept with a bucket header, and each
    /// namespace holds finitely many responses.
    pub open spec fn wf(&self) -> bool {
        &&& self.users().dom().finite()
        &&& self.invites().dom().finite()
        &&& forall|key: Seq<char>| #[trigger] self.users().contains_key(key) ==> !names_self(key)
        &&& forall|key: Seq<char>| #[trigger]
            self.users().contains_key(key) ==> is_stripped(self.users()[key]@.fields)
        &&& forall|key: Seq<char>| #[trigger]
            self.invites().contains_key(key) ==> is_stripped(self.invites()[key]@.fields)
    }

    /// The entry that the read-through of a request finds at time `now`: the
    /// fresh entry under the route in the namespace of the route, if the route
    /// has a namespace.
    pub open spec fn looked_up(&self, kind: RouteKind, route: Seq<char>, now: Instant) -> Option<
        CachedResponse,
    > {
        match namespace_of(kind, route) {
            Some(namespace) => found(self.entries(namespace), route, now, self.cache_duration()),
            None => None,
        }
    }

    /// Whether a response may stand under `key` in `namespace`: a key of
    /// `users` must not refer to the caller itself.
    pub open spec fn admits(namespace: Namespace, key: Seq<char>) -> bool {
        namespace == Namespace::Users ==> !names_self(key)
    }

    /// An empty cache whose responses stay valid for `cache_duration` seconds.
    pub fn new(cache_duration: u64) -> (cache: Cache)
        ensures
            cache.wf(),
            cache.users() == Entries::empty(),
            cache.invites() == Entries::empty(),
            cache.cache_duration() == cache_duration,
    {
        Cache { users: empty_map(), invites: empty_map(), cache_duration }
    }

    /// Puts a response into a namespace, as cached from `now` on. The headers
    /// are kept as they are given if they are stripped of the bucket headers,
    /// as they should be; bucket headers among them are not kept.
    pub fn insert_at(
        &mut self,
        namespace: Namespace,
        key: String,
        value: Vec<u8>,
        headers: HeaderMap<HeaderValue>,
        statuscode: StatusCode,
        now: Instant,
    )
        requires
            old(self).wf(),
            Cache::admits(namespace, key@),
        ensures
            final(self).wf(),
            final(self).cache_duration() == old(self).cache_duration(),
            is_put_at(
                final(self).entries(namespace),
                old(self).entries(namespace),
                key@,
                value@,
                without_bucket_headers(header_fields(headers)),
                statuscode,
                now,
            ),
            is_stripped(header_fields(headers)) ==> final(self).entries(namespace)[key@]@.fields
                == header_fields(headers),
            namespace == Namespace::Users ==> final(self).invites() == old(self).invites(),
            namespace == Namespace::Invites ==> final(self).users() == old(self).users(),
    {
        let ghost put = key@;
        proof {
            lemma_stripped(header_fields(headers));
        }
        let mut headers = headers;
        strip_bucket_headers(&mut headers);
        match namespace {
            Namespace::Users => insert_at(&mut self.users, key, value, headers, statuscode, now),
            Namespace::Invites => insert_at(
                &mut self.invites,
                key,
                value,
                headers,
                statuscode,
                now,
            ),
        }
        proof {
            // The new response is admitted, and every other key was there
            // before, with the same response.
            match namespace {
                Namespace::Users => {
                    assert(self.invites() == old(self).invites());
                    assert forall|other: Seq<char>| #[trigger]
                        self.users().contains_key(other) implies other == put || old(
                        self,
                    ).users().contains_key(other) by {}
                },
                Namespace::Invites => {
                    assert(self.users() == old(self).users());
                    assert forall|other: Seq<char>| #[trigger]
                        self.invites().contains_key(other) implies other == put || old(
                        self,
                    ).invites().contains_key(other) by {}
                },
            }
        }
    }

    /// Puts the response to a request for a user into the cache, as cached from
    /// now on. The key must not refer to the caller itself; then no key of
    /// `users` does afterwards. The headers are kept as `insert_at` keeps them.
    pub fn insert_user(
        &mut self,
        key: String,
        value: Vec<u8>,
        headers: HeaderMap<HeaderValue>,
        statuscode: StatusCode,
    )
        requires
            old(self).wf(),
            !names_self(key@),
        ensures
            final(self).wf(),
            forall|other: Seq<char>| #[trigger]
                final(self).users().contains_key(other) ==> !names_self(other),
            final(self).cache_duration() == old(self).cache_duration(),
            is_put(
                final(self).users(),
                old(self).users(),
                key@,
                value@,
                without_bucket_headers(header_fields(headers)),
                statuscode,
            ),
            is_stripped(header_fields(headers)) ==> final(self).users()[key@]@.fields
                == header_fields(headers),
            final(self).invites() == old(self).invites(),
    {
        self.insert_at(Namespace::Users, key, value, headers, statuscode, clock());
    }

    /// Puts the response to a request for an invite into the cache, as cached
    /// from now on. The headers are kept as `insert_at` keeps them.
    pub fn insert_invite(
        &mut self,
        key: String,
        value: Vec<u8>,
        headers: HeaderMap<HeaderValue>,
        statuscode: StatusCode,
    )
        requires
            old(self).wf(),
        ensures
            final(self).wf(),
            final(self).cache_duration() == old(self).cache_duration(),
            is_put(
                final(self).invites(),
                old(self).invites(),
                key@,
                value@,
                without_bucket_headers(header_fields(headers)),
                statuscode,
            ),
            is_stripped(header_fields(headers)) ==> final(self).invites()[key@]@.fields
                == header_fields(headers),
            final(self).users() == old(self).users(),
    {
        self.insert_at(Namespace::Invites, key, value, headers, statuscode, clock());
    }

    /// Looks a response up in a namespace, as of time `now`. A hit is fresh, and
    /// in a well-formed cache it carries no bucket header.
    pub fn get_at(&self, namespace: Namespace, key: &str, now: &Instant) -> (r: Option<
        (Vec<u8>, HeaderMap<HeaderValue>, StatusCode),
    >)
        ensures
            is_lookup_of(r, found(self.entries(namespace), key@, *now, self.cache_duration())),
            r is Some ==> whole_secs(*now, self.entries(namespace)[key@].cached_at)
                < self.cache_duration(),
            self.wf() ==> (r matches Some(reply) ==> is_stripped(header_fields(reply.1))),
    {
        match namespace {
            Namespace::Users => get_at(&self.users, key, self.cache_duration, now),
            Namespace::Invites => get_at(&self.invites, key, self.cache_duration, now),
        }
    }

    /// Looks the response to a request for a user up, as of now.
    pub fn get_user(&self, key: &str) -> (r: Option<(Vec<u8>, HeaderMap<HeaderValue>, StatusCode)>)
        ensures
            exists|now: Instant|
                is_lookup_of(r, #[trigger] found(self.users(), key@, now, self.cache_duration())),
            self.wf() ==> (r matches Some(reply) ==> is_stripped(header_fields(reply.1))),
    {
        let now = clock();
        self.get_at(Namespace::Users, key, &now)
    }

    /// Looks the response to a request for an invite up, as of now.
    pub fn get_invite(&self, key: &str) -> (r: Option<
        (Vec<u8>, HeaderMap<HeaderValue>, StatusCode),
    >)
        ensures
            exists|now: Instant|
                is_lookup_of(
                    r,
                    #[trigger] found(self.invites(), key@, now, self.cache_duration()),
                ),
            self.wf() ==> (r matches Some(reply) ==> is_stripped(header_fields(reply.1))),
    {
        let now = clock();
        self.get_at(Namespace::Invites, key, &now)
    }

    /// The read-through of a request: the cached response to a request on
    /// `route`, classified as `path`, as of time `now`. Only routes with a
    /// namespace are looked up.
    pub fn lookup_at(&self, path: &Path, route: &str, now: &Instant) -> (r: Option<
        (Vec<u8>, HeaderMap<HeaderValue>, StatusCode),
    >)
        ensures
            is_lookup_of(r, self.looked_up(kind_of(*path), route@, *now)),
            self.wf() ==> (r matches Some(reply) ==> is_stripped(header_fields(reply.1))),
    {
        match cache_namespace(route_kind(path), route) {
            Some(namespace) => self.get_at(namespace, route, now),
            None => None,
        }
    }

    /// The read-through of a request, as of now.
    pub fn lookup(&self, path: &Path, route: &str) -> (r: Option<
        (Vec<u8>, HeaderMap<HeaderValue>, StatusCode),
    >)
        ensures
            exists|now: Instant|
                is_lookup_of(r, #[trigger] self.looked_up(kind_of(*path), route@, now)),
            self.wf() ==> (r matches Some(reply) ==> is_stripped(header_fields(reply.1))),
    {
        let now = clock();
        self.lookup_at(path, route, &now)
    }

    /// The write-through of a response, as cached from `now` on. The response
    /// is kept if and only if its route has a namespace and its status is worth
    /// caching; it is kept under `route`, without the bucket headers. Returns
    /// whether it was kept; where not, the cache has not changed.
    pub fn store_at(
        &mut self,
        path: &Path,
        route: String,
        body: Vec<u8>,
        headers: &HeaderMap<HeaderValue>,
        status: StatusCode,
        now: Instant,
    ) -> (kept: bool)
        requires
            old(self).wf(),
        ensures
            final(self).wf(),
            final(self).cache_duration() == old(self).cache_duration(),
            kept == (namespace_of(kind_of(*path), route@) is Some && is_cacheable_status(
                status_number(status),
            )),
            !kept ==> final(self).users() == old(self).users() && final(self).invites() == old(
                self,
            ).invites(),
            kept ==> ({
                let namespace = namespace_of(kind_of(*path), route@)->0;
                &&& is_put_at(
                    final(self).entries(namespace),
                    old(self).entries(namespace),
                    route@,
                    body@,
                    without_bucket_headers(header_fields(*headers)),
                    status,
                    now,
                )
                &&& namespace == Namespace::Users ==> final(self).invites() == old(self).invites()
                &&& namespace == Namespace::Invites ==> final(self).users() == old(self).users()
            }),
    {
        if !cacheable_status(&status) {
            return false;
        }
        match cache_namespace(route_kind(path), route.as_str()) {
            Some(namespace) => {
                self.insert_at(namespace, route, body, clone_headers(headers), status, now);
                true
            },
            None => false,
        }
    }

    /// The write-through of a response, as cached from now on.
    pub fn store(
        &mut self,
        path: &Path,
        route: String,
        body: Vec<u8>,
        headers: &HeaderMap<HeaderValue>,
        status: StatusCode,
    ) -> (kept: bool)
        requires
            old(self).wf(),
        ensures
            final(self).wf(),
            final(self).cache_duration() == old(self).cache_duration(),
            kept == (namespace_of(kind_of(*path), route@) is Some && is_cacheable_status(
                status_number(status),
            )),
            !kept ==> final(self).users() == old(self).users() && final(self).invites() == old(
                self,
            ).invites(),
            kept ==> ({
                let namespace = namespace_of(kind_of(*path), route@)->0;
                &&& is_put(
                    final(self).entries(namespace),
                    old(self).entries(namespace),
                    route@,
                    body@,
                    without_bucket_headers(header_fields(*headers)),
                    status,
                )
                &&& namespace == Namespace::Users ==> final(self).invites() == old(self).invites()
                &&& namespace == Namespace::Invites ==> final(self).users() == old(self).users()
            }),
    {
        self.store_at(path, route, body, headers, status, clock())
    }

    /// Removes from a namespace what is stale at time `now`.
    pub fn sweep_at(&mut self, namespace: Namespace, now: &Instant)
        requires
            old(self).wf(),
        ensures
            final(self).wf(),
            final(self).cache_duration() == old(self).cache_duration(),
            final(self).entries(namespace) == fresh_part(
                old(self).entries(namespace),
                *now,
                old(self).cache_duration(),
            ),
            namespace == Namespace::Users ==> final(self).invites() == old(self).invites(),
            namespace == Namespace::Invites ==> final(self).users() == old(self).users(),
    {
        match namespace {
            Namespace::Users => clean_cache_at(&mut self.users, self.cache_duration, now),
            Namespace::Invites => clean_cache_at(&mut self.invites, self.cache_duration, now),
        }
        proof {
            // Every key that is left was there before, with the same response.
            assert forall|key: Seq<char>| #[trigger]
                self.users().contains_key(key) implies old(self).users().contains_key(key)
                && self.users()[key] == old(self).users()[key] by {}
            assert forall|key: Seq<char>| #[trigger]
                self.invites().contains_key(key) implies old(self).invites().contains_key(key)
                && self.invites()[key] == old(self).invites()[key] by {}
        }
    }

    /// The number of responses in the `users` namespace.
    pub fn users_len(&self) -> (len: usize)
        ensures
            len == self.users().len(),
    {
        map_len(&self.users)
    }

    /// The number of responses in the `invites` namespace.
    pub fn invites_len(&self) -> (len: usize)
        ensures
            len == self.invites().len(),
    {
        map_len(&self.invites)
    }

    /// The sizes of the two namespaces, as a JSON object.
    pub fn status(&self) -> (report: String)
        ensures
            report@ == status_report(self.users().len(), self.invites().len()),
    {
        let mut report = String::from_str("{\"users\": ");
        push_decimal(&mut report, self.users_len() as u64);
        report.append(", \"invites\": ");
        push_decimal(&mut report, self.invites_len() as u64);
        report.append("}");
        report
    }
}

/// One round of the reaper: removes from both namespaces what is stale by now.
/// The result is that of `reaper_at` for the time that the clock gives.
pub fn reaper(cache: &mut Cache)
    requires
        old(cache).wf(),
    ensures
        final(cache).wf(),
        final(cache).cache_duration() == old(cache).cache_duration(),
        exists|now: Instant|
            final(cache).users() == #[trigger] fresh_part(
                old(cache).users(),
                now,
                old(cache).cache_duration(),
            ) && final(cache).invites() == fresh_part(
                old(cache).invites(),
                now,
                old(cache).cache_duration(),
            ),
{
    let now = clock();
    reaper_at(cache, &now);
}

/// One round of the reaper at time `now`: in both namespaces exactly the
/// entries stay that are fresh at that time.
pub fn reaper_at(cache: &mut Cache, now: &Instant)
    requires
        old(cache).wf(),
    ensures
        final(cache).wf(),
        final(cache).cache_duration() == old(cache).cache_duration(),
        final(cache).users() == fresh_part(old(cache).users(), *now, old(cache).cache_duration()),
        final(cache).invites() == fresh_part(
            old(cache).invites(),
            *now,
            old(cache).cache_duration(),
        ),
{
    cache.sweep_at(Namespace::Invites, now);
    cache.sweep_at(Namespace::Users, now);
}

/// A response that was put into a namespace is found there for as long as it
/// is fresh, with the body, the fields and the status that it was put with.
pub proof fn lemma_hit_after_put(
    after: Entries,
    before: Entries,
    key: Seq<char>,
    body: Seq<u8>,
    fields: Fields,
    status: StatusCode,
    cached_at: Instant,
    now: Instant,
    lifetime: u64,
)
    requires
        is_put_at(after, before, key, body, fields, status, cached_at),
        whole_secs(now, cached_at) < lifetime,
    ensures
        found(after, key, now, lifetime) matches Some(entry) && entry@.body == body && entry@.fields
            == fields && entry@.status == status,
{
}

/// A response that the write-through has kept answers the next request on the
/// same route: while it is fresh, the read-through finds it, with the body and
/// the status of the response and with its fields less the bucket headers.
pub proof fn lemma_kept_response_is_looked_up(
    cache: Cache,
    before: Cache,
    kind: RouteKind,
    route: Seq<char>,
    body: Seq<u8>,
    fields: Fields,
    status: StatusCode,
    cached_at: Instant,
    now: Instant,
)
    requires
        namespace_of(kind, route) matches Some(namespace) && is_put_at(
            cache.entries(namespace),
            before.entries(namespace),
            route,
            body,
            without_bucket_headers(fields),
            status,
            cached_at,
        ),
        whole_secs(now, cached_at) < cache.cache_duration(),
    ensures
        cache.looked_up(kind, route, now) matches Some(entry) && entry@.body == body
            && entry@.fields == without_bucket_headers(fields) && entry@.status == status
            && is_stripped(entry@.fields),
{
    lemma_stripped(fields);
}

/// The fresh part of finitely many entries is no larger than the whole.
pub proof fn lemma_fresh_part_is_smaller(entries: Entries, now: Instant, lifetime: u64)
    requires
        entries.dom().finite(),
    ensures
        fresh_part(entries, now, lifetime).dom().finite(),
        fresh_part(entries, now, lifetime).len() <= entries.len(),
{
    let part = fresh_part(entries, now, lifetime).dom();
    assert(part.subset_of(entries.dom()));
    vstd::set_lib::lemma_len_subset(part, entries.dom());
}

/// After a sweep at time `now`, a lookup at that time finds what it found
/// before; and every entry that is left is fresh.
pub proof fn lemma_sweep_keeps_hits(entries: Entries, key: Seq<char>, now: Instant, lifetime: u64)
    ensures
        found(fresh_part(entries, now, lifetime), key, now, lifetime) == found(
            entries,
            key,
            now,
            lifetime,
        ),
        forall|other: Seq<char>| #[trigger]
            fresh_part(entries, now, lifetime).contains_key(other) ==> is_fresh(
                fresh_part(entries, now, lifetime)[other],
                now,
                lifetime,
            ),
{
}

} // verus!
