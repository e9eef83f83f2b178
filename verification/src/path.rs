//! Normalisation of request paths: the optional `/api` or `/api/vN` prefix is
//! split from the route that the upstream knows.

use crate::text::{
    chars_of, contains, matches_at, occurs_at, occurs_in, parse_unsigned, unsigned_decimal_up_to,
};
use vstd::prelude::*;
use vstd::string::StrSliceExecFns;
use vstd::string::StringExecFns;

verus! {

/// The unversioned prefix, `/api`.
pub open spec fn api_root() -> Seq<char> {
    seq!['/', 'a', 'p', 'i']
}

/// What a versioned prefix begins with, `/api/v`.
pub open spec fn version_marker() -> Seq<char> {
    seq!['/', 'a', 'p', 'i', '/', 'v']
}

/// The marker of a route on the caller itself, `@me`.
pub open spec fn self_marker() -> Seq<char> {
    seq!['@', 'm', 'e']
}

/// `s` begins with `prefix`.
pub open spec fn starts_with(s: Seq<char>, prefix: Seq<char>) -> bool {
    occurs_at(prefix, s, 0)
}

/// Where the path segment that holds index `from` ends: at the next slash, or
/// at the end of the path.
pub open spec fn segment_end(path: Seq<char>, from: int) -> int
    decreases path.len() - from,
{
    if from >= path.len() || path[from] == '/' {
        from
    } else {
        segment_end(path, from + 1)
    }
}

/// The length of the prefix `/api/vN` of `path`, where `N` is a whole path
/// segment and a decimal number of at most 8 bits; `None` where `path` does not
/// begin so.
pub open spec fn versioned_prefix_len(path: Seq<char>) -> Option<int> {
    let end = segment_end(path, 6);
    if starts_with(path, version_marker()) && unsigned_decimal_up_to(path.subrange(6, end), 255)
        is Some {
        Some(end)
    } else {
        None
    }
}

/// The API prefix of `path` and what is left of it: `/api/vN` and the rest where
/// `path` is versioned; else `/api` and `path` without a leading `/api`.
pub open spec fn normalized(path: Seq<char>) -> (Seq<char>, Seq<char>) {
    match versioned_prefix_len(path) {
        Some(n) => (path.take(n), path.skip(n)),
        None => if starts_with(path, api_root()) {
            (api_root(), path.skip(4))
        } else {
            (api_root(), path)
        },
    }
}

/// The route string that names a cached response: prefix and trimmed path, joined.
pub open spec fn canonical(api_prefix: Seq<char>, trimmed: Seq<char>) -> Seq<char> {
    api_prefix + trimmed
}

/// Whether the route refers to the caller itself: `@me` occurs somewhere in it.
pub open spec fn names_self(route: Seq<char>) -> bool {
    occurs_in(self_marker(), route)
}

/// Splits a request path into its API prefix and the route below it.
pub fn normalize_path(request_path: &str) -> (r: (&str, &str))
    ensures
        r.0@ == normalized(request_path@).0,
        r.1@ == normalized(request_path@).1,
{
    let chars = chars_of(request_path);
    let n: usize = chars.len();
    let marker = chars_of("/api/v");
    let root = chars_of("/api");
    proof {
        reveal_strlit("/api/v");
        reveal_strlit("/api");
        assert(marker@ =~= version_marker());
        assert(root@ =~= api_root());
    }
    if matches_at(chars.as_slice(), marker.as_slice(), 0) {
        let mut end: usize = 6;
        while end < n && chars[end] != '/'
            invariant
                6 <= end <= n,
                n == chars@.len(),
                segment_end(chars@, 6) == segment_end(chars@, end as int),
            decreases n - end,
        {
            end += 1;
        }
        match parse_unsigned(chars.as_slice(), 6, end) {
            Some(version) => {
                if version <= 255 {
                    return (
                        request_path.substring_char(0, end),
                        request_path.substring_char(end, n),
                    );
                }
            },
            None => {},
        }
    }
    if matches_at(chars.as_slice(), root.as_slice(), 0) {
        ("/api", request_path.substring_char(4, n))
    } else {
        ("/api", request_path)
    }
}

/// Joins an API prefix and a trimmed path into the canonical route.
pub fn canonical_route(api_prefix: &str, trimmed: &str) -> (r: String)
    ensures
        r@ == canonical(api_prefix@, trimmed@),
{
    let mut route = String::from_str(api_prefix);
    route.append(trimmed);
    route
}

/// Whether a canonical route refers to the caller itself.
pub fn refers_to_self(route: &str) -> (r: bool)
    ensures
        r == names_self(route@),
{
    proof {
        reveal_strlit("@me");
        assert("@me"@ =~= self_marker());
    }
    contains(route, "@me")
}

/// Normalising loses nothing: the canonical route of a path that begins with
/// `/api` is the path itself, and that of any other path is the path after
/// `/api`. The API prefix is `/api` unless the path is versioned.
pub proof fn lemma_canonical_route(path: Seq<char>)
    ensures
        canonical(normalized(path).0, normalized(path).1) == if starts_with(path, api_root()) {
            path
        } else {
            api_root() + path
        },
        versioned_prefix_len(path) is None ==> normalized(path).0 == api_root(),
        versioned_prefix_len(path) matches Some(n) ==> 6 < n <= path.len() && normalized(path).0
            == path.take(n) && (n == path.len() || path[n] == '/'),
{
    if versioned_prefix_len(path) is Some {
        let n = versioned_prefix_len(path)->0;
        lemma_segment_end(path, 6);
        assert(path.take(n) + path.skip(n) =~= path);
        // What begins with `/api/v` begins with `/api`.
        assert(path.subrange(0, 4) =~= path.subrange(0, 6).subrange(0, 4));
        assert(version_marker().subrange(0, 4) =~= api_root());
    } else if starts_with(path, api_root()) {
        assert(api_root() + path.skip(4) =~= path);
    }
}

/// A segment ends at or after its start, at the first slash from there on or at
/// the end of the path.
pub proof fn lemma_segment_end(path: Seq<char>, from: int)
    requires
        0 <= from <= path.len(),
    ensures
        from <= segment_end(path, from) <= path.len(),
        segment_end(path, from) == path.len() || path[segment_end(path, from)] == '/',
        forall|i: int| from <= i < segment_end(path, from) ==> path[i] != '/',
    decreases path.len() - from,
{
    if from < path.len() && path[from] != '/' {
        lemma_segment_end(path, from + 1);
    }
}

} // verus!
