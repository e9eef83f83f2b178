//! Header fields of requests and responses. The fields live in the `HeaderMap`
//! of the `http` crate; this module states what the proxy does to them.

use http::header::HeaderMap;
use http::header::HeaderValue;
use http::header::InvalidHeaderValue;
use vstd::prelude::*;
use vstd::string::StringSliceAdditionalSpecFns;

verus! {

/// The multimap of header fields of the `http` crate.
#[verifier::external_type_specification]
#[verifier::external_body]
#[verifier::reject_recursive_types(T)]
pub struct ExHeaderMap<T>(HeaderMap<T>);

/// The value of one header field, of the `http` crate.
#[verifier::external_type_specification]
#[verifier::external_body]
pub struct ExHeaderValue(HeaderValue);

/// The error of the `http` crate for bytes that are no header value.
#[verifier::external_type_specification]
#[verifier::external_body]
pub struct ExInvalidHeaderValue(InvalidHeaderValue);

/// The fields of a header map: under each field name, in lower case, the bytes
/// of its values, in the order in which they were added. A name that has no
/// value is no key.
pub type Fields = Map<Seq<char>, Seq<Seq<u8>>>;

/// The fields that a `HeaderMap` holds.
pub uninterp spec fn header_fields(headers: HeaderMap<HeaderValue>) -> Fields;

/// The bytes of a `HeaderValue`.
pub uninterp spec fn value_bytes(value: HeaderValue) -> Seq<u8>;

/// The host that requests are forwarded to.
pub const UPSTREAM_HOST: &'static str = "discord.com";

/// A header map with fewer names than this takes one more, whatever state it
/// is in. The table of the `http` crate has at most 32 768 slots; it refuses a
/// name only where it would have to grow beyond that, which it tries no sooner
/// than with a fifth of the slots taken.
pub const SURE_ROOM: usize = 6_554;

/// A byte that may stand in a header value: a tab, or any byte from the space
/// on but the delete character.
pub open spec fn is_value_byte(byte: u8) -> bool {
    (byte >= 32 && byte != 127) || byte == 9
}

/// Bytes that may be a header value.
pub open spec fn is_value_bytes(bytes: Seq<u8>) -> bool {
    forall|i: int| 0 <= i < bytes.len() ==> is_value_byte(#[trigger] bytes[i])
}

/// A character of the field names that this library handles: a lower-case
/// letter, a digit or a hyphen.
pub open spec fn is_name_char(c: char) -> bool {
    ('a' <= c <= 'z') || ('0' <= c <= '9') || c == '-'
}

/// A field name as this library writes it: 1 to 64 lower-case letters, digits
/// and hyphens. Every such name is a valid header name and its own lower-case
/// form.
pub open spec fn is_field_name(name: Seq<char>) -> bool {
    1 <= name.len() <= 64 && forall|i: int| 0 <= i < name.len() ==> is_name_char(#[trigger] name[i])
}

/// Text that may stand in a header value as it is: visible ASCII and spaces.
pub open spec fn is_value_text(text: Seq<char>) -> bool {
    forall|i: int| 0 <= i < text.len() ==> ' ' <= #[trigger] text[i] <= '~'
}

/// The bytes of a text of ASCII characters.
pub open spec fn ascii_bytes(text: Seq<char>) -> Seq<u8> {
    text.map_values(|c: char| c as u8)
}

/// The fields without the upstream's bookkeeping of one bucket. These four
/// speak of the budget at the time of the response and would mislead whoever
/// reads them later.
pub open spec fn without_bucket_headers(fields: Fields) -> Fields {
    fields.remove("x-ratelimit-bucket"@).remove("x-ratelimit-remaining"@).remove(
        "x-ratelimit-reset"@,
    ).remove("x-ratelimit-reset-after"@)
}

/// None of the four bucket headers is among the fields.
pub open spec fn is_stripped(fields: Fields) -> bool {
    &&& !fields.contains_key("x-ratelimit-bucket"@)
    &&& !fields.contains_key("x-ratelimit-remaining"@)
    &&& !fields.contains_key("x-ratelimit-reset"@)
    &&& !fields.contains_key("x-ratelimit-reset-after"@)
}

/// The fields without those that belong to one connection and must not be
/// forwarded.
pub open spec fn without_hop_headers(fields: Fields) -> Fields {
    fields.remove("connection"@).remove("keep-alive"@).remove("proxy-connection"@).remove(
        "transfer-encoding"@,
    ).remove("upgrade"@)
}

/// The fields of a request as it is forwarded: no hop-by-hop headers, the bearer
/// as the only value of `authorization`, the upstream as the only `host`.
pub open spec fn forwarded_fields(fields: Fields, bearer: Seq<u8>) -> Fields {
    without_hop_headers(fields).insert("authorization"@, seq![bearer]).insert(
        "host"@,
        seq![ascii_bytes(UPSTREAM_HOST@)],
    )
}

/// Calls `HeaderMap::clone` of the `http` crate. The copy holds the same fields,
/// and they are finitely many.
#[verifier::external_body]
pub(crate) fn clone_headers(headers: &HeaderMap<HeaderValue>) -> (copy: HeaderMap<HeaderValue>)
    ensures
        header_fields(copy) == header_fields(*headers),
        header_fields(copy).dom().finite(),
{
    headers.clone()
}

/// Calls `HeaderMap::remove` of the `http` crate with a name in lower case. All
/// values of that name leave the map; no other field changes. A map holds
/// finitely many names.
#[verifier::external_body]
fn remove_header(headers: &mut HeaderMap<HeaderValue>, name: &str)
    requires
        is_field_name(name@),
    ensures
        header_fields(*final(headers)) == header_fields(*old(headers)).remove(name@),
        header_fields(*old(headers)).dom().finite(),
{
    headers.remove(name);
}

/// Calls `HeaderMap::try_insert` of the `http` crate with a name in lower case.
/// Where it succeeds, the value is the only one of that name and no other
/// field has changed. It fails only where the table cannot grow, which takes
/// `SURE_ROOM` names or more; then nothing has changed. A map holds finitely
/// many names.
#[verifier::external_body]
fn set_header(
    headers: &mut HeaderMap<HeaderValue>,
    name: &'static str,
    value: HeaderValue,
) -> (done: bool)
    requires
        is_field_name(name@),
    ensures
        done ==> header_fields(*final(headers)) == header_fields(*old(headers)).insert(
            name@,
            seq![value_bytes(value)],
        ),
        !done ==> header_fields(*final(headers)) == header_fields(*old(headers)),
        header_fields(*old(headers)).dom().finite(),
        header_fields(*old(headers)).dom().len() < SURE_ROOM ==> done,
{
    headers.try_insert(name, value).is_ok()
}

/// Calls `HeaderValue::from_static` of the `http` crate, which takes visible
/// ASCII text as it is.
#[verifier::external_body]
fn static_value(text: &'static str) -> (value: HeaderValue)
    requires
        is_value_text(text@),
    ensures
        value_bytes(value) == ascii_bytes(text@),
{
    HeaderValue::from_static(text)
}

/// Calls `HeaderValue::from_bytes` of the `http` crate, which copies the bytes
/// if each of them may stand in a header value, and fails on any other byte.
#[verifier::external_body]
fn value_from_bytes(bytes: &[u8]) -> (r: Result<HeaderValue, InvalidHeaderValue>)
    ensures
        r is Ok <==> is_value_bytes(bytes@),
        r matches Ok(value) ==> value_bytes(value) == bytes@,
{
    HeaderValue::from_bytes(bytes)
}

/// The header value that carries a bearer token: the bytes of the token, if
/// each of them may stand in a header value.
pub fn bearer_value(token: &str) -> (r: Option<HeaderValue>)
    ensures
        r is Some <==> is_value_bytes(token.spec_bytes()),
        r matches Some(value) ==> value_bytes(value) == token.spec_bytes(),
{
    match value_from_bytes(token.as_bytes()) {
        Ok(value) => Some(value),
        Err(_) => None,
    }
}

/// A copy of the headers of a response, as it is kept in the cache: without the
/// four bucket headers.
pub fn cacheable_headers(headers: &HeaderMap<HeaderValue>) -> (kept: HeaderMap<HeaderValue>)
    ensures
        header_fields(kept) == without_bucket_headers(header_fields(*headers)),
        is_stripped(header_fields(kept)),
{
    let mut kept = clone_headers(headers);
    strip_bucket_headers(&mut kept);
    kept
}

/// Removes the four bucket headers.
pub fn strip_bucket_headers(headers: &mut HeaderMap<HeaderValue>)
    ensures
        header_fields(*final(headers)) == without_bucket_headers(header_fields(*old(headers))),
        is_stripped(header_fields(*final(headers))),
{
    proof {
        lemma_names();
    }
    remove_header(headers, "x-ratelimit-bucket");
    remove_header(headers, "x-ratelimit-remaining");
    remove_header(headers, "x-ratelimit-reset");
    remove_header(headers, "x-ratelimit-reset-after");
}

/// Rewrites the headers of a request for the upstream: the hop-by-hop headers
/// leave, `authorization` becomes the bearer and `host` the upstream. This is
/// done for every request with fewer than `SURE_ROOM - 1` header names. Beyond
/// that the map may be unable to take a new field; then `false` is returned,
/// and the hop-by-hop headers have left all the same.
pub fn rewrite_headers(headers: &mut HeaderMap<HeaderValue>, bearer: HeaderValue) -> (done: bool)
    ensures
        header_fields(*old(headers)).dom().finite(),
        header_fields(*old(headers)).dom().len() < SURE_ROOM - 1 ==> done,
        done ==> header_fields(*final(headers)) == forwarded_fields(
            header_fields(*old(headers)),
            value_bytes(bearer),
        ),
        !done ==> {
            ||| header_fields(*final(headers)) == without_hop_headers(header_fields(*old(headers)))
            ||| header_fields(*final(headers)) == without_hop_headers(
                header_fields(*old(headers)),
            ).insert("authorization"@, seq![value_bytes(bearer)])
        },
{
    proof {
        lemma_names();
    }
    let ghost before = header_fields(*headers);
    remove_header(headers, "connection");
    remove_header(headers, "keep-alive");
    remove_header(headers, "proxy-connection");
    remove_header(headers, "transfer-encoding");
    remove_header(headers, "upgrade");
    proof {
        lemma_without_hop_headers_len(before);
    }
    if !set_header(headers, "authorization", bearer) {
        return false;
    }
    set_header(headers, "host", static_value(UPSTREAM_HOST))
}

/// Without the hop-by-hop headers there are no more names than with them.
proof fn lemma_without_hop_headers_len(fields: Fields)
    requires
        fields.dom().finite(),
    ensures
        without_hop_headers(fields).dom().finite(),
        without_hop_headers(fields).dom().len() <= fields.dom().len(),
{
    let a = fields.remove("connection"@);
    let b = a.remove("keep-alive"@);
    let c = b.remove("proxy-connection"@);
    let d = c.remove("transfer-encoding"@);
    lemma_remove_len(fields, "connection"@);
    lemma_remove_len(a, "keep-alive"@);
    lemma_remove_len(b, "proxy-connection"@);
    lemma_remove_len(c, "transfer-encoding"@);
    lemma_remove_len(d, "upgrade"@);
}

/// Without one name there are no more names than with it.
proof fn lemma_remove_len(fields: Fields, name: Seq<char>)
    requires
        fields.dom().finite(),
    ensures
        fields.remove(name).dom().finite(),
        fields.remove(name).dom().len() <= fields.dom().len(),
{
    if fields.dom().contains(name) {
        fields.lemma_remove_key_len(name);
    } else {
        assert(fields.remove(name) =~= fields);
    }
}

/// The names that this module writes are field names, and the upstream's host is
/// plain text.
proof fn lemma_names()
    ensures
        is_field_name("x-ratelimit-bucket"@),
        is_field_name("x-ratelimit-remaining"@),
        is_field_name("x-ratelimit-reset"@),
        is_field_name("x-ratelimit-reset-after"@),
        is_field_name("connection"@),
        is_field_name("keep-alive"@),
        is_field_name("proxy-connection"@),
        is_field_name("transfer-encoding"@),
        is_field_name("upgrade"@),
        is_field_name("authorization"@),
        is_field_name("host"@),
        is_value_text(UPSTREAM_HOST@),
{
    reveal_strlit("x-ratelimit-bucket");
    reveal_strlit("x-ratelimit-remaining");
    reveal_strlit("x-ratelimit-reset");
    reveal_strlit("x-ratelimit-reset-after");
    reveal_strlit("connection");
    reveal_strlit("keep-alive");
    reveal_strlit("proxy-connection");
    reveal_strlit("transfer-encoding");
    reveal_strlit("upgrade");
    reveal_strlit("authorization");
    reveal_strlit("host");
    reveal_strlit("discord.com");
}

/// Stripping is thorough and touches nothing else: afterwards no bucket header
/// is left, and every other field is as it was.
pub proof fn lemma_stripped(fields: Fields)
    ensures
        is_stripped(without_bucket_headers(fields)),
        forall|name: Seq<char>|
            name != "x-ratelimit-bucket"@ && name != "x-ratelimit-remaining"@ && name
                != "x-ratelimit-reset"@ && name != "x-ratelimit-reset-after"@ ==> (
            without_bucket_headers(fields).contains_key(name) == fields.contains_key(name)
                && without_bucket_headers(fields)[name] == fields[name]),
        is_stripped(fields) ==> without_bucket_headers(fields) == fields,
{
}

} // verus!
