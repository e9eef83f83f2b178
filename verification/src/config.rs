//! Settings of the proxy. Each comes as the text of an environment variable, or
//! not at all; this module says what a text means and what holds without one.

use crate::cache::DEFAULT_CACHE_DURATION;
use crate::text::{parse_bool, parse_u64, spelled_bool, unsigned_decimal_up_to, view_of};
use vstd::prelude::*;
use vstd::string::StringExecFns;

verus! {

/// The address that the proxy listens on where none is set.
pub const DEFAULT_HOST: &'static str = "0.0.0.0";

/// The port that the proxy listens on where none is set.
pub const DEFAULT_PORT: u16 = 80;

/// The prefix of metric names where none is set.
pub const DEFAULT_METRIC_KEY: &'static str = "twilight_http_proxy";

/// The seconds after which an idle counter or histogram is dropped, where
/// nothing else is set.
pub const DEFAULT_METRIC_TIMEOUT: u64 = 300;

/// The number of seconds that a setting stands for: the number that its text
/// spells, the default where there is no text or the text spells none.
pub open spec fn seconds_of(value: Option<Seq<char>>, default: u64) -> u64 {
    match value {
        Some(text) => match unsigned_decimal_up_to(text, u64::MAX as nat) {
            Some(seconds) => seconds as u64,
            None => default,
        },
        None => default,
    }
}

/// The truth value that a setting stands for: what its text spells, the default
/// where there is no text or the text spells none.
pub open spec fn flag_of(value: Option<Seq<char>>, default: bool) -> bool {
    match value {
        Some(text) => match spelled_bool(text) {
            Some(flag) => flag,
            None => default,
        },
        None => default,
    }
}

/// The port that a setting stands for: the default where there is no text, and
/// no port at all where the text spells no number of 16 bits.
pub open spec fn port_of(value: Option<Seq<char>>) -> Option<u16> {
    match value {
        Some(text) => match unsigned_decimal_up_to(text, u16::MAX as nat) {
            Some(port) => Some(port as u16),
            None => None,
        },
        None => Some(DEFAULT_PORT),
    }
}

/// The name of a metric: the prefix, an underscore and what the metric counts.
pub open spec fn metric_name_of(key: Seq<char>, subject: Seq<char>) -> Seq<char> {
    key + "_"@ + subject
}

/// Reads a number of seconds from the text of a setting.
pub fn seconds_setting(value: Option<&str>, default: u64) -> (seconds: u64)
    ensures
        seconds == seconds_of(view_of(value), default),
{
    match value {
        Some(text) => match parse_u64(text) {
            Some(seconds) => seconds,
            None => default,
        },
        None => default,
    }
}

/// The number of seconds that a response stays valid in the cache.
pub fn cache_duration_setting(value: Option<&str>) -> (seconds: u64)
    ensures
        seconds == seconds_of(view_of(value), DEFAULT_CACHE_DURATION),
{
    seconds_setting(value, DEFAULT_CACHE_DURATION)
}

/// Reads a truth value from the text of a setting.
pub fn flag_setting(value: Option<&str>, default: bool) -> (flag: bool)
    ensures
        flag == flag_of(view_of(value), default),
{
    match value {
        Some(text) => match parse_bool(text) {
            Some(flag) => flag,
            None => default,
        },
        None => default,
    }
}

/// Reads the port to listen on from the text of a setting.
pub fn port_setting(value: Option<&str>) -> (port: Option<u16>)
    ensures
        port == port_of(view_of(value)),
{
    match value {
        Some(text) => match parse_u64(text) {
            Some(port) => if port <= 65535 {
                Some(port as u16)
            } else {
                None
            },
            None => None,
        },
        None => Some(DEFAULT_PORT),
    }
}

/// The name of a metric under the prefix `key`.
pub fn metric_name(key: &str, subject: &str) -> (name: String)
    ensures
        name@ == metric_name_of(key@, subject@),
{
    let mut name = String::from_str(key);
    name.append("_");
    name.append(subject);
    name
}

} // verus!
