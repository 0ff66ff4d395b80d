//! Configuration of the store connection.

use vstd::prelude::*;

use crate::error::{invalid, Error, ErrorV};
use crate::options::{below_floor, check_floor, min_ttl};
use crate::span::Span;
use crate::text::{blank, is_blank};

verus! {

/// Why `redis::Client::open` refuses an endpoint, if it does, in its words.
pub uninterp spec fn url_refusal(url: Seq<char>) -> Option<Seq<char>>;

/// The characters of some words, if there are any.
pub open spec fn words(m: Option<String>) -> Option<Seq<char>> {
    match m {
        Some(t) => Some(t@),
        None => None,
    }
}

/// `refusal` may be what the endpoint `url` meets with. It is settled for
/// endpoints that begin with `redis://` or `valkey://`; whether other schemes
/// are taken rests on the platform and on how the client was built.
pub open spec fn may_meet(url: Seq<char>, refusal: Option<Seq<char>>) -> bool {
    "redis://"@.is_prefix_of(url) || "valkey://"@.is_prefix_of(url) ==> refusal == url_refusal(url)
}

/// `redis::Client::open`, which reads the endpoint and opens no connection: its
/// error in words, if it gives one. Claimed for endpoints that begin with
/// `redis://` or `valkey://`: the same endpoint always gets the same answer.
/// Nothing is claimed for other schemes.
#[verifier::external_body]
pub(crate) fn refused_url(url: &str) -> (r: Option<String>)
    ensures
        "redis://"@.is_prefix_of(url@) || "valkey://"@.is_prefix_of(url@) ==> words(r)
            == url_refusal(url@),
{
    match redis::Client::open(url) {
        Ok(_) => None,
        Err(e) => Some(e.to_string()),
    }
}

/// Connection and default-policy settings of a lock manager.
#[derive(Debug)]
pub struct RedisConfig {
    url: String,
    default_ttl: Span,
    watchdog: bool,
    response_timeout: Span,
}

/// The settings, the endpoint as characters and times in nanoseconds.
pub struct RedisConfigV {
    pub url: Seq<char>,
    pub default_ttl: nat,
    pub watchdog: bool,
    pub response_timeout: nat,
}

impl View for RedisConfig {
    type V = RedisConfigV;

    closed spec fn view(&self) -> RedisConfigV {
        RedisConfigV {
            url: self.url@,
            default_ttl: self.default_ttl@,
            watchdog: self.watchdog,
            response_timeout: self.response_timeout@,
        }
    }
}

/// What is wrong with the settings, if anything: an endpoint without a
/// character that is not white space, then a default lease below the floor.
pub open spec fn config_fault(c: RedisConfigV) -> Option<ErrorV> {
    if blank(c.url) {
        Some(ErrorV::InvalidConfig("redis url is empty"@))
    } else if c.default_ttl < min_ttl() {
        Some(ErrorV::InvalidConfig(below_floor("default ttl "@, c.default_ttl)))
    } else {
        None
    }
}

impl RedisConfig {
    /// Targets `url`, e.g. `redis://127.0.0.1:6379`, with a default lease of
    /// 30 s, no automatic renewal, and a response timeout of 5 s.
    pub fn new(url: &str) -> (r: Self)
        ensures
            r@ == (RedisConfigV {
                url: url@,
                default_ttl: 30_000_000_000,
                watchdog: false,
                response_timeout: 5_000_000_000,
            }),
    {
        RedisConfig {
            url: url.to_owned(),
            default_ttl: Span::from_secs(30),
            watchdog: false,
            response_timeout: Span::from_secs(5),
        }
    }

    /// Overrides the default lease, which applies to acquisitions whose options
    /// give none, such as the default options.
    pub fn with_default_ttl(self, ttl: Span) -> (r: Self)
        ensures
            r@ == (RedisConfigV { default_ttl: ttl@, ..self@ }),
    {
        RedisConfig { default_ttl: ttl, ..self }
    }

    /// Bounds how long one command may hang before the connection recycles.
    pub fn with_response_timeout(self, t: Span) -> (r: Self)
        ensures
            r@ == (RedisConfigV { response_timeout: t@, ..self@ }),
    {
        RedisConfig { response_timeout: t, ..self }
    }

    /// Turns automatic renewal on or off where an acquisition does not say.
    pub fn with_watchdog(self, watchdog: bool) -> (r: Self)
        ensures
            r@ == (RedisConfigV { watchdog, ..self@ }),
    {
        RedisConfig { watchdog, ..self }
    }

    /// The endpoint.
    pub fn url(&self) -> (r: &str)
        ensures
            r@ == self@.url,
    {
        self.url.as_str()
    }

    /// The default lease.
    pub fn default_ttl(&self) -> (r: Span)
        ensures
            r@ == self@.default_ttl,
    {
        self.default_ttl
    }

    /// Whether leases are renewed where an acquisition does not say.
    pub fn watchdog(&self) -> (r: bool)
        ensures
            r == self@.watchdog,
    {
        self.watchdog
    }

    /// How long one command may hang.
    pub fn response_timeout(&self) -> (r: Span)
        ensures
            r@ == self@.response_timeout,
    {
        self.response_timeout
    }

    /// Refuses an empty endpoint and a default lease below the floor.
    pub fn validate(&self) -> (r: Result<(), Error>)
        ensures
            r is Ok <==> config_fault(self@) is None,
            r matches Err(e) ==> config_fault(self@) == Some(e@),
    {
        if is_blank(self.url.as_str()) {
            return Err(invalid("redis url is empty"));
        }
        check_floor("default ttl ", &self.default_ttl)
    }
}

} // verus!
