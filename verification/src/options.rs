//! What a caller may ask for through request headers: skipping the cache reads, and
//! the lifetime of the entry that a miss writes back.

use vstd::prelude::*;
use crate::binary32::{INFINITY_MAGNITUDE, greater, is_greater, lemma_greater_than_positive};
use crate::cache::CACHE_TTL_SECONDS;
use crate::digits::{parse_u64, parsed_u64};
use crate::models::{Temperature, TemperatureView, temperature_view};
use crate::text::{lowercased, same_text};

verus! {

/// The header that asks to skip the cache reads.
pub const BYPASS_HEADER: &'static str = "x-bypass-cache";

/// The header that sets the lifetime of the written-back entry, in seconds.
pub const TTL_HEADER: &'static str = "x-cache-ttl";

/// Lifetime in seconds of an entry written for a request with a high temperature.
pub const CREATIVE_TTL_SECONDS: u64 = 3600;

/// The bit pattern of the single-precision number 0.7: temperatures above it count as
/// creative.
pub const CREATIVE_THRESHOLD_BITS: u32 = 0x3f33_3333;

/// The caching options of one request.
#[derive(Debug, Clone, Copy, PartialEq, Eq, Structural)]
pub struct RequestOptions {
    /// Skip both cache tiers for reads; writes still occur.
    pub bypass_cache: bool,
    /// Lifetime in seconds for the exact-tier entry written after a miss.
    pub custom_ttl: Option<u64>,
}

/// The text of an optional header value.
pub open spec fn header_text(value: Option<&str>) -> Option<Seq<char>> {
    match value {
        Some(v) => Some(v@),
        None => None,
    }
}

/// A bypass is asked for when the header is there and reads `true` in any letter case.
pub open spec fn bypass_requested(value: Option<Seq<char>>) -> bool {
    match value {
        Some(v) => lowercased(v) == "true"@,
        None => false,
    }
}

/// The lifetime asked for: the header's value where it is a decimal `u64`.
pub open spec fn requested_ttl(value: Option<Seq<char>>) -> Option<u64> {
    match value {
        Some(v) => parsed_u64(v),
        None => None,
    }
}

/// True when a temperature is there and is above 0.7.
pub open spec fn is_creative(temperature: Option<TemperatureView>) -> bool {
    match temperature {
        Some(t) => greater(t.bits, CREATIVE_THRESHOLD_BITS),
        None => false,
    }
}

/// The lifetime of the exact-tier entry written after a miss: the caller's own where
/// one was asked for; else an hour for a creative request, a day for any other.
pub open spec fn write_back_ttl(custom_ttl: Option<u64>, temperature: Option<TemperatureView>) -> u64 {
    match custom_ttl {
        Some(ttl) => ttl,
        None => if is_creative(temperature) {
            CREATIVE_TTL_SECONDS
        } else {
            CACHE_TTL_SECONDS
        },
    }
}

/// A temperature is creative exactly when its bit pattern lies above that of 0.7 and
/// not above that of positive infinity: negative numbers, zero and NaN are not.
pub proof fn law_creative_is_a_range_of_patterns(t: TemperatureView)
    ensures
        is_creative(Some(t)) <==> CREATIVE_THRESHOLD_BITS < t.bits <= INFINITY_MAGNITUDE,
{
    lemma_greater_than_positive(t.bits, CREATIVE_THRESHOLD_BITS);
}

impl RequestOptions {
    /// No bypass, no lifetime of the caller's own.
    pub fn none() -> (options: Self)
        ensures
            options == (RequestOptions { bypass_cache: false, custom_ttl: None }),
    {
        RequestOptions { bypass_cache: false, custom_ttl: None }
    }

    /// Reads the options from the values of the two headers, each `None` where the
    /// request does not carry the header.
    pub fn from_headers(bypass_cache: Option<&str>, cache_ttl: Option<&str>) -> (options: Self)
        ensures
            options.bypass_cache == bypass_requested(header_text(bypass_cache)),
            options.custom_ttl == requested_ttl(header_text(cache_ttl)),
    {
        let bypass = match bypass_cache {
            Some(v) => {
                let lower = v.to_lowercase();
                same_text(lower.as_str(), "true")
            },
            None => false,
        };
        let ttl = match cache_ttl {
            Some(v) => parse_u64(v),
            None => None,
        };
        RequestOptions { bypass_cache: bypass, custom_ttl: ttl }
    }
}

/// Chooses the lifetime of the exact-tier entry that a miss writes back.
pub fn choose_ttl(custom_ttl: Option<u64>, temperature: &Option<Temperature>) -> (ttl: u64)
    ensures
        ttl == write_back_ttl(custom_ttl, temperature_view(*temperature)),
        custom_ttl is Some ==> ttl == custom_ttl->0,
        custom_ttl is None ==> ttl == if is_creative(temperature_view(*temperature)) {
            3600u64
        } else {
            86400u64
        },
{
    match custom_ttl {
        Some(ttl) => ttl,
        None => {
            let creative = match temperature {
                Some(t) => is_greater(t.bits, CREATIVE_THRESHOLD_BITS),
                None => false,
            };
            if creative {
                CREATIVE_TTL_SECONDS
            } else {
                CACHE_TTL_SECONDS
            }
        },
    }
}

} // verus!
