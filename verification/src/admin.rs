//! The administrative surface: the health of the three services the proxy leans on,
//! the counters with their hit rate, and the outcome of a flush of the exact tier.

use chrono::Utc;
use vstd::prelude::*;
use vstd::string::StringExecFns;
use crate::metrics::MetricsSnapshot;

verus! {

/// The status of an answer that reports good health.
pub const STATUS_OK: u16 = 200;

/// The status of an answer that reports a service down.
pub const STATUS_UNAVAILABLE: u16 = 503;

/// The status of an answer that reports a failed flush.
pub const STATUS_INTERNAL_ERROR: u16 = 500;

/// Which of the three services answered their probes.
#[derive(Debug, Clone, Copy, PartialEq, Eq, Structural)]
pub struct Services {
    /// The key-value store of the exact tier.
    pub redis: bool,
    /// The vector store of the semantic tier.
    pub qdrant: bool,
    /// The embedding service.
    pub embeddings: bool,
}

impl Services {
    /// The proxy is healthy when all three services are up.
    pub open spec fn all_up(self) -> bool {
        self.redis && self.qdrant && self.embeddings
    }
}

/// How a service is named in a report: `up` or `down`.
pub open spec fn state_name(up: bool) -> Seq<char> {
    if up {
        "up"@
    } else {
        "down"@
    }
}

/// How the proxy as a whole is named in a report: `healthy` or `unhealthy`.
pub open spec fn health_name(healthy: bool) -> Seq<char> {
    if healthy {
        "healthy"@
    } else {
        "unhealthy"@
    }
}

/// The name of a service's state.
pub fn state_text(up: bool) -> (name: &'static str)
    ensures
        name@ == state_name(up),
{
    if up {
        "up"
    } else {
        "down"
    }
}

/// The health of the proxy at one moment.
#[derive(Debug, PartialEq, Eq)]
pub struct HealthReport {
    /// True when every service is up.
    pub healthy: bool,
    pub services: Services,
    /// When the probes were made, as the caller wrote it down.
    pub timestamp: String,
}

/// Puts the outcome of the three probes together.
pub fn health_report(services: Services, timestamp: String) -> (report: HealthReport)
    ensures
        report.healthy == services.all_up(),
        report.services == services,
        report.timestamp@ == timestamp@,
{
    HealthReport {
        healthy: services.redis && services.qdrant && services.embeddings,
        services,
        timestamp,
    }
}

/// `Utc::now` of the crate chrono, written out by `DateTime::to_rfc3339`: the current
/// time in UTC as an RFC 3339 text. Nothing is promised of the text: it depends on the
/// clock.
#[verifier::external_body]
fn current_timestamp() -> (timestamp: String) {
    Utc::now().to_rfc3339()
}

/// Puts the outcome of the three probes together and stamps it with the current time.
pub fn health_check(services: Services) -> (report: HealthReport)
    ensures
        report.healthy == services.all_up(),
        report.services == services,
{
    health_report(services, current_timestamp())
}

impl HealthReport {
    /// The status of the answer: 200 when healthy, 503 otherwise.
    pub fn status(&self) -> (status: u16)
        ensures
            status == if self.healthy {
                STATUS_OK
            } else {
                STATUS_UNAVAILABLE
            },
    {
        if self.healthy {
            STATUS_OK
        } else {
            STATUS_UNAVAILABLE
        }
    }

    /// The word for the health of the whole.
    pub fn status_text(&self) -> (name: &'static str)
        ensures
            name@ == health_name(self.healthy),
    {
        if self.healthy {
            "healthy"
        } else {
            "unhealthy"
        }
    }
}

/// The counters together with the state of the services.
#[derive(Debug, Clone, Copy, PartialEq, Eq, Structural)]
pub struct StatsReport {
    pub counters: MetricsSnapshot,
    /// Hit rate in hundredths of a percent.
    pub hit_rate_basis_points: u128,
    pub services: Services,
}

/// Puts a reading of the counters and the outcome of the probes together.
pub fn stats_report(counters: MetricsSnapshot, services: Services) -> (report: StatsReport)
    ensures
        report.counters == counters,
        report.hit_rate_basis_points == counters.hit_rate(),
        report.services == services,
{
    StatsReport { counters, hit_rate_basis_points: counters.hit_rate_basis_points(), services }
}

/// What the caller is told after a flush of the exact tier was asked for.
#[derive(Debug, PartialEq, Eq)]
pub struct ClearReport {
    pub status: u16,
    /// True when the tier was flushed.
    pub cleared: bool,
    pub message: String,
}

/// The message of a flush, by its outcome.
pub open spec fn clear_message(flushed: Result<(), Seq<char>>) -> Seq<char> {
    match flushed {
        Ok(_) => "Redis cache cleared"@,
        Err(cause) => "Failed to flush Redis: "@ + cause,
    }
}

/// Reports a flush of the exact tier: 200 when it was done, 500 with the cause when
/// it failed. The semantic tier is never flushed.
pub fn clear_report(flushed: Result<(), String>) -> (report: ClearReport)
    ensures
        report.cleared == flushed is Ok,
        report.status == if flushed is Ok {
            STATUS_OK
        } else {
            STATUS_INTERNAL_ERROR
        },
        report.message@ == clear_message(
            match flushed {
                Ok(_) => Ok(()),
                Err(cause) => Err(cause@),
            },
        ),
{
    match flushed {
        Ok(_) => ClearReport {
            status: STATUS_OK,
            cleared: true,
            message: String::from_str("Redis cache cleared"),
        },
        Err(cause) => {
            let mut message = String::from_str("Failed to flush Redis: ");
            message.append(cause.as_str());
            ClearReport { status: STATUS_INTERNAL_ERROR, cleared: false, message }
        },
    }
}

} // verus!
