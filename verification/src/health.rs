//! The health report of the service.

use vstd::prelude::*;
use vstd::string::StringExecFns;
use crate::system::current_time_rfc3339;

verus! {

/// The health of the service and of its parts.
#[derive(Clone, Debug, PartialEq, Eq)]
pub struct HealthResponse {
    pub status: String,
    pub timestamp: String,
    pub version: String,
    pub services: ServiceHealth,
}

/// The health of each part of the service.
#[derive(Clone, Debug, PartialEq, Eq)]
pub struct ServiceHealth {
    pub database: String,
    pub ai_services: String,
    pub storage: String,
}

/// The word for a part that works.
pub open spec fn healthy() -> Seq<char> {
    "healthy"@
}

/// The health of the database, given the error of its check, if it failed.
pub open spec fn database_health(failure: Option<Seq<char>>) -> Seq<char> {
    match failure {
        None => healthy(),
        Some(reason) => "unhealthy: "@ + reason,
    }
}

/// The health of the service as a whole: degraded where the database
/// check failed.
pub open spec fn overall_health(failure: Option<Seq<char>>) -> Seq<char> {
    match failure {
        None => healthy(),
        Some(_) => "degraded"@,
    }
}

/// The health report at the time `timestamp`, given the error of the
/// database check, if it failed. The other parts are not checked and
/// count as healthy.
pub fn health_report(database_failure: Option<&str>, timestamp: String, version: String) -> (r:
    HealthResponse)
    ensures
        r.status@ == overall_health(
            match database_failure {
                Some(reason) => Some(reason@),
                None => None,
            },
        ),
        r.services.database@ == database_health(
            match database_failure {
                Some(reason) => Some(reason@),
                None => None,
            },
        ),
        r.services.ai_services@ == healthy(),
        r.services.storage@ == healthy(),
        r.timestamp == timestamp,
        r.version == version,
{
    let (status, database) = match database_failure {
        None => (String::from_str("healthy"), String::from_str("healthy")),
        Some(reason) => {
            let mut database = String::from_str("unhealthy: ");
            database.append(reason);
            (String::from_str("degraded"), database)
        },
    };
    HealthResponse {
        status,
        timestamp,
        version,
        services: ServiceHealth {
            database,
            ai_services: String::from_str("healthy"),
            storage: String::from_str("healthy"),
        },
    }
}

/// The health report at the time of the call.
pub fn health_check(database_failure: Option<&str>, version: String) -> (r: HealthResponse)
    ensures
        r.status@ == overall_health(
            match database_failure {
                Some(reason) => Some(reason@),
                None => None,
            },
        ),
        r.services.database@ == database_health(
            match database_failure {
                Some(reason) => Some(reason@),
                None => None,
            },
        ),
        r.services.ai_services@ == healthy(),
        r.services.storage@ == healthy(),
        r.version == version,
{
    health_report(database_failure, current_time_rfc3339(), version)
}

} // verus!
