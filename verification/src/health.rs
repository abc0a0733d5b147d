//! Service health reporting: the verdict computed over the states of the
//! service's dependencies. Probing those dependencies — a database ping, the
//! federation flag, the runtime-client setting — happens at the edge; the
//! verdict over the probe results is computed here.

use vstd::prelude::*;
use vstd::string::StringExecFns;

verus! {

/// A health report over the service and its dependencies.
#[derive(PartialEq, Eq, Debug)]
pub struct HealthResponse {
    /// Overall status of the service: "ok" or "degraded".
    pub status: String,
    /// Database connection status.
    pub database: bool,
    /// Runtime client status, if enabled.
    pub runtime_client: Option<bool>,
    /// Federation service status, if enabled.
    pub federation: Option<bool>,
    /// API version.
    pub version: String,
}

/// The service is degraded when the database is unreachable or an enabled
/// dependency reports itself down.
pub open spec fn spec_degraded(
    database: bool,
    runtime_client: Option<bool>,
    federation: Option<bool>,
) -> bool {
    ||| !database
    ||| runtime_client == Some(false)
    ||| federation == Some(false)
}

/// Builds the health report for the given probe results: the status says
/// "degraded" exactly when [`spec_degraded`] holds, and "ok" otherwise.
pub fn health_summary(
    database: bool,
    runtime_client: Option<bool>,
    federation: Option<bool>,
    version: String,
) -> (r: HealthResponse)
    ensures
        r.database == database,
        r.runtime_client == runtime_client,
        r.federation == federation,
        r.version@ == version@,
        r.status@ == (if spec_degraded(database, runtime_client, federation) {
            "degraded"@
        } else {
            "ok"@
        }),
{
    let degraded = !database || matches!(runtime_client, Some(false)) || matches!(
        federation,
        Some(false),
    );
    let status = if degraded {
        String::from_str("degraded")
    } else {
        String::from_str("ok")
    };
    HealthResponse { status, database, runtime_client, federation, version }
}

impl HealthResponse {
    /// Whether this report calls the service degraded.
    pub open spec fn spec_is_degraded(self) -> bool {
        spec_degraded(self.database, self.runtime_client, self.federation)
    }
}

} // verus!
