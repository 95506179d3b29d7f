//! The health, startup and readiness flags of a service, and the HTTP answers
//! of its status endpoints.
//!
//! The flags live in one `ServiceStatus` that the service shares; each getter
//! reads one flag and each marker sets one flag, leaving the others as they
//! were.
use vstd::prelude::*;

verus! {

/// The three flags that a service reports.
#[derive(PartialEq, Eq, Structural, Clone, Copy, Debug)]
pub struct ServiceStatus {
    health: bool,
    startup: bool,
    ready: bool,
}

/// The port the status server listens on.
pub const STATUS_PORT: u16 = 3000;

/// The answer to a request that no endpoint serves.
pub const NOT_FOUND: u16 = 404;

/// The answer for a flag that is set.
pub const OK: u16 = 200;

/// The answer for a flag that is not set.
pub const INTERNAL_SERVER_ERROR: u16 = 500;

pub const HEALTH_PATH: &'static str = "/status/health";

pub const STARTUP_PATH: &'static str = "/status/startup";

pub const READINESS_PATH: &'static str = "/status/readiness";

/// The HTTP status code that reports `value`.
pub open spec fn status_code(value: bool) -> u16 {
    if value {
        OK
    } else {
        INTERNAL_SERVER_ERROR
    }
}

impl ServiceStatus {
    /// Whether the service is healthy.
    pub closed spec fn health(self) -> bool {
        self.health
    }

    /// Whether the service has started.
    pub closed spec fn startup(self) -> bool {
        self.startup
    }

    /// Whether the service is ready.
    pub closed spec fn ready(self) -> bool {
        self.ready
    }
}

/// The HTTP status code of the answer to a request: a `GET` of one of the
/// three status paths reports its flag; anything else is not found.
pub open spec fn response_code(is_get: bool, path: Seq<char>, status: ServiceStatus) -> u16 {
    if is_get && path == HEALTH_PATH@ {
        status_code(status.health())
    } else if is_get && path == STARTUP_PATH@ {
        status_code(status.startup())
    } else if is_get && path == READINESS_PATH@ {
        status_code(status.ready())
    } else {
        NOT_FOUND
    }
}

impl ServiceStatus {
    /// The flags of a service that has just begun: healthy, not started,
    /// ready.
    pub fn new() -> (s: Self)
        ensures
            s.health(),
            !s.startup(),
            s.ready(),
    {
        ServiceStatus { health: true, startup: false, ready: true }
    }
}

/// Whether the service is healthy.
pub fn get_health_status(status: &ServiceStatus) -> (r: bool)
    ensures
        r == status.health(),
{
    status.health
}

/// Marks the service as unhealthy.
pub fn mark_as_unhealthy(status: &mut ServiceStatus)
    ensures
        final(status).health() == false,
        final(status).startup() == old(status).startup(),
        final(status).ready() == old(status).ready(),
{
    status.health = false;
}

/// Whether the service has started.
pub fn get_startup_status(status: &ServiceStatus) -> (r: bool)
    ensures
        r == status.startup(),
{
    status.startup
}

/// Marks the service as started.
pub fn mark_as_started(status: &mut ServiceStatus)
    ensures
        final(status).startup() == true,
        final(status).health() == old(status).health(),
        final(status).ready() == old(status).ready(),
{
    status.startup = true;
}

/// Whether the service is ready.
pub fn get_readiness_status(status: &ServiceStatus) -> (r: bool)
    ensures
        r == status.ready(),
{
    status.ready
}

/// Marks the service as ready.
pub fn mark_as_ready(status: &mut ServiceStatus)
    ensures
        final(status).ready() == true,
        final(status).health() == old(status).health(),
        final(status).startup() == old(status).startup(),
{
    status.ready = true;
}

/// Marks the service as not ready.
pub fn mark_as_not_ready(status: &mut ServiceStatus)
    ensures
        final(status).ready() == false,
        final(status).health() == old(status).health(),
        final(status).startup() == old(status).startup(),
{
    status.ready = false;
}

/// The HTTP status code that reports a flag: 200 when it is set, 500 when not.
pub fn send_status(value: bool) -> (code: u16)
    ensures
        code == status_code(value),
{
    if value {
        OK
    } else {
        INTERNAL_SERVER_ERROR
    }
}

/// Answers a request to the status server: `is_get` tells whether its method
/// is `GET`, `path` is its path.
pub fn handle_requests(is_get: bool, path: &str, status: &ServiceStatus) -> (code: u16)
    ensures
        code == response_code(is_get, path@, *status),
{
    let path = path.to_owned();
    if is_get && path == HEALTH_PATH.to_owned() {
        send_status(get_health_status(status))
    } else if is_get && path == STARTUP_PATH.to_owned() {
        send_status(get_startup_status(status))
    } else if is_get && path == READINESS_PATH.to_owned() {
        send_status(get_readiness_status(status))
    } else {
        NOT_FOUND
    }
}

/// What a marker sets, its getter reads back, and the status endpoint
/// reports: a started service answers 200 on the startup endpoint, an
/// unhealthy one 500 and a healthy one 200 on the health endpoint, whether
/// ready or not, a ready or not ready one 200 or
/// 500 on the readiness endpoint; so after `mark_as_started`,
/// `mark_as_unhealthy`, `mark_as_ready` and `mark_as_not_ready` the endpoints
/// answer so.
pub proof fn lemma_markers_reach_endpoints(s: ServiceStatus)
    ensures
        s.startup() ==> response_code(true, STARTUP_PATH@, s) == OK,
        !s.health() ==> response_code(true, HEALTH_PATH@, s) == INTERNAL_SERVER_ERROR,
        s.health() ==> response_code(true, HEALTH_PATH@, s) == OK,
        !s.ready() ==> response_code(true, READINESS_PATH@, s) == INTERNAL_SERVER_ERROR,
        s.ready() ==> response_code(true, READINESS_PATH@, s) == OK,
{
    reveal_strlit("/status/health");
    reveal_strlit("/status/startup");
    reveal_strlit("/status/readiness");
    assert(STARTUP_PATH@.len() != HEALTH_PATH@.len());
    assert(READINESS_PATH@.len() != HEALTH_PATH@.len());
    assert(READINESS_PATH@.len() != STARTUP_PATH@.len());
}

/// Each status endpoint reports its own flag and nothing else: a `GET` of
/// the health path answers 200 exactly when the service is healthy and 500
/// otherwise, whatever the startup and readiness flags; likewise for the
/// startup and readiness paths. Any other request is answered 404.
pub proof fn lemma_endpoints_report_own_flag(s: ServiceStatus, is_get: bool, path: Seq<char>)
    ensures
        response_code(true, HEALTH_PATH@, s) == status_code(s.health()),
        response_code(true, STARTUP_PATH@, s) == status_code(s.startup()),
        response_code(true, READINESS_PATH@, s) == status_code(s.ready()),
        response_code(true, "/status/health"@, s) == (if s.health() { 200u16 } else { 500u16 }),
        response_code(true, "/status/startup"@, s) == (if s.startup() { 200u16 } else { 500u16 }),
        response_code(true, "/status/readiness"@, s) == (if s.ready() { 200u16 } else { 500u16 }),
        !is_get ==> response_code(is_get, path, s) == 404u16,
        path != "/status/health"@ && path != "/status/startup"@ && path != "/status/readiness"@
            ==> response_code(is_get, path, s) == 404u16,
{
    reveal_strlit("/status/health");
    reveal_strlit("/status/startup");
    reveal_strlit("/status/readiness");
    assert("/status/startup"@.len() != "/status/health"@.len());
    assert("/status/readiness"@.len() != "/status/health"@.len());
    assert("/status/readiness"@.len() != "/status/startup"@.len());
}

/// The health endpoint reads the health flag alone: two services that agree
/// on health answer a `GET` of the health path alike, however their startup
/// and readiness flags differ; likewise the startup and readiness endpoints
/// read their own flag alone.
pub proof fn lemma_endpoint_reads_own_flag_alone(s1: ServiceStatus, s2: ServiceStatus)
    ensures
        s1.health() == s2.health() ==> response_code(true, HEALTH_PATH@, s1) == response_code(
            true,
            HEALTH_PATH@,
            s2,
        ),
        s1.startup() == s2.startup() ==> response_code(true, STARTUP_PATH@, s1) == response_code(
            true,
            STARTUP_PATH@,
            s2,
        ),
        s1.ready() == s2.ready() ==> response_code(true, READINESS_PATH@, s1) == response_code(
            true,
            READINESS_PATH@,
            s2,
        ),
{
    lemma_endpoints_report_own_flag(s1, true, HEALTH_PATH@);
    lemma_endpoints_report_own_flag(s2, true, HEALTH_PATH@);
}

} // verus!
