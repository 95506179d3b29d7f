//! The errors of the gRPC clients.
use vstd::prelude::*;

verus! {

/// How long a client waits to connect, in seconds.
pub const CONNECT_TIMEOUT_SECS: u64 = 5;

/// How long a client waits for an answer, in seconds.
pub const REQUEST_TIMEOUT_SECS: u64 = 5;

/// Why a client call failed.
#[derive(Debug)]
pub enum ClientError {
    ConnectionError { source: String },
    TimeoutError { service: String },
    QueryError { source: String },
}

/// What a failed connection attempt reported as its cause.
#[derive(PartialEq, Eq, Structural, Clone, Copy, Debug)]
pub enum ConnectFailureCause {
    /// The connection timeout expired.
    TimeoutExpired,
    /// An I/O error of kind `TimedOut`.
    IoTimedOut,
    /// Anything else.
    Other,
}

/// The error of `open_channel` when connecting to `service` failed: a
/// timeout, however reported, is a timeout of the service; anything else is
/// a connection error with the failure's description.
pub fn connect_error(service: &str, cause: ConnectFailureCause, description: String) -> (e:
    ClientError)
    ensures
        match cause {
            ConnectFailureCause::TimeoutExpired | ConnectFailureCause::IoTimedOut => e matches ClientError::TimeoutError { service: s } && s@ == service@,
            ConnectFailureCause::Other => e matches ClientError::ConnectionError { source } && source == description,
        },
{
    match cause {
        ConnectFailureCause::TimeoutExpired | ConnectFailureCause::IoTimedOut => ClientError::TimeoutError {
            service: service.to_owned(),
        },
        ConnectFailureCause::Other => ClientError::ConnectionError { source: description },
    }
}

} // verus!
