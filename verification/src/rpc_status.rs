//! gRPC statuses that the services answer with.
use vstd::prelude::*;

verus! {

/// The gRPC status codes that the services use.
#[derive(PartialEq, Eq, Structural, Clone, Copy, Debug)]
pub enum StatusCode {
    InvalidArgument,
    NotFound,
    Internal,
}

/// A gRPC status: its code and its message.
#[derive(Debug)]
pub struct RpcStatus {
    pub code: StatusCode,
    pub message: String,
}

/// A failed exchange with the database, with what the driver reported.
#[derive(Debug)]
pub struct DbFailure {
    pub message: String,
}

/// The message of every status that a database failure turns into.
pub open spec fn db_failure_message() -> Seq<char> {
    "Query failed on communication with database"@
}

/// Whether `s` is the status that answers a database failure.
pub open spec fn is_db_failure_status(s: RpcStatus) -> bool {
    s.code == StatusCode::Internal && s.message@ == db_failure_message()
}

/// Whether `s` reports an invalid argument with the message `m`.
pub open spec fn is_invalid_argument(s: RpcStatus, m: Seq<char>) -> bool {
    s.code == StatusCode::InvalidArgument && s.message@ == m
}

/// A status with the code `InvalidArgument`.
pub fn invalid_argument(message: &str) -> (s: RpcStatus)
    ensures
        is_invalid_argument(s, message@),
{
    RpcStatus { code: StatusCode::InvalidArgument, message: message.to_owned() }
}

/// A status with the code `NotFound`.
pub fn not_found(message: &str) -> (s: RpcStatus)
    ensures
        s.code == StatusCode::NotFound,
        s.message@ == message@,
{
    RpcStatus { code: StatusCode::NotFound, message: message.to_owned() }
}

/// The status that a failed database exchange is answered with; the details
/// stay in the log.
pub fn db_communication_error() -> (s: RpcStatus)
    ensures
        is_db_failure_status(s),
{
    RpcStatus {
        code: StatusCode::Internal,
        message: "Query failed on communication with database".to_owned(),
    }
}

} // verus!
