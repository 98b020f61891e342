//! The adapter's error taxonomy, and the bridge from it to the RPC stack's
//! own status type.
//!
//! The verified logic speaks of [`RpcStatus`], a plain record of a canonical
//! code and a human-readable message. Where a real `tonic::Status` value must
//! be produced (the synthesized responses of deadline enforcement and panic
//! containment), trusted wrappers construct one and the contracts relate it,
//! through the uninterpreted observers [`status_code_of`] and
//! [`status_message_of`], to the plain record.

use vstd::prelude::*;

verus! {

/// The subset of canonical RPC codes that the adapter itself produces or
/// inspects. Application-defined errors pass through the stack unchanged and
/// are not enumerated here.
#[derive(Clone, Copy, Debug, PartialEq, Eq, Structural)]
pub enum ErrorCode {
    /// The operation completed successfully.
    Success,
    /// Deadline expired before the operation could complete.
    DeadlineExceeded,
    /// The caller does not have permission to execute the operation.
    PermissionDenied,
    /// The operation was aborted.
    Aborted,
    /// An invariant expected by the underlying system has been broken.
    Internal,
}

/// The canonical wire number of a code, as the gRPC specification assigns
/// them (`grpc-status` trailer values).
pub open spec fn spec_code_number(c: ErrorCode) -> int {
    match c {
        ErrorCode::Success => 0,
        ErrorCode::DeadlineExceeded => 4,
        ErrorCode::PermissionDenied => 7,
        ErrorCode::Aborted => 10,
        ErrorCode::Internal => 13,
    }
}

/// The canonical wire number of a code.
pub fn code_number(c: ErrorCode) -> (n: i32)
    ensures
        n == spec_code_number(c),
{
    match c {
        ErrorCode::Success => 0,
        ErrorCode::DeadlineExceeded => 4,
        ErrorCode::PermissionDenied => 7,
        ErrorCode::Aborted => 10,
        ErrorCode::Internal => 13,
    }
}

/// A final status as the adapter models it: a canonical code together with a
/// human-readable message.
#[derive(Clone, Debug)]
pub struct RpcStatus {
    pub code: ErrorCode,
    pub message: String,
}

impl RpcStatus {
    /// Builds a status from its two components.
    pub fn new(code: ErrorCode, message: String) -> (r: RpcStatus)
        ensures
            r.code == code,
            r.message@ == message@,
    {
        RpcStatus { code, message }
    }

    /// Whether this status reports success.
    pub fn is_ok(&self) -> (r: bool)
        ensures
            r == (self.code == ErrorCode::Success),
    {
        self.code == ErrorCode::Success
    }
}

#[verifier::external_type_specification]
#[verifier::external_body]
pub struct ExStatus(tonic::Status);

/// The canonical wire number that `tonic::Status::code` reports for a status,
/// as `i32::from(tonic::Code)` yields it.
pub uninterp spec fn status_code_of(s: tonic::Status) -> int;

/// The text that `tonic::Status::message` reports for a status.
pub uninterp spec fn status_message_of(s: tonic::Status) -> Seq<char>;

/// Relies on tonic::Status::internal: the status holds code Internal
/// (canonical number 13) and the given message verbatim.
#[verifier::external_body]
fn tonic_internal(message: &str) -> (s: tonic::Status)
    ensures
        status_code_of(s) == 13,
        status_message_of(s) == message@,
{
    tonic::Status::internal(message)
}

/// Relies on tonic::Status::deadline_exceeded: the status holds code
/// DeadlineExceeded (canonical number 4) and the given message verbatim.
#[verifier::external_body]
fn tonic_deadline_exceeded(message: &str) -> (s: tonic::Status)
    ensures
        status_code_of(s) == 4,
        status_message_of(s) == message@,
{
    tonic::Status::deadline_exceeded(message)
}

/// Relies on tonic::Status::permission_denied: the status holds code
/// PermissionDenied (canonical number 7) and the given message verbatim.
#[verifier::external_body]
fn tonic_permission_denied(message: &str) -> (s: tonic::Status)
    ensures
        status_code_of(s) == 7,
        status_message_of(s) == message@,
{
    tonic::Status::permission_denied(message)
}

/// Relies on tonic::Status::aborted: the status holds code Aborted
/// (canonical number 10) and the given message verbatim.
#[verifier::external_body]
fn tonic_aborted(message: &str) -> (s: tonic::Status)
    ensures
        status_code_of(s) == 10,
        status_message_of(s) == message@,
{
    tonic::Status::aborted(message)
}

/// Relies on tonic::Status::ok: the status holds code Ok (canonical number 0)
/// and the given message verbatim.
#[verifier::external_body]
fn tonic_ok(message: &str) -> (s: tonic::Status)
    ensures
        status_code_of(s) == 0,
        status_message_of(s) == message@,
{
    tonic::Status::ok(message)
}

/// Relies on tonic::Status::code (converted to its canonical number through
/// `i32::from`, which maps each code to its wire value).
#[verifier::external_body]
fn tonic_status_code(s: &tonic::Status) -> (n: i32)
    ensures
        n == status_code_of(*s),
{
    i32::from(s.code())
}

/// Relies on tonic::Status::message: hands back the status's message text.
#[verifier::external_body]
fn tonic_status_message(s: &tonic::Status) -> (m: String)
    ensures
        m@ == status_message_of(*s),
{
    s.message().to_string()
}

impl RpcStatus {
    /// Realizes this status as the RPC stack's own status type: the result
    /// carries the same canonical code number and the same message.
    pub fn to_tonic(&self) -> (s: tonic::Status)
        ensures
            status_code_of(s) == spec_code_number(self.code),
            status_message_of(s) == self.message@,
    {
        let m: &str = self.message.as_str();
        match self.code {
            ErrorCode::Success => tonic_ok(m),
            ErrorCode::DeadlineExceeded => tonic_deadline_exceeded(m),
            ErrorCode::PermissionDenied => tonic_permission_denied(m),
            ErrorCode::Aborted => tonic_aborted(m),
            ErrorCode::Internal => tonic_internal(m),
        }
    }

    /// Reads a status of the RPC stack back into the adapter's model, as far
    /// as the adapter's taxonomy reaches: the message is kept verbatim, a
    /// canonical code number outside the taxonomy maps to Internal.
    pub fn from_tonic(s: &tonic::Status) -> (r: RpcStatus)
        ensures
            r.message@ == status_message_of(*s),
            status_code_of(*s) == 0 ==> r.code == ErrorCode::Success,
            status_code_of(*s) == 4 ==> r.code == ErrorCode::DeadlineExceeded,
            status_code_of(*s) == 7 ==> r.code == ErrorCode::PermissionDenied,
            status_code_of(*s) == 10 ==> r.code == ErrorCode::Aborted,
            !(status_code_of(*s) == 0 || status_code_of(*s) == 4
                || status_code_of(*s) == 7 || status_code_of(*s) == 10)
                ==> r.code == ErrorCode::Internal,
    {
        let n: i32 = tonic_status_code(s);
        let message: String = tonic_status_message(s);
        let code: ErrorCode = if n == 0 {
            ErrorCode::Success
        } else if n == 4 {
            ErrorCode::DeadlineExceeded
        } else if n == 7 {
            ErrorCode::PermissionDenied
        } else if n == 10 {
            ErrorCode::Aborted
        } else {
            ErrorCode::Internal
        };
        RpcStatus { code, message }
    }
}

} // verus!
