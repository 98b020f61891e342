//! A scaffold auth interceptor: it accepts everything, and rejects only a
//! request whose `authorization` metadata is declared with the explicit
//! value `reject`. Never use it in production — it does the opposite of
//! what real authorization wants; it exists so a stack's interception
//! point can be exercised end to end.

use vstd::prelude::*;
use crate::envelope::{RequestEnvelope, spec_meta_get};
use crate::status::{ErrorCode, RpcStatus};

verus! {

/// The accept-almost-everything interceptor.
#[derive(Clone, Copy, Debug)]
pub struct AuthInterceptor;

impl AuthInterceptor {
    /// Intercepts one request: a request whose `authorization` metadata is
    /// exactly `reject` is refused with PermissionDenied and the message
    /// `requested to reject`; every other request — any other value, or
    /// none — passes through unchanged.
    pub fn call(&mut self, request: RequestEnvelope) -> (r: Result<RequestEnvelope, RpcStatus>)
        ensures
            spec_meta_get(request.metadata@, "authorization"@) == Some("reject"@) ==> (r matches
            Err(st) && st.code == ErrorCode::PermissionDenied && st.message@
                == "requested to reject"@),
            spec_meta_get(request.metadata@, "authorization"@) != Some("reject"@) ==> r == Ok::<
                RequestEnvelope,
                RpcStatus,
            >(request),
    {
        let rejected: bool = match request.metadata.get("authorization") {
            Option::Some(v) => crate::envelope::str_eq(v.as_str(), "reject"),
            Option::None => false,
        };
        if rejected {
            Err(
                RpcStatus::new(
                    ErrorCode::PermissionDenied,
                    String::from_str("requested to reject"),
                ),
            )
        } else {
            Ok(request)
        }
    }
}

} // verus!
