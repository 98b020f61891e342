//! A header-echo transform: copies the request's `echo-meta` metadata value
//! into the response as `meta-value` when present, and changes nothing
//! else. A stock middleware shape: observe the request, transform the
//! response.

use vstd::prelude::*;
use crate::envelope::{MetadataMap, ResponseEnvelope, spec_meta_get};

verus! {

/// Enabling the header echo; it holds no configuration.
#[derive(Clone, Copy, Debug, Default)]
pub struct MetaEchoLayer;

impl MetaEchoLayer {
    /// Wraps an inner service with the header echo.
    pub fn layer(&self) -> (s: MetaEchoService) {
        MetaEchoService {  }
    }
}

/// The per-request transform.
#[derive(Clone, Copy, Debug)]
pub struct MetaEchoService {}

impl MetaEchoService {
    /// Transforms a response: when the request carries `echo-meta`, its
    /// value is appended to the response metadata under `meta-value`;
    /// otherwise the response passes through untouched. The body is never
    /// altered either way.
    pub fn call(&self, request_metadata: &MetadataMap, response: ResponseEnvelope) -> (r:
        ResponseEnvelope)
        ensures
            r.frames == response.frames,
            spec_meta_get(request_metadata@, "echo-meta"@) is None ==> r.metadata@
                == response.metadata@,
            spec_meta_get(request_metadata@, "echo-meta"@) matches Some(v) ==> r.metadata@
                == response.metadata@.push(("meta-value"@, v)),
    {
        let mut response = response;
        match request_metadata.get("echo-meta") {
            Option::Some(v) => {
                let value = v.clone();
                response.metadata.insert(String::from_str("meta-value"), value);
            },
            Option::None => {},
        }
        response
    }
}

} // verus!
