//! A request logger: reads the gRPC service and method names out of a
//! request's URI path and reports them, passing the request through
//! unchanged.
//!
//! A gRPC request path has the shape `/{service}/{method}`: a leading
//! slash, the service name up to the next slash, and everything after that
//! slash as the method.

use vstd::prelude::*;

verus! {

/// That `path` splits as `/{service}/{method}` at the slash standing at
/// `i`: the first slash after the leading one, with `svc` the characters
/// between the two and `meth` everything after.
pub open spec fn spec_split_at(path: Seq<char>, i: int, svc: Seq<char>, meth: Seq<char>) -> bool {
    &&& path.len() >= 2
    &&& path[0] == '/'
    &&& 1 <= i < path.len()
    &&& path[i] == '/'
    &&& (forall|k: int| 1 <= k < i ==> path[k] != '/')
    &&& svc == path.subrange(1, i)
    &&& meth == path.subrange(i + 1, path.len() as int)
}

/// That a path holds a service and a method at all: it starts with a slash
/// and another slash follows.
pub open spec fn spec_has_service_method(path: Seq<char>) -> bool {
    &&& path.len() >= 2
    &&& path[0] == '/'
    &&& exists|i: int| 1 <= i < path.len() && path[i] == '/'
}

/// Splits a request path into its service and method names: the service is
/// what stands between the leading slash and the next one, the method is
/// everything after that slash (further slashes belong to the method).
/// Yields nothing exactly when the path has no leading slash or no second
/// slash.
pub fn grpc_service_method(path: &str) -> (r: Option<(String, String)>)
    ensures
        r is Some ==> exists|i: int| spec_split_at(path@, i, (r->0).0@, (r->0).1@),
        r is Some <==> spec_has_service_method(path@),
{
    let n = path.unicode_len();
    if n == 0 {
        return None;
    }
    if path.get_char(0) != '/' {
        return None;
    }
    let mut i: usize = 1;
    while i < n
        invariant
            1 <= i <= n == path@.len(),
            path@[0] == '/',
            forall|k: int| 1 <= k < i ==> path@[k] != '/',
        decreases n - i,
    {
        if path.get_char(i) == '/' {
            let svc = path.substring_char(1, i).to_owned();
            let meth = path.substring_char(i + 1, n).to_owned();
            let res: Option<(String, String)> = Some((svc, meth));
            proof {
                assert(spec_split_at(path@, i as int, (res->0).0@, (res->0).1@));
                assert(exists|j: int| spec_split_at(path@, j, (res->0).0@, (res->0).1@));
            }
            return res;
        }
        i = i + 1;
    }
    None
}

/// Enabling the request logger; it holds no configuration.
#[derive(Clone, Copy, Debug, Default)]
pub struct LogServiceNameLayer;

impl LogServiceNameLayer {
    /// Wraps an inner service with the request logger.
    pub fn layer(&self) -> (s: LogServiceNameService) {
        LogServiceNameService {  }
    }
}

/// The per-request logger: reports the service and method a request
/// addresses; the request itself flows on unchanged.
#[derive(Clone, Copy, Debug)]
pub struct LogServiceNameService {}

impl LogServiceNameService {
    /// The service and method names to log for a request. A path that does
    /// not hold them is outside this logger's contract: the stack it ships
    /// in only routes such paths, never logs them.
    pub fn call(&self, path: &str) -> (r: (String, String))
        requires
            spec_has_service_method(path@),
        ensures
            exists|i: int| spec_split_at(path@, i, r.0@, r.1@),
    {
        match grpc_service_method(path) {
            Option::Some(p) => p,
            Option::None => {
                proof {
                    assert(false);
                }
                unreached()
            },
        }
    }
}

} // verus!
