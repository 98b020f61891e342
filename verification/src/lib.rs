//! Adapts a streaming RPC service to a function-as-a-service host that imposes
//! a hard wall-clock deadline per invocation and exposes a chunked body
//! transport. The verified core models and proves the three cross-cutting
//! concerns that must compose correctly around arbitrary streaming handlers:
//! deadline-based preemption ([`deadline`]), per-request failure containment
//! ([`containment`]), and body-representation bridging with backpressure
//! ([`bridge`]) — together with the composition that assembles them around a
//! route table ([`composer`]) and the diagnostic and example layers that ride
//! along ([`wire_log`], [`log_layer`], [`meta_echo`], [`auth_interceptor`]).
//!
//! The wire-protocol framing itself, the host's invocation loop, and code
//! generation are external collaborators consumed through narrow interfaces;
//! an unverified shell performs the waiting, the I/O and the conversions and
//! calls into this core for every decision.

pub mod auth_interceptor;
pub mod bridge;
pub mod composer;
pub mod containment;
pub mod deadline;
pub mod envelope;
pub mod log_layer;
pub mod meta_echo;
pub mod status;
pub mod wire_log;

use vstd::prelude::*;
use crate::composer::{LayerSpec, RouteTable};
use crate::deadline::DEFAULT_MARGIN_MS;

verus! {

/// The stack the one-call assembly runs, outermost first: deadline
/// enforcement with the stock margin encloses failure containment, which
/// encloses the protocol framing layer, which stands against the routes.
pub open spec fn spec_default_stack() -> Seq<LayerSpec> {
    seq![
        LayerSpec::Deadline { margin_ms: DEFAULT_MARGIN_MS },
        LayerSpec::CatchPanic,
        LayerSpec::GrpcWeb,
    ]
}

/// The one-call assembly: wraps a route table in the adapter's full default
/// stack, ready to hand to the host runtime.
#[derive(Clone, Copy, Debug, Default)]
pub struct GrpcLambdaLayer;

impl GrpcLambdaLayer {
    /// The assembly; it holds no configuration.
    pub fn new() -> (r: GrpcLambdaLayer) {
        GrpcLambdaLayer
    }

    /// Wraps the routes in the default stack.
    pub fn layer(&self, routes: RouteTable) -> (s: GrpcLambdaService)
        ensures
            s.stack@ == spec_default_stack(),
            s.routes@ == routes@,
    {
        let mut stack: Vec<LayerSpec> = Vec::new();
        stack.push(LayerSpec::Deadline { margin_ms: DEFAULT_MARGIN_MS });
        stack.push(LayerSpec::CatchPanic);
        stack.push(LayerSpec::GrpcWeb);
        proof {
            assert(stack@ =~= spec_default_stack());
        }
        GrpcLambdaService { stack, routes }
    }
}

/// The entry point's configuration: the finalized stack and the routes it
/// guards. The host runtime calls it once per invocation; the unverified
/// shell walks the stack and consults the routes through
/// [`GrpcLambdaService::dispatch_path`].
#[derive(Debug)]
pub struct GrpcLambdaService {
    pub stack: Vec<LayerSpec>,
    pub routes: RouteTable,
}

impl GrpcLambdaService {
    /// Which registered service handles a request with the given URI path:
    /// the slot of the first registration under the path's service name, or
    /// nothing when the path has no service name or no registration
    /// matches.
    pub fn dispatch_path(&self, path: &str) -> (r: Option<usize>)
        ensures
            r matches Some(ix) ==> ix < self.routes@.len() && exists|
                i: int,
                svc: Seq<char>,
                meth: Seq<char>,
            |
                crate::log_layer::spec_split_at(path@, i, svc, meth) && self.routes@[ix as int]
                    == svc,
            !crate::log_layer::spec_has_service_method(path@) ==> r is None,
    {
        match crate::log_layer::grpc_service_method(path) {
            Option::Some(p) => self.routes.lookup(p.0.as_str()),
            Option::None => None,
        }
    }
}

} // verus!
