//! Service composition: the builder that assembles a route table and an
//! ordered stack of middleware into the one callable entry point handed to
//! the FaaS runtime.
//!
//! Ordering contract: the sequence of [`LambdaServer::layer`] calls defines
//! a deterministic wrap order — whichever layer is registered last is the
//! one an incoming request reaches first and a response leaves last
//! (innermost-to-outermost nesting, symmetric enter and exit, like nested
//! function calls). The stack a finalized composition hands the runtime is
//! therefore the built-in layers followed by the caller's layers in reverse
//! registration order; [`spec_serve_stack`] fixes this order and
//! [`LambdaRouter::serve_stack`] realizes it. The order is load-bearing:
//! deadline enforcement's race window and failure containment's catch
//! boundary depend on which layers run inside them. Once finalized the
//! stack never mutates; each layer holds only immutable configuration
//! captured at construction, so concurrent invocations share it read-only.

use vstd::prelude::*;
use crate::deadline::DEFAULT_MARGIN_MS;
use crate::envelope::str_eq;

verus! {

/// One middleware transform in a stack, named by its configuration.
#[derive(Clone, Copy, Debug, PartialEq, Eq, Structural)]
pub enum LayerSpec {
    /// The external RPC/web-compatibility layer: protocol framing between
    /// the transport's raw bytes and RPC messages.
    GrpcWeb,
    /// Failure containment at the request boundary.
    CatchPanic,
    /// Deadline enforcement with the given margin.
    Deadline { margin_ms: u64 },
    /// The diagnostic frame logger.
    WireLog,
    /// The service/method request logger.
    LogServiceName,
    /// The header-echo transform.
    MetaEcho,
}

/// The route table: maps a service name to its registered handler's slot.
/// The handlers themselves live with the external RPC stack; the adapter
/// tracks registration order and name lookup.
#[derive(Debug)]
pub struct RouteTable {
    names: Vec<String>,
}

impl View for RouteTable {
    type V = Seq<Seq<char>>;

    closed spec fn view(&self) -> Seq<Seq<char>> {
        Seq::new(self.names@.len(), |i: int| self.names@[i]@)
    }
}

impl RouteTable {
    /// An empty route table.
    pub fn new() -> (r: RouteTable)
        ensures
            r@ == Seq::<Seq<char>>::empty(),
    {
        let r = RouteTable { names: Vec::new() };
        proof {
            assert(r@ =~= Seq::<Seq<char>>::empty());
        }
        r
    }

    /// How many services are registered.
    pub fn len(&self) -> (n: usize)
        ensures
            n == self@.len(),
    {
        self.names.len()
    }

    /// Registers a named service, after all earlier registrations.
    pub fn add(&mut self, name: String)
        ensures
            final(self)@ == old(self)@.push(name@),
    {
        let ghost before = self@;
        self.names.push(name);
        proof {
            assert(final(self)@ =~= before.push(name@));
        }
    }

    /// Finds the slot of the first registration under `service`.
    pub fn lookup(&self, service: &str) -> (r: Option<usize>)
        ensures
            r matches Some(ix) ==> ix < self@.len() && self@[ix as int] == service@ && (forall|
                k: int,
            |
                0 <= k < ix ==> self@[k] != service@),
            r is None ==> forall|k: int| 0 <= k < self@.len() ==> self@[k] != service@,
    {
        let mut i: usize = 0;
        while i < self.names.len()
            invariant
                i <= self@.len(),
                forall|k: int| 0 <= k < i ==> self@[k] != service@,
            decreases self@.len() - i,
        {
            if str_eq(self.names[i].as_str(), service) {
                return Some(i);
            }
            i = i + 1;
        }
        None
    }
}

/// The builder: collects the caller's middleware registrations.
#[derive(Debug)]
pub struct LambdaServer {
    pub layers: Vec<LayerSpec>,
}

/// A builder that has routes: collects further services, then finalizes.
#[derive(Debug)]
pub struct LambdaRouter {
    pub routes: RouteTable,
    pub layers: Vec<LayerSpec>,
}

/// The order in which a request traverses the caller's layers: reverse
/// registration order, the last registered first.
pub open spec fn spec_request_order(user: Seq<LayerSpec>) -> Seq<LayerSpec> {
    Seq::new(user.len(), |k: int| user[user.len() - 1 - k])
}

/// The built-in layers that stand outermost in every finalized stack: the
/// protocol framing layer, then failure containment and deadline
/// enforcement where enabled (with the stock margin).
pub open spec fn spec_builtins(catch_panic: bool, deadline: bool) -> Seq<LayerSpec> {
    seq![LayerSpec::GrpcWeb] + (if catch_panic {
        seq![LayerSpec::CatchPanic]
    } else {
        Seq::<LayerSpec>::empty()
    }) + (if deadline {
        seq![LayerSpec::Deadline { margin_ms: DEFAULT_MARGIN_MS }]
    } else {
        Seq::<LayerSpec>::empty()
    })
}

/// The full stack a finalized composition runs, outermost first: the
/// built-in layers, then the caller's layers in reverse registration
/// order, innermost against the routes.
pub open spec fn spec_serve_stack(
    user: Seq<LayerSpec>,
    catch_panic: bool,
    deadline: bool,
) -> Seq<LayerSpec> {
    spec_builtins(catch_panic, deadline) + spec_request_order(user)
}

/// How many built-in layers stand before the caller's in the finalized
/// stack.
pub open spec fn spec_builtin_len(catch_panic: bool, deadline: bool) -> int {
    spec_builtins(catch_panic, deadline).len() as int
}

impl LambdaServer {
    /// Starts a composition with no layers and no routes.
    pub fn builder() -> (s: LambdaServer)
        ensures
            s.layers@ == Seq::<LayerSpec>::empty(),
    {
        let s = LambdaServer { layers: Vec::new() };
        proof {
            assert(s.layers@ =~= Seq::<LayerSpec>::empty());
        }
        s
    }

    /// Appends a middleware transform to the pending stack. A request will
    /// reach it before every layer registered earlier.
    pub fn layer(self, new_layer: LayerSpec) -> (s: LambdaServer)
        ensures
            s.layers@ == self.layers@.push(new_layer),
    {
        let mut layers = self.layers;
        layers.push(new_layer);
        LambdaServer { layers }
    }

    /// Registers the first named service; further registration goes through
    /// the returned router.
    pub fn add_service(self, name: String) -> (r: LambdaRouter)
        ensures
            r.layers@ == self.layers@,
            r.routes@ == seq![name@],
    {
        let mut routes = RouteTable::new();
        routes.add(name);
        proof {
            assert(routes@ =~= seq![name@]);
        }
        LambdaRouter { routes, layers: self.layers }
    }
}

impl LambdaRouter {
    /// Registers one more named service, after all earlier registrations.
    pub fn add_service(self, name: String) -> (r: LambdaRouter)
        ensures
            r.layers@ == self.layers@,
            r.routes@ == self.routes@.push(name@),
    {
        let mut routes = self.routes;
        routes.add(name);
        LambdaRouter { routes, layers: self.layers }
    }

    /// Finalizes the composition: the stack the entry point will run for
    /// every invocation, outermost first. After this the builder is
    /// consumed; no further registration can reach the running stack.
    pub fn serve_stack(&self, catch_panic: bool, deadline: bool) -> (stack: Vec<LayerSpec>)
        ensures
            stack@ == spec_serve_stack(self.layers@, catch_panic, deadline),
    {
        let mut stack: Vec<LayerSpec> = Vec::new();
        stack.push(LayerSpec::GrpcWeb);
        if catch_panic {
            stack.push(LayerSpec::CatchPanic);
        }
        if deadline {
            stack.push(LayerSpec::Deadline { margin_ms: DEFAULT_MARGIN_MS });
        }
        let ghost builtins = stack@;
        proof {
            assert(builtins =~= spec_builtins(catch_panic, deadline));
        }
        let n = self.layers.len();
        let mut j: usize = 0;
        while j < n
            invariant
                j <= n == self.layers@.len(),
                stack@.len() == builtins.len() + j,
                stack@.take(builtins.len() as int) == builtins,
                forall|k: int|
                    0 <= k < j ==> #[trigger] stack@[builtins.len() + k] == self.layers@[n - 1
                        - k],
            decreases n - j,
        {
            proof {
                assert(stack@.push(self.layers@[n - 1 - j]).take(builtins.len() as int)
                    =~= stack@.take(builtins.len() as int));
            }
            stack.push(self.layers[n - 1 - j]);
            j = j + 1;
        }
        proof {
            let full = spec_serve_stack(self.layers@, catch_panic, deadline);
            assert(stack@.len() == full.len());
            assert forall|k: int| 0 <= k < stack@.len() implies stack@[k] == full[k] by {
                if k < builtins.len() {
                    assert(stack@[k] == stack@.take(builtins.len() as int)[k]);
                } else {
                    assert(stack@[builtins.len() + (k - builtins.len())] == self.layers@[n - 1 - (
                    k - builtins.len())]);
                }
            };
            assert(stack@ =~= full);
        }
        stack
    }
}

/// The ordering contract made pointed: in the finalized stack the caller's
/// last-registered layer is the first of the caller's layers an incoming
/// request reaches (and so the last a response leaves), standing right
/// after the built-in layers.
pub proof fn lemma_last_registered_enters_first(
    user: Seq<LayerSpec>,
    catch_panic: bool,
    deadline: bool,
)
    requires
        user.len() > 0,
    ensures
        spec_serve_stack(user, catch_panic, deadline)[spec_builtin_len(catch_panic, deadline)]
            == user.last(),
        spec_serve_stack(user, catch_panic, deadline).last() == user.first(),
{
    let stack = spec_serve_stack(user, catch_panic, deadline);
    let b = spec_builtin_len(catch_panic, deadline);
    assert(stack.len() == b + user.len());
    assert(stack[b] == spec_request_order(user)[0]);
    assert(stack.last() == spec_request_order(user).last());
}

} // verus!
