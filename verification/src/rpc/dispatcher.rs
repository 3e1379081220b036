//! Routing of RPC requests to registered handlers.
//!
//! The dispatcher keeps the table of registered methods and, optionally, the
//! [`PermissionEngine`] that guards them. For each request it decides, before
//! any handler runs, whether the request is answered at once (unknown method,
//! permission denied) or handed to the method's handler; it then turns the
//! handler's outcome into the response. Running the handlers themselves is the
//! host's part.
use std::sync::Arc;

use vstd::prelude::*;

use super::schema::error_codes::{INTERNAL_ERROR, METHOD_NOT_FOUND, PARSE_ERROR, PERMISSION_DENIED};
use super::schema::{RpcErrorPayload, RpcResponse};
use crate::permissions::engine::{
    denied_text, not_granted_view, not_registered_view, PermissionEngine,
};
use crate::table::{
    find_key, lemma_push_fresh, lemma_table_lookup, lemma_table_push, table_map, unique_keys,
};

verus! {

/// What a handler produced for a request.
pub enum HandlerOutcome<R> {
    /// The handler returned a result.
    Returned(R),
    /// The handler returned a structured error.
    Failed(RpcErrorPayload),
    /// The handler panicked or its task was cancelled.
    Panicked,
}

/// The denial that `engine` produces for `method`.
pub open spec fn denial_of(engine: PermissionEngine, method: Seq<char>) -> (
    Seq<char>,
    Seq<char>,
    Seq<char>,
) {
    if engine.requirements().contains_key(method) {
        not_granted_view(method, engine.requirements()[method])
    } else {
        not_registered_view(method)
    }
}
/// The immediate answer to a request for `method`, if it is not to reach a
/// handler. With an engine attached, the engine is consulted first: a method
/// that it does not permit is denied, whether or not a handler is registered.
/// A permitted (or unguarded) method without a handler is not found.
pub open spec fn route_outcome(
    registered: Set<Seq<char>>,
    engine: Option<PermissionEngine>,
    method: Seq<char>,
) -> Option<(i32, Seq<char>)> {
    match engine {
        Some(e) if !e.permits(method) => Some(
            (PERMISSION_DENIED, denied_text(denial_of(e, method))),
        ),
        _ => if !registered.contains(method) {
            Some((METHOD_NOT_FOUND, "Method not found: "@ + method))
        } else {
            None
        },
    }
}

/// Routes incoming requests to registered handlers, checking permissions first
/// when an engine is attached. `H` is the handler type the host runs.
pub struct Dispatcher<H> {
    handlers: Vec<(String, H)>,
    engine: Option<Arc<PermissionEngine>>,
}

impl<H> Dispatcher<H> {
    #[verifier::type_invariant]
    spec fn inv(self) -> bool {
        unique_keys(self.handlers@)
    }

    /// The handler registered for each method name.
    pub closed spec fn handlers(&self) -> Map<Seq<char>, H> {
        table_map(self.handlers@)
    }

    /// The registered method names.
    pub open spec fn registered(&self) -> Set<Seq<char>> {
        self.handlers().dom()
    }

    /// The permission engine guarding the methods, if any.
    pub closed spec fn engine(&self) -> Option<PermissionEngine> {
        match self.engine {
            Some(e) => Some(*e),
            None => None,
        }
    }

    /// An empty dispatcher with no registered handlers and no engine.
    pub fn new() -> (r: Self)
        ensures
            r.handlers() == Map::<Seq<char>, H>::empty(),
            r.engine() is None,
    {
        Dispatcher { handlers: Vec::new(), engine: None }
    }

    /// Attach the permission engine that every call is checked against.
    pub fn with_engine(self, engine: Arc<PermissionEngine>) -> (r: Self)
        ensures
            r.handlers() == self.handlers(),
            r.engine() == Some(*engine),
    {
        proof {
            use_type_invariant(&self);
        }
        Dispatcher { handlers: self.handlers, engine: Some(engine) }
    }

    /// Whether a handler is registered for `method`.
    pub fn is_registered(&self, method: &str) -> (r: bool)
        ensures
            r == self.registered().contains(method@),
    {
        match find_key(&self.handlers, method) {
            Some(i) => {
                proof {
                    use_type_invariant(self);
                    lemma_table_lookup(self.handlers@, i as int);
                }
                true
            },
            None => false,
        }
    }

    /// The handler registered for `method`, if any.
    pub fn handler(&self, method: &str) -> (r: Option<&H>)
        ensures
            r is Some <==> self.registered().contains(method@),
            r matches Some(h) ==> *h == self.handlers()[method@],
    {
        match find_key(&self.handlers, method) {
            Some(i) => {
                proof {
                    use_type_invariant(self);
                    lemma_table_lookup(self.handlers@, i as int);
                }
                Some(&self.handlers[i].1)
            },
            None => None,
        }
    }

    /// Register `handler` for `method`.
    ///
    /// Returns `true` on success, `false` (keeping the existing handler) if
    /// the method is already registered, so that modules cannot silently
    /// overwrite each other's handlers.
    pub fn register(&mut self, method: &str, handler: H) -> (r: bool)
        ensures
            r == !old(self).registered().contains(method@),
            final(self).handlers() == (if r {
                old(self).handlers().insert(method@, handler)
            } else {
                old(self).handlers()
            }),
            final(self).engine() == old(self).engine(),
    {
        proof {
            use_type_invariant(&*self);
        }
        match find_key(&self.handlers, method) {
            Some(i) => {
                proof {
                    lemma_table_lookup(self.handlers@, i as int);
                }
                false
            },
            None => {
                let entry = (String::from_str(method), handler);
                proof {
                    lemma_push_fresh(self.handlers@, entry);
                    lemma_table_push(self.handlers@, entry);
                }
                let mut handlers: Vec<(String, H)> = Vec::new();
                std::mem::swap(&mut handlers, &mut self.handlers);
                handlers.push(entry);
                self.handlers = handlers;
                true
            },
        }
    }

    /// Decide whether a request for `method` reaches its handler.
    ///
    /// `Ok(())`: invoke the handler. `Err(payload)`: answer with that error at
    /// once, without invoking any handler.
    ///
    /// The engine's answer comes first and wins over the handler table: with
    /// an engine attached, a method it does not permit is `PERMISSION_DENIED`,
    /// naming the missing permission, even when no handler is registered for
    /// it (an unknown method has no requirement, so the engine denies it).
    /// `METHOD_NOT_FOUND` is the answer only without an engine, or for a
    /// method the engine permits but no handler serves.
    pub fn route(&self, method: &str) -> (r: Result<(), RpcErrorPayload>)
        ensures
            r is Ok <==> route_outcome(self.registered(), self.engine(), method@) is None,
            r matches Err(p) ==> route_outcome(self.registered(), self.engine(), method@) == Some(
                p@,
            ),
    {
        if let Some(engine) = &self.engine {
            if let Err(denied) = engine.check(method) {
                let message = denied.describe();
                return Err(RpcErrorPayload { code: PERMISSION_DENIED, message });
            }
        }
        if !self.is_registered(method) {
            let mut message = String::from_str("Method not found: ");
            message.append(method);
            return Err(RpcErrorPayload { code: METHOD_NOT_FOUND, message });
        }
        Ok(())
    }
}

/// The response to request `id`, given how its handler ended. A panic is
/// reported as `INTERNAL_ERROR` with the generic message `Internal error`,
/// never the panic's own text.
pub fn finish<R>(id: u64, outcome: HandlerOutcome<R>) -> (r: RpcResponse<R>)
    ensures
        r.spec_id() == id,
        outcome matches HandlerOutcome::Returned(result) ==> r == (RpcResponse::Success {
            id,
            result,
        }),
        outcome matches HandlerOutcome::Failed(error) ==> r == (RpcResponse::<R>::Error {
            id,
            error,
        }),
        outcome is Panicked ==> (r matches RpcResponse::Error { error, .. } && error@ == (
            INTERNAL_ERROR,
            "Internal error"@,
        )),
{
    match outcome {
        HandlerOutcome::Returned(result) => RpcResponse::Success { id, result },
        HandlerOutcome::Failed(error) => RpcResponse::Error { id, error },
        HandlerOutcome::Panicked => RpcResponse::error(id, INTERNAL_ERROR, "Internal error"),
    }
}

/// The response to an error decided before any handler ran.
pub fn reject<R>(id: u64, error: RpcErrorPayload) -> (r: RpcResponse<R>)
    ensures
        r == (RpcResponse::<R>::Error { id, error }),
{
    RpcResponse::Error { id, error }
}

/// The response sent when an incoming message cannot be parsed as a request:
/// its ID is unknown, so `0` stands in for it.
pub fn parse_error_response<R>() -> (r: RpcResponse<R>)
    ensures
        r matches RpcResponse::Error { id, error } && id == 0 && error@ == (
            PARSE_ERROR,
            "Parse error"@,
        ),
{
    RpcResponse::error(0, PARSE_ERROR, "Parse error")
}

/// The text sent when a response cannot be serialized.
pub const SERIALIZATION_FALLBACK: &'static str = "{\"id\":0,\"error\":{\"code\":-32603,\"message\":\"Internal error\"}}";

/// A request that no handler may serve is never routed to one. With an engine
/// attached, a method that the engine does not permit is always answered
/// `PERMISSION_DENIED`, registered or not; a permitted method without a
/// handler is answered `METHOD_NOT_FOUND`; only a registered, permitted
/// method reaches its handler. A method the engine permits is routed exactly
/// as it would be without an engine.
pub proof fn lemma_denied_never_routed(
    registered: Set<Seq<char>>,
    engine: PermissionEngine,
    method: Seq<char>,
)
    ensures
        !engine.permits(method) ==> route_outcome(registered, Some(engine), method) == Some(
            (PERMISSION_DENIED, denied_text(denial_of(engine, method))),
        ),
        engine.permits(method) && !registered.contains(method) ==> (route_outcome(
            registered,
            Some(engine),
            method,
        ) matches Some((code, _)) && code == METHOD_NOT_FOUND),
        route_outcome(registered, Some(engine), method) is None <==> registered.contains(method)
            && engine.permits(method),
        engine.permits(method) ==> route_outcome(registered, Some(engine), method)
            == route_outcome(registered, None, method),
{
}

/// Without an engine, every registered method reaches its handler.
pub proof fn lemma_no_engine_routes_registered(registered: Set<Seq<char>>, method: Seq<char>)
    ensures
        route_outcome(registered, None, method) is None <==> registered.contains(method),
{
}

} // verus!
