//! Authenticated actors for an access-control layer, and the protocol of a
//! single authorization check.
//!
//! An [`actor::ActorDef`] describes one logical identity (anonymous, a
//! built-in system identity, or an authenticated user together with its
//! attributes). Binding a template to a policy snapshot yields an
//! [`actor::Actor`], the immutable request-time value on which
//! [`actor::Actor::is_allowed`] renders an allow/deny ruling by consulting a
//! [`policy::PolicyEvaluator`].
//!
//! The check fails closed: the only error a caller ever sees is a deferred
//! credential failure; an evaluator failure or a missing policy collapses to
//! a denial, never to a crash.

pub mod actor;
pub mod attrs;
pub mod name;
pub mod policy;
