use vstd::prelude::*;
use crate::actor::Actor;

verus! {

/// The policy evaluator failed internally while rendering a decision. It is
/// never surfaced to the caller of an authorization check: the check absorbs
/// it into a denial.
#[derive(Clone, Copy, Debug, PartialEq, Eq)]
pub struct EvaluatorError;

/// One immutable policy snapshot: the capability through which an actor, an
/// action and a resource are submitted for a yes/no ruling.
///
/// An implementation must be pure with respect to its inputs: for a given
/// snapshot, the same actor identity, action and resource always yield the
/// same decision. `spec_evaluate` is that decision function; it reads only
/// the actor's identity (name, user flag, canonical attributes), never its
/// transient bookkeeping fields.
pub trait PolicyEvaluator: Sized {
    /// The decision this snapshot renders, as a function of the actor's
    /// identity and of the action and resource alone. An implementation
    /// that does not say otherwise is specified as denying everything.
    open spec fn spec_evaluate(
        &self,
        name: Seq<char>,
        is_user: bool,
        attributes: Map<Seq<char>, Seq<char>>,
        action: Seq<char>,
        resource: Seq<char>,
    ) -> Result<bool, EvaluatorError> {
        Ok(false)
    }

    /// Renders the decision for one authorization request.
    fn evaluate(&self, actor: &Actor<Self>, action: &str, resource: &str) -> (r: Result<
        bool,
        EvaluatorError,
    >)
        ensures
            r == self.spec_evaluate(
                actor.spec_name(),
                actor.spec_is_user(),
                actor.spec_attr_map(),
                action@,
                resource@,
            ),
    ;
}

/// The always-allow policy: every request is granted. Binding actors to this
/// snapshot is the policy-backed half of running with enforcement disabled;
/// see `Actor::is_allowed_with` for the switch that bypasses the check
/// entirely.
#[derive(Clone, Copy, Debug)]
pub struct AllowAll;

impl PolicyEvaluator for AllowAll {
    open spec fn spec_evaluate(
        &self,
        name: Seq<char>,
        is_user: bool,
        attributes: Map<Seq<char>, Seq<char>>,
        action: Seq<char>,
        resource: Seq<char>,
    ) -> Result<bool, EvaluatorError> {
        Ok(true)
    }

    fn evaluate(&self, actor: &Actor<Self>, action: &str, resource: &str) -> (r: Result<
        bool,
        EvaluatorError,
    >) {
        Ok(true)
    }
}

} // verus!
