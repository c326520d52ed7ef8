use vstd::prelude::*;
use crate::attrs::{AttrMap, Attributes};
use crate::name::ActorName;
use crate::policy::PolicyEvaluator;

verus! {

/// Credential material refreshed while the request was authenticated,
/// carried on the actor so the caller can hand it back to the client.
#[derive(Debug)]
pub struct Auth {
    token: String,
}

impl Auth {
    /// The refreshed credential text.
    pub closed spec fn spec_token(&self) -> Seq<char> {
        self.token@
    }

    /// Wraps refreshed credential material.
    pub fn new(token: String) -> (r: Auth)
        ensures
            r.spec_token() == token@,
    {
        Auth { token }
    }

    /// The refreshed credential text.
    pub fn token(&self) -> (r: &str)
        ensures
            r@ == self.spec_token(),
    {
        self.token.as_str()
    }
}

impl Clone for Auth {
    fn clone(&self) -> (r: Self)
        ensures
            r == *self,
    {
        Auth { token: self.token.clone() }
    }
}

/// The caller-visible failure of an authorization check.
#[derive(Debug, PartialEq, Eq)]
pub enum AuthError {
    /// The actor carried a deferred credential error: the request must be
    /// rejected outright, distinct from "policy says no".
    InvalidCredentials(String),
}

/// The startup-time configuration switch of the authorization check: with
/// enforcement disabled, every check is granted without consulting actor or
/// policy state.
#[derive(Clone, Copy, Debug, PartialEq, Eq)]
pub enum Enforcement {
    /// Decisions follow the bound policy snapshot.
    Enabled,
    /// Every check returns an unconditional grant.
    Disabled,
}

/// The construction-time descriptor of one logical identity: mutable until
/// it is bound to a policy snapshot, which finalizes it into an [`Actor`].
#[derive(Debug)]
pub struct ActorDef {
    pub name: ActorName,
    pub is_user: bool,
    pub attributes: Attributes,
    pub new_auth: Option<Auth>,
    pub auth_error: Option<String>,
}

impl ActorDef {
    /// The deferred credential error text, if one was recorded.
    pub open spec fn spec_auth_error(&self) -> Option<Seq<char>> {
        match self.auth_error {
            Some(e) => Some(e@),
            None => None,
        }
    }

    /// Returns this template with the deferred credential error set. The
    /// error is carried forward, not surfaced here: it denies the eventual
    /// authorization check instead of aborting request construction.
    pub fn with_auth_error(self, error_msg: String) -> (r: Self)
        ensures
            r.name == self.name,
            r.is_user == self.is_user,
            r.attributes == self.attributes,
            r.new_auth == self.new_auth,
            r.auth_error == Some(error_msg),
    {
        ActorDef {
            name: self.name,
            is_user: self.is_user,
            attributes: self.attributes,
            new_auth: self.new_auth,
            auth_error: Some(error_msg),
        }
    }
}

/// The finalized, immutable, request-time identity: a template bound to a
/// policy snapshot, consulted once per protected operation.
///
/// Equality compares only the identity fields (name text, user flag,
/// attribute bag). The refreshed credential, the deferred error and the
/// bound policy are transient bookkeeping and are excluded, so identity is
/// stable across credential refresh and across rebinding.
#[derive(Debug)]
pub struct Actor<P> {
    name: ActorName,
    is_user: bool,
    attributes: Attributes,
    new_auth: Option<Auth>,
    policy: Option<P>,
    auth_error: Option<String>,
}

impl<P> Actor<P> {
    /// The identity text.
    pub closed spec fn spec_name(&self) -> Seq<char> {
        self.name.spec_text()
    }

    /// Whether this identity belongs to an authenticated user.
    pub closed spec fn spec_is_user(&self) -> bool {
        self.is_user
    }

    /// The attribute bag.
    pub closed spec fn spec_attributes(&self) -> Attributes {
        self.attributes
    }

    /// The canonical attribute mapping.
    pub open spec fn spec_attr_map(&self) -> Map<Seq<char>, Seq<char>> {
        self.spec_attributes().spec_as_map()
    }

    /// The refreshed credential, if any.
    pub closed spec fn spec_new_auth(&self) -> Option<Auth> {
        self.new_auth
    }

    /// The deferred credential error text, if one was recorded.
    pub closed spec fn spec_auth_error(&self) -> Option<Seq<char>> {
        match self.auth_error {
            Some(e) => Some(e@),
            None => None,
        }
    }

    /// The bound policy snapshot, if any.
    pub closed spec fn spec_policy(&self) -> Option<P> {
        self.policy
    }

    /// Equality of identities: name text, user flag and attribute bag; the
    /// transient fields play no part.
    pub open spec fn same_identity(&self, other: &Actor<P>) -> bool {
        self.spec_name() == other.spec_name() && self.spec_is_user() == other.spec_is_user()
            && self.spec_attributes().spec_eq(&other.spec_attributes())
    }

    /// Template-comparison: the same identity fields as the descriptor.
    pub open spec fn def_eq_spec(&self, def: &ActorDef) -> bool {
        self.spec_name() == def.name.spec_text() && self.spec_is_user() == def.is_user
            && self.spec_attributes().spec_eq(&def.attributes)
    }

    /// Whether this actor is the canonical anonymous identity.
    pub open spec fn spec_is_anonymous(&self) -> bool {
        self.spec_name() == "anonymous"@ && !self.spec_is_user()
            && self.spec_attributes().spec_eq(&Attributes::Empty)
    }

    /// The canonical anonymous identity: no attributes, no credential, no
    /// error. Every call yields an equal template.
    pub fn anonymous() -> (r: ActorDef)
        ensures
            r.name.spec_text() == "anonymous"@,
            !r.is_user,
            r.attributes == Attributes::Empty,
            r.attributes.spec_as_map() == Map::<Seq<char>, Seq<char>>::empty(),
            r.new_auth is None,
            r.auth_error is None,
    {
        ActorDef {
            name: ActorName::Fixed("anonymous".to_owned()),
            is_user: false,
            attributes: Attributes::Empty,
            new_auth: None,
            auth_error: None,
        }
    }

    /// A built-in system identity with a single role-derived attribute.
    pub fn system(name: &'static str, role: &'static str) -> (r: ActorDef)
        ensures
            r.name.spec_text() == name@,
            !r.is_user,
            r.attributes matches Attributes::RoleOnly(ro) && ro@ == role@,
            r.new_auth is None,
            r.auth_error is None,
    {
        ActorDef {
            name: ActorName::Fixed(name.to_owned()),
            attributes: Attributes::RoleOnly(role.to_owned()),
            is_user: false,
            new_auth: None,
            auth_error: None,
        }
    }

    /// An authenticated user identity with caller-supplied attributes and
    /// optional refreshed credential material.
    pub fn user(name: String, attributes: &AttrMap, new_auth: Option<Auth>) -> (r: ActorDef)
        ensures
            r.name.spec_text() == name@,
            r.is_user,
            r.attributes matches Attributes::Explicit(m) && m@ == attributes@,
            r.new_auth == new_auth,
            r.auth_error is None,
    {
        ActorDef {
            name: ActorName::Owned(name),
            is_user: true,
            attributes: Attributes::Explicit(attributes.clone()),
            new_auth,
            auth_error: None,
        }
    }

    /// Only for use in testing: an actor with no bound policy. Such an actor
    /// never reaches a grant; see `is_allowed`.
    pub fn test_from_def(repr: &ActorDef) -> (r: Actor<P>)
        ensures
            r.def_eq_spec(repr),
            r.spec_new_auth() is None,
            r.spec_auth_error() is None,
            r.spec_policy() is None,
    {
        Actor {
            name: repr.name.clone(),
            is_user: repr.is_user,
            attributes: repr.attributes.clone(),
            new_auth: None,
            auth_error: None,
            policy: None,
        }
    }

    /// Only for use in testing: an actor from raw details, with no bound
    /// policy.
    pub fn test_from_details(name: String, attrs: AttrMap) -> (r: Actor<P>)
        ensures
            r.spec_name() == name@,
            !r.spec_is_user(),
            r.spec_attributes() == Attributes::Explicit(attrs),
            r.spec_new_auth() is None,
            r.spec_auth_error() is None,
            r.spec_policy() is None,
    {
        Actor {
            name: ActorName::Owned(name),
            attributes: Attributes::Explicit(attrs),
            is_user: false,
            new_auth: None,
            auth_error: None,
            policy: None,
        }
    }

    /// Binds a template to a policy snapshot, finalizing it into the actor
    /// used for the duration of one authorization decision.
    pub fn new(repr: &ActorDef, policy: P) -> (r: Actor<P>)
        ensures
            r.def_eq_spec(repr),
            r.spec_new_auth() == repr.new_auth,
            r.spec_auth_error() == repr.spec_auth_error(),
            r.spec_policy() == Some(policy),
    {
        Actor {
            name: repr.name.clone(),
            is_user: repr.is_user,
            attributes: repr.attributes.clone(),
            new_auth: match &repr.new_auth {
                Some(a) => Some(a.clone()),
                None => None,
            },
            auth_error: match &repr.auth_error {
                Some(e) => Some(e.clone()),
                None => None,
            },
            policy: Some(policy),
        }
    }

    /// Whether this identity belongs to an authenticated user.
    pub fn is_user(&self) -> (r: bool)
        ensures
            r == self.spec_is_user(),
    {
        self.is_user
    }

    /// Equality against the canonical anonymous template.
    pub fn is_anonymous(&self) -> (r: bool)
        ensures
            r == self.spec_is_anonymous(),
    {
        let anon = Self::anonymous();
        self.def_eq(&anon)
    }

    /// The refreshed credential, if any.
    pub fn new_auth(&self) -> (r: Option<Auth>)
        ensures
            r == self.spec_new_auth(),
    {
        match &self.new_auth {
            Some(a) => Some(a.clone()),
            None => None,
        }
    }

    /// The canonical attribute mapping of this actor.
    pub fn attributes(&self) -> (r: AttrMap)
        ensures
            r@ == self.spec_attr_map(),
    {
        self.attributes.as_map()
    }

    /// The value of one attribute, if present; for a role-derived bag the
    /// single attribute answers to the name "role".
    pub fn attribute(&self, attr_name: String) -> (r: Option<String>)
        ensures
            match r {
                Some(v) => self.spec_attr_map().contains_key(attr_name@) && v@
                    == self.spec_attr_map()[attr_name@],
                None => !self.spec_attr_map().contains_key(attr_name@),
            },
    {
        self.attributes.attribute(&attr_name)
    }

    /// The identity text.
    pub fn name(&self) -> (r: &str)
        ensures
            r@ == self.spec_name(),
    {
        self.name.as_str()
    }

    /// Template-comparison: identity fields against a descriptor; transient
    /// fields and the bound policy play no part.
    pub fn def_eq(&self, def: &ActorDef) -> (r: bool)
        ensures
            r == self.def_eq_spec(def),
    {
        self.name == def.name && self.is_user == def.is_user && self.attributes == def.attributes
    }
}

impl<P: PolicyEvaluator> Actor<P> {
    /// What one authorization check may return, given this actor's state: a
    /// deferred credential error is surfaced as the only error; otherwise
    /// the bound policy decides, with an evaluator failure or a missing
    /// policy absorbed into a denial.
    pub open spec fn decision_ok(
        &self,
        action: Seq<char>,
        resource: Seq<char>,
        r: Result<bool, AuthError>,
    ) -> bool {
        match self.spec_auth_error() {
            Some(m) => r matches Err(AuthError::InvalidCredentials(t)) && t@ == m,
            None => match self.spec_policy() {
                Some(p) => match p.spec_evaluate(
                    self.spec_name(),
                    self.spec_is_user(),
                    self.spec_attr_map(),
                    action,
                    resource,
                ) {
                    Ok(b) => r == Result::<bool, AuthError>::Ok(b),
                    Err(_) => r == Result::<bool, AuthError>::Ok(false),
                },
                None => r == Result::<bool, AuthError>::Ok(false),
            },
        }
    }

    /// The authorization check, a strict decision sequence: surface a
    /// deferred credential error without consulting the policy; else let the
    /// bound policy snapshot decide; absorb an evaluator failure, and the
    /// missing-policy invariant violation of a test-built actor, into a
    /// denial. The only error a caller ever sees is `InvalidCredentials`.
    pub fn is_allowed(&self, action: &str, resource: &str) -> (r: Result<bool, AuthError>)
        ensures
            self.decision_ok(action@, resource@, r),
    {
        if let Some(error_msg) = &self.auth_error {
            return Err(AuthError::InvalidCredentials(error_msg.clone()));
        }
        match &self.policy {
            Some(policy) => match policy.evaluate(self, action, resource) {
                Ok(allowed) => Ok(allowed),
                Err(_) => Ok(false),
            },
            None => Ok(false),
        }
    }

    /// The authorization check behind the startup-time enforcement switch:
    /// with enforcement disabled every request is granted unconditionally,
    /// bypassing actor and policy state; with it enabled the check above
    /// decides.
    pub fn is_allowed_with(&self, mode: &Enforcement, action: &str, resource: &str) -> (r: Result<
        bool,
        AuthError,
    >)
        ensures
            mode is Disabled ==> r == Result::<bool, AuthError>::Ok(true),
            mode is Enabled ==> self.decision_ok(action@, resource@, r),
    {
        match mode {
            Enforcement::Disabled => Ok(true),
            Enforcement::Enabled => self.is_allowed(action, resource),
        }
    }
}

impl<P: Clone> Clone for Actor<P> {
    fn clone(&self) -> (r: Self)
        ensures
            r.same_identity(self),
            r.spec_auth_error() == self.spec_auth_error(),
            r.spec_new_auth() == self.spec_new_auth(),
            r.spec_policy() is Some <==> self.spec_policy() is Some,
    {
        Actor {
            name: self.name.clone(),
            is_user: self.is_user,
            attributes: self.attributes.clone(),
            new_auth: match &self.new_auth {
                Some(a) => Some(a.clone()),
                None => None,
            },
            auth_error: match &self.auth_error {
                Some(e) => Some(e.clone()),
                None => None,
            },
            policy: match &self.policy {
                Some(p) => Some(p.clone()),
                None => None,
            },
        }
    }
}

impl<P> PartialEq<ActorDef> for Actor<P> {
    fn eq(&self, other: &ActorDef) -> (r: bool) {
        self.def_eq(other)
    }
}

impl<P> vstd::std_specs::cmp::PartialEqSpecImpl<ActorDef> for Actor<P> {
    open spec fn obeys_eq_spec() -> bool {
        true
    }

    open spec fn eq_spec(&self, other: &ActorDef) -> bool {
        self.def_eq_spec(other)
    }
}

impl<P> PartialEq for Actor<P> {
    fn eq(&self, other: &Self) -> (r: bool) {
        self.name == other.name && self.is_user == other.is_user && self.attributes
            == other.attributes
    }
}

impl<P> vstd::std_specs::cmp::PartialEqSpecImpl for Actor<P> {
    open spec fn obeys_eq_spec() -> bool {
        true
    }

    open spec fn eq_spec(&self, other: &Self) -> bool {
        self.same_identity(other)
    }
}

/// Law: binding one template to two policy snapshots, whatever they are,
/// yields actors equal to each other and to the template, because equality
/// reads only the identity fields. The policy, the refreshed credential and
/// the deferred error are excluded from identity.
pub proof fn lemma_bind_ignores_policy<P>(t: &ActorDef, a1: &Actor<P>, a2: &Actor<P>)
    requires
        a1.def_eq_spec(t),
        a2.def_eq_spec(t),
    ensures
        a1.same_identity(a2),
        a2.same_identity(a1),
{
    Attributes::lemma_spec_eq_common(
        &a1.spec_attributes(),
        &a2.spec_attributes(),
        &t.attributes,
    );
    Attributes::lemma_spec_eq_common(
        &a2.spec_attributes(),
        &a1.spec_attributes(),
        &t.attributes,
    );
}

} // verus!
