use actor_authz::actor::{Actor, ActorDef, Auth, AuthError, Enforcement};
use actor_authz::attrs::AttrMap;
use actor_authz::policy::{AllowAll, EvaluatorError, PolicyEvaluator};

/// Denies every request.
struct DenyAll;

impl PolicyEvaluator for DenyAll {
    fn evaluate(
        &self,
        _actor: &Actor<Self>,
        _action: &str,
        _resource: &str,
    ) -> Result<bool, EvaluatorError> {
        Ok(false)
    }
}

/// Allows or denies everything, according to one stored flag.
#[derive(Debug)]
struct Toggle {
    allow: bool,
}

impl PolicyEvaluator for Toggle {
    fn evaluate(
        &self,
        _actor: &Actor<Self>,
        _action: &str,
        _resource: &str,
    ) -> Result<bool, EvaluatorError> {
        Ok(self.allow)
    }
}

/// Fails the test if the check ever consults it.
#[derive(Debug)]
struct MustNotBeCalled;

impl PolicyEvaluator for MustNotBeCalled {
    fn evaluate(
        &self,
        _actor: &Actor<Self>,
        _action: &str,
        _resource: &str,
    ) -> Result<bool, EvaluatorError> {
        panic!("the policy evaluator must not be consulted");
    }
}

/// Fails internally on every request.
struct FailingEvaluator;

impl PolicyEvaluator for FailingEvaluator {
    fn evaluate(
        &self,
        _actor: &Actor<Self>,
        _action: &str,
        _resource: &str,
    ) -> Result<bool, EvaluatorError> {
        Err(EvaluatorError)
    }
}

/// Grants exactly the pair ("read", "resource-1").
struct ReadResourceOne;

impl PolicyEvaluator for ReadResourceOne {
    fn evaluate(
        &self,
        _actor: &Actor<Self>,
        action: &str,
        resource: &str,
    ) -> Result<bool, EvaluatorError> {
        Ok(action == "read" && resource == "resource-1")
    }
}

/// Denies everything except actors whose role attribute is "admin".
struct AdminRoleOnly;

impl PolicyEvaluator for AdminRoleOnly {
    fn evaluate(
        &self,
        actor: &Actor<Self>,
        _action: &str,
        _resource: &str,
    ) -> Result<bool, EvaluatorError> {
        Ok(actor.attribute("role".to_string()) == Some("admin".to_string()))
    }
}

#[test]
fn anonymous_template_has_no_attributes() {
    let def = Actor::<AllowAll>::anonymous();
    let actor = Actor::<AllowAll>::test_from_def(&def);
    assert!(actor.attributes().is_empty());
    assert_eq!(actor.attribute("role".to_string()), None);
    assert_eq!(actor.name(), "anonymous");
    assert!(!actor.is_user());
    assert!(actor.is_anonymous());
}

#[test]
fn system_template_exposes_its_role() {
    let def = Actor::<AllowAll>::system("scheduler", "admin");
    let actor = Actor::<AllowAll>::test_from_def(&def);
    assert_eq!(actor.attribute("role".to_string()), Some("admin".to_string()));
    assert_eq!(actor.attribute("anything-else".to_string()), None);
    assert_eq!(actor.name(), "scheduler");
    assert!(!actor.is_user());
    assert!(!actor.is_anonymous());
}

#[test]
fn user_attributes_round_trip() {
    let mut attrs = AttrMap::new();
    attrs.insert("role".to_string(), "readwrite".to_string());
    attrs.insert("team".to_string(), "routing".to_string());
    let def = Actor::<AllowAll>::user("alice".to_string(), &attrs, None);
    let actor = Actor::new(&def, AllowAll);
    assert_eq!(actor.attributes(), attrs);
    assert_eq!(actor.attribute("team".to_string()), Some("routing".to_string()));
    assert_eq!(actor.name(), "alice");
    assert!(actor.is_user());
}

#[test]
fn equality_excludes_policy_and_transient_fields() {
    let mut attrs = AttrMap::new();
    attrs.insert("role".to_string(), "admin".to_string());
    let def = Actor::<Toggle>::user(
        "bob".to_string(),
        &attrs,
        Some(Auth::new("fresh-token".to_string())),
    );
    let def_with_error = Actor::<Toggle>::user("bob".to_string(), &attrs, None)
        .with_auth_error("expired".to_string());
    let a1 = Actor::new(&def, Toggle { allow: true });
    let a2 = Actor::new(&def, Toggle { allow: false });
    let a3 = Actor::new(&def_with_error, Toggle { allow: true });
    // The two snapshots really differ ...
    assert_eq!(a1.is_allowed("read", "x"), Ok(true));
    assert_eq!(a2.is_allowed("read", "x"), Ok(false));
    // ... yet the bound actors are equal, and both equal the template.
    assert_eq!(a1, a2);
    assert!(a1.def_eq(&def));
    assert!(a2.def_eq(&def));
    assert!(a1 == def);
    assert!(a2 == def);
    // Refreshed credential and deferred error are excluded as well.
    assert_eq!(a1, a3);
}

#[test]
fn deferred_error_short_circuits_the_evaluator() {
    let def = Actor::<MustNotBeCalled>::anonymous().with_auth_error("bad token".to_string());
    let actor = Actor::new(&def, MustNotBeCalled);
    for (action, resource) in [("read", "resource-1"), ("delete", "x"), ("", "")] {
        assert_eq!(
            actor.is_allowed(action, resource),
            Err(AuthError::InvalidCredentials("bad token".to_string()))
        );
    }
}

#[test]
fn with_auth_error_keeps_the_identity_fields() {
    let def = Actor::<AllowAll>::system("scheduler", "admin");
    let def = def.with_auth_error("token expired".to_string());
    assert_eq!(def.auth_error, Some("token expired".to_string()));
    let actor = Actor::<AllowAll>::test_from_def(&def);
    assert_eq!(actor.name(), "scheduler");
    assert_eq!(actor.attribute("role".to_string()), Some("admin".to_string()));
}

#[test]
fn missing_policy_fails_closed() {
    let def = Actor::<AllowAll>::anonymous();
    let actor = Actor::<AllowAll>::test_from_def(&def);
    assert_eq!(actor.is_allowed("read", "resource-1"), Ok(false));
    assert_eq!(actor.is_allowed("delete", "x"), Ok(false));
    let mut attrs = AttrMap::new();
    attrs.insert("role".to_string(), "admin".to_string());
    let direct = Actor::<AllowAll>::test_from_details("carol".to_string(), attrs);
    assert_eq!(direct.is_allowed("read", "resource-1"), Ok(false));
    assert!(!direct.is_user());
}

#[test]
fn policy_decision_is_returned() {
    let def = Actor::<ReadResourceOne>::anonymous();
    let actor = Actor::new(&def, ReadResourceOne);
    assert_eq!(actor.is_allowed("read", "resource-1"), Ok(true));
    assert_eq!(actor.is_allowed("write", "resource-1"), Ok(false));
    assert_eq!(actor.is_allowed("read", "resource-2"), Ok(false));
}

#[test]
fn evaluator_failure_is_absorbed_into_denial() {
    let def = Actor::<FailingEvaluator>::anonymous();
    let actor = Actor::new(&def, FailingEvaluator);
    assert_eq!(actor.is_allowed("read", "resource-1"), Ok(false));
}

#[test]
fn anonymous_actor_is_denied_by_role_gate() {
    let def = Actor::<AdminRoleOnly>::anonymous();
    let actor = Actor::new(&def, AdminRoleOnly);
    assert_eq!(actor.is_allowed("delete", "x"), Ok(false));
    // A user that does carry the admin role is granted.
    let mut attrs = AttrMap::new();
    attrs.insert("role".to_string(), "admin".to_string());
    let admin_def = Actor::<AdminRoleOnly>::user("dave".to_string(), &attrs, None);
    let admin = Actor::new(&admin_def, AdminRoleOnly);
    assert_eq!(admin.is_allowed("delete", "x"), Ok(true));
}

#[test]
fn disabled_enforcement_grants_unconditionally() {
    let def = Actor::<DenyAll>::anonymous().with_auth_error("bad token".to_string());
    let actor = Actor::new(&def, DenyAll);
    assert_eq!(actor.is_allowed_with(&Enforcement::Disabled, "delete", "x"), Ok(true));
    assert_eq!(
        actor.is_allowed_with(&Enforcement::Enabled, "delete", "x"),
        Err(AuthError::InvalidCredentials("bad token".to_string()))
    );
    let plain = Actor::new(&Actor::<DenyAll>::anonymous(), DenyAll);
    assert_eq!(plain.is_allowed_with(&Enforcement::Enabled, "delete", "x"), Ok(false));
}

#[test]
fn refreshed_credential_is_carried_through() {
    let attrs = AttrMap::new();
    let def = Actor::<AllowAll>::user(
        "erin".to_string(),
        &attrs,
        Some(Auth::new("renewed".to_string())),
    );
    let actor = Actor::new(&def, AllowAll);
    let auth = actor.new_auth().expect("refreshed credential must be kept");
    assert_eq!(auth.token(), "renewed");
    let bare = Actor::new(&Actor::<AllowAll>::anonymous(), AllowAll);
    assert!(bare.new_auth().is_none());
}

#[test]
fn templates_build_expected_defs() {
    let def: ActorDef = Actor::<AllowAll>::anonymous();
    assert!(!def.is_user);
    assert!(def.new_auth.is_none());
    assert!(def.auth_error.is_none());
    assert_eq!(def.name.as_str(), "anonymous");
    let actor = Actor::new(&def, AllowAll);
    assert!(actor.is_anonymous());
    assert_eq!(actor.is_allowed("anything", "anywhere"), Ok(true));
}
