use actor_authz::attrs::AttrMap;
use actor_authz::name::ActorName;

#[test]
fn empty_map_has_nothing() {
    let m = AttrMap::new();
    assert!(m.is_empty());
    assert_eq!(m.get(&"role".to_string()), None);
}

#[test]
fn insert_then_get() {
    let mut m = AttrMap::new();
    m.insert("role".to_string(), "admin".to_string());
    assert!(!m.is_empty());
    assert_eq!(m.get(&"role".to_string()), Some(&"admin".to_string()));
    assert_eq!(m.get(&"other".to_string()), None);
}

#[test]
fn insert_overwrites() {
    let mut m = AttrMap::new();
    m.insert("role".to_string(), "admin".to_string());
    m.insert("role".to_string(), "readonly".to_string());
    assert_eq!(m.get(&"role".to_string()), Some(&"readonly".to_string()));
}

#[test]
fn map_equality_ignores_insertion_order() {
    let mut m1 = AttrMap::new();
    m1.insert("a".to_string(), "1".to_string());
    m1.insert("b".to_string(), "2".to_string());
    let mut m2 = AttrMap::new();
    m2.insert("b".to_string(), "2".to_string());
    m2.insert("a".to_string(), "1".to_string());
    assert_eq!(m1, m2);
}

#[test]
fn map_inequality_on_values_and_keys() {
    let mut m1 = AttrMap::new();
    m1.insert("a".to_string(), "1".to_string());
    let mut m2 = AttrMap::new();
    m2.insert("a".to_string(), "2".to_string());
    assert!(m1 != m2);
    let mut m3 = AttrMap::new();
    m3.insert("b".to_string(), "1".to_string());
    assert!(m1 != m3);
    assert!(m1 != AttrMap::new());
}

#[test]
fn map_clone_is_equal() {
    let mut m = AttrMap::new();
    m.insert("a".to_string(), "1".to_string());
    m.insert("b".to_string(), "2".to_string());
    let c = m.clone();
    assert_eq!(m, c);
    assert_eq!(c.get(&"a".to_string()), Some(&"1".to_string()));
}

#[test]
fn name_equality_goes_by_text_not_form() {
    let fixed = ActorName::Fixed("scheduler".to_string());
    let owned = ActorName::Owned("scheduler".to_string());
    assert_eq!(fixed, owned);
    assert_eq!(fixed.as_str(), "scheduler");
    assert_eq!(owned.as_str(), "scheduler");
    assert!(ActorName::Fixed("scheduler".to_string()) != ActorName::Owned("other".to_string()));
    assert_eq!(fixed.clone(), fixed);
}
