use policies::authorization::UserAuthorization;
use policies::error::PolicyError;
use policies::pattern::Pattern;
use policies::transform::Transform;
use serde_json::Value;

#[test]
fn add_rejects_repeated_path() {
    let mut auth = UserAuthorization::default();
    assert!(auth.add("/x", Pattern::compile("^a$").unwrap()).is_ok());
    assert!(auth.add("/x/y", Pattern::compile("^b$").unwrap()).is_ok());
    let err = auth.add("/x", Pattern::compile("^c$").unwrap()).unwrap_err();
    assert_eq!(err, PolicyError::DuplicatePath { path: "/x".to_string() });
    assert!(auth.is_allowed(Some("a".to_string()), "/x/z"));
    assert!(auth.is_allowed(Some("b".to_string()), "/x/y"));
    assert!(!auth.is_allowed(Some("a".to_string()), "/x/y"));
}

#[test]
fn default_authorization_allows_everything() {
    let auth = UserAuthorization::default();
    assert!(auth.is_allowed(None, "/any"));
    assert!(auth.is_allowed(Some("u".to_string()), "/any"));
}

#[test]
fn pattern_compile_accepts_and_rejects() {
    assert!(Pattern::compile("^/public").is_ok());
    assert!(Pattern::compile("[").is_err());
    let p = Pattern::compile("^/public").unwrap();
    assert!(p.is_match("/public/x"));
    assert!(!p.is_match("/private/x"));
}

#[test]
fn transform_registry_knows_only_anonymize() {
    assert_eq!(Transform::resolve("anonymize"), Some(Transform::Anonymize));
    assert_eq!(Transform::resolve("rot13"), None);
    assert_eq!(Transform::resolve(""), None);
    assert_eq!(Transform::resolve("Anonymize"), None);
}

#[test]
fn anonymize_replaces_any_value_with_marker() {
    let marker = Value::String("xxxxx".to_string());
    assert_eq!(Transform::Anonymize.apply(Value::String("abc".to_string())), marker);
    assert_eq!(Transform::Anonymize.apply(Value::Bool(false)), marker);
}
