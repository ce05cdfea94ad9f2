use policies::compile::Policies;
use policies::document::{EndpointDecl, LabelDecl, Section};
use policies::error::PolicyError;
use serde_json::Value;

fn label(name: Option<&str>, transform: Option<&str>, except_uri: Option<&str>) -> LabelDecl {
    LabelDecl {
        name: name.map(|s| s.to_string()),
        transform: transform.map(|s| s.to_string()),
        except_uri: except_uri.map(|s| s.to_string()),
    }
}

fn endpoint(path: Option<&str>, users: Option<&str>) -> EndpointDecl {
    EndpointDecl { path: path.map(|s| s.to_string()), users: users.map(|s| s.to_string()) }
}

fn endpoints_only(entries: Vec<(&str, &str)>) -> Vec<Section> {
    let endpoints = entries.into_iter().map(|(p, u)| endpoint(Some(p), Some(u))).collect();
    vec![Section { labels: Vec::new(), endpoints }]
}

fn labels_only(entries: Vec<LabelDecl>) -> Vec<Section> {
    vec![Section { labels: entries, endpoints: Vec::new() }]
}

fn user(name: &str) -> Option<String> {
    Some(name.to_string())
}

#[test]
fn exact_path_rule_depends_on_username() {
    let p = Policies::compile(&endpoints_only(vec![("/x", "^admin$")])).unwrap();
    assert!(p.is_allowed(user("admin"), "/x"));
    assert!(!p.is_allowed(user("administrator"), "/x"));
    assert!(!p.is_allowed(user("bob"), "/x"));
    assert!(!p.is_allowed(None, "/x"));
}

#[test]
fn unmatched_path_is_allowed() {
    let p = Policies::compile(&endpoints_only(vec![("/a", "^x$")])).unwrap();
    assert!(p.is_allowed(None, "/b/c"));
    assert!(p.is_allowed(user("anyone"), "/b/c"));
    assert!(p.is_allowed(None, "/"));
}

#[test]
fn longest_prefix_wins() {
    let p = Policies::compile(&endpoints_only(vec![("/a", "^x$"), ("/a/b", "^y$")])).unwrap();
    assert!(p.is_allowed(user("y"), "/a/b/c"));
    assert!(!p.is_allowed(user("x"), "/a/b/c"));
    assert!(p.is_allowed(user("x"), "/a/z"));
    assert!(!p.is_allowed(user("y"), "/a/z"));
    assert!(p.is_allowed(user("y"), "/a/b"));
    assert!(!p.is_allowed(user("x"), "/a/b"));
}

#[test]
fn string_prefix_is_not_path_prefix() {
    let p = Policies::compile(&endpoints_only(vec![("/ab", "^u$")])).unwrap();
    assert!(p.is_allowed(None, "/abc"));
    assert!(!p.is_allowed(None, "/ab"));
    assert!(!p.is_allowed(None, "/ab/c"));
    assert!(p.is_allowed(user("u"), "/ab/c"));
}

#[test]
fn duplicate_path_fails() {
    let err = Policies::compile(&endpoints_only(vec![("/x", "a"), ("/x", "b")])).unwrap_err();
    assert_eq!(err, PolicyError::DuplicatePath { path: "/x".to_string() });
}

#[test]
fn duplicate_path_across_sections_fails() {
    let sections = vec![
        Section { labels: Vec::new(), endpoints: vec![endpoint(Some("/x"), Some("a"))] },
        Section { labels: Vec::new(), endpoints: vec![endpoint(Some("/x"), Some("b"))] },
    ];
    let err = Policies::compile(&sections).unwrap_err();
    assert_eq!(err, PolicyError::DuplicatePath { path: "/x".to_string() });
}

#[test]
fn anonymize_without_exemption_applies_everywhere() {
    let p = Policies::compile(&labels_only(vec![label(Some("card"), Some("anonymize"), None)]))
        .unwrap();
    let policy = p.label_policy("card").unwrap();
    assert!(policy.applies("/any/path"));
    assert!(policy.applies(""));
    assert!(policy.applies("/public/x"));
    let marker = Value::String("xxxxx".to_string());
    assert_eq!(policy.apply(Value::Bool(true)), marker);
    assert_eq!(policy.apply(Value::Null), marker);
    assert_eq!(policy.apply(Value::String("secret".to_string())), marker);
    assert_eq!(policy.apply(Value::Number(serde_json::Number::from(5u8))), marker);
}

#[test]
fn exemption_pattern_skips_matching_paths() {
    let p = Policies::compile(&labels_only(vec![label(
        Some("card"),
        Some("anonymize"),
        Some("^/public"),
    )]))
    .unwrap();
    let policy = p.label_policy("card").unwrap();
    assert!(!policy.applies("/public/x"));
    assert!(policy.applies("/private/x"));
}

#[test]
fn unknown_transform_fails_naming_label_and_transform() {
    let err = Policies::compile(&labels_only(vec![label(Some("l"), Some("rot13"), None)]))
        .unwrap_err();
    assert_eq!(
        err,
        PolicyError::UnknownTransform { label: "l".to_string(), transform: "rot13".to_string() }
    );
}

#[test]
fn no_username_fail_closed() {
    let p = Policies::compile(&endpoints_only(vec![("/secure", ".*")])).unwrap();
    assert!(!p.is_allowed(None, "/secure"));
    let empty = Policies::compile(&Vec::new()).unwrap();
    assert!(empty.is_allowed(None, "/secure"));
}

#[test]
fn label_without_transform_adds_no_policy() {
    let p = Policies::compile(&labels_only(vec![label(Some("marker"), None, None)])).unwrap();
    assert!(p.label_policy("marker").is_none());
    let p2 = Policies::compile(&labels_only(vec![label(Some("marker"), None, Some("^/p"))]))
        .unwrap();
    assert!(p2.label_policy("marker").is_none());
}

#[test]
fn missing_label_name_fails() {
    let err = Policies::compile(&labels_only(vec![label(None, Some("anonymize"), None)]))
        .unwrap_err();
    assert_eq!(err, PolicyError::MissingLabelName);
}

#[test]
fn invalid_users_pattern_fails() {
    let err = Policies::compile(&endpoints_only(vec![("/x", "[")])).unwrap_err();
    assert_eq!(err, PolicyError::InvalidPattern { pattern: "[".to_string() });
}

#[test]
fn invalid_except_uri_pattern_fails() {
    let err = Policies::compile(&labels_only(vec![label(Some("l"), Some("anonymize"), Some("["))]))
        .unwrap_err();
    assert_eq!(err, PolicyError::InvalidPattern { pattern: "[".to_string() });
}

#[test]
fn label_redeclaration_last_wins() {
    let sections = vec![
        Section {
            labels: vec![label(Some("a"), Some("anonymize"), Some("^/p"))],
            endpoints: Vec::new(),
        },
        Section { labels: vec![label(Some("a"), Some("anonymize"), None)], endpoints: Vec::new() },
    ];
    let p = Policies::compile(&sections).unwrap();
    assert!(p.label_policy("a").unwrap().applies("/p/x"));

    let reversed = vec![
        Section { labels: vec![label(Some("a"), Some("anonymize"), None)], endpoints: Vec::new() },
        Section {
            labels: vec![label(Some("a"), Some("anonymize"), Some("^/p"))],
            endpoints: Vec::new(),
        },
    ];
    let p2 = Policies::compile(&reversed).unwrap();
    assert!(!p2.label_policy("a").unwrap().applies("/p/x"));
}

#[test]
fn endpoint_missing_field_is_skipped() {
    let sections = vec![Section {
        labels: Vec::new(),
        endpoints: vec![endpoint(Some("/x"), None), endpoint(None, Some("^a$"))],
    }];
    let p = Policies::compile(&sections).unwrap();
    assert!(p.is_allowed(None, "/x"));
}

#[test]
fn sections_accumulate() {
    let sections = vec![
        Section { labels: Vec::new(), endpoints: vec![endpoint(Some("/a"), Some("^a$"))] },
        Section {
            labels: vec![label(Some("l"), Some("anonymize"), None)],
            endpoints: vec![endpoint(Some("/b"), Some("^b$"))],
        },
    ];
    let p = Policies::compile(&sections).unwrap();
    assert!(p.is_allowed(user("a"), "/a/1"));
    assert!(!p.is_allowed(user("b"), "/a/1"));
    assert!(p.is_allowed(user("b"), "/b/1"));
    assert!(p.label_policy("l").is_some());
}

#[test]
fn label_error_reported_before_endpoint_error() {
    let sections = vec![Section {
        labels: vec![label(None, None, None)],
        endpoints: vec![endpoint(Some("/x"), Some("["))],
    }];
    let err = Policies::compile(&sections).unwrap_err();
    assert_eq!(err, PolicyError::MissingLabelName);
}

#[test]
fn empty_document_compiles_to_permissive_policies() {
    let p = Policies::compile(&Vec::new()).unwrap();
    assert!(p.is_allowed(None, "/anything"));
    assert!(p.is_allowed(user("anyone"), "/anything"));
    assert!(p.label_policy("a").is_none());
}
