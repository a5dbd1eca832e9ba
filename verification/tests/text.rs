use shinigami::registry::RoleRegistry;
use shinigami::text::{str_eq, strip_double_quotes};

#[test]
fn str_eq_agrees_on_equal_strings() {
    assert!(str_eq("Overwatch", "Overwatch"));
    assert!(str_eq("", ""));
}

#[test]
fn str_eq_rejects_different_strings() {
    assert!(!str_eq("add", "remove"));
    assert!(!str_eq("add", "Add"));
    assert!(!str_eq("add", "addd"));
    assert!(!str_eq("add", ""));
}

#[test]
fn strip_double_quotes_removes_every_double_quote() {
    assert_eq!(strip_double_quotes("\"Night Owl\""), "Night Owl");
    assert_eq!(strip_double_quotes("Ni\"ght\""), "Night");
    assert_eq!(strip_double_quotes("plain"), "plain");
}

#[test]
fn strip_double_quotes_keeps_single_quotes() {
    assert_eq!(strip_double_quotes("'Solo'"), "'Solo'");
}

#[test]
fn membership_is_case_insensitive() {
    let reg = RoleRegistry::new(vec!["overwatch".to_string(), "night owl".to_string()]);
    assert!(reg.is_public("Overwatch"));
    assert!(reg.is_public("NIGHT OWL"));
    assert!(reg.is_public("overwatch"));
}

#[test]
fn membership_rejects_absent_names() {
    let reg = RoleRegistry::new(vec!["overwatch".to_string()]);
    assert!(!reg.is_public("staff"));
    assert!(!reg.is_public(""));
}

#[test]
fn membership_of_empty_registry_is_empty() {
    let reg = RoleRegistry::new(Vec::new());
    assert!(!reg.is_public("overwatch"));
}
