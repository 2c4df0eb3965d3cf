use fazrepo::{APP_NAME, VERSION};

#[test]
fn test_version_constant() {
    assert!(!VERSION.is_empty());
}

#[test]
fn test_app_name_constant() {
    assert_eq!(APP_NAME, "fazrepo");
}

#[test]
fn main_test_version_constant() {
    assert!(!VERSION.is_empty());
}
