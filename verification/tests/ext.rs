use pedestal_rs::ext::{ArcExt, CloneExt};
use std::sync::Arc;

#[test]
fn as_owned_changes_a_clone() {
    let base = "Hello".to_string();
    let copied = base.as_owned(|it| it.push_str(" world"));
    assert_eq!(&copied, "Hello world");
    assert_eq!(&base, "Hello");
}

#[test]
fn as_owned_arc_changes_a_clone() {
    let base = Arc::new("Hello".to_string());
    let copied = base.as_owned_arc(|it| it.push_str(" world"));
    assert_eq!(copied, Arc::new("Hello world".to_string()));
    assert_eq!(base, Arc::new("Hello".to_string()));
}

#[test]
fn modify_replaces_the_shared_value() {
    let mut base = Arc::new("Hello".to_string());
    let copied1 = Arc::clone(&base);
    let previous = base.modify(|it| it.clear());
    assert_eq!(base, Arc::new(String::new()));
    assert_eq!(copied1, Arc::new("Hello".to_string()));
    assert!(Arc::ptr_eq(&previous, &copied1));
}
