use pedestal_rs::fs::path::{
    find_available_name, is_taken, normalize, numbered, reduce, relative_from, same_path, take,
    Component, PathError,
};
use std::path::Path;

fn parts(text: &str) -> Vec<Component> {
    Path::new(text)
        .components()
        .map(|part| match part {
            std::path::Component::Prefix(prefix) => {
                Component::Prefix(prefix.as_os_str().to_string_lossy().to_string())
            }
            std::path::Component::RootDir => Component::RootDir,
            std::path::Component::CurDir => Component::CurDir,
            std::path::Component::ParentDir => Component::ParentDir,
            std::path::Component::Normal(name) => {
                Component::Normal(name.to_string_lossy().to_string())
            }
        })
        .collect()
}

#[test]
fn test_normalize() {
    let base = parts("/srv/data");
    let mut want = String::from("ads/dsda/../../");
    let result = normalize(&base, &parts(&want));
    assert!(result.is_ok());
    assert_eq!(result.unwrap(), base);

    want.push_str("../");
    let result = normalize(&base, &parts(&want));
    assert!(result.is_err())
}

#[test]
fn test_absolute_from1() {
    assert_eq!(
        relative_from(&parts("src/lib.rs"), &parts("target/debug")),
        parts("../../src/lib.rs")
    );
    assert_eq!(relative_from(&parts("src/lib.rs"), &parts("src/fs")), parts("../lib.rs"));
    assert_eq!(
        relative_from(&parts("../src/lib.rs"), &parts("target/debug")),
        parts("../../../src/lib.rs")
    );
}

#[test]
fn test_find_available_name() {
    let taken = vec![parts("src/lib.rs"), parts("src")];
    assert_eq!(find_available_name(&parts("src/lib.rs"), &taken), Some(parts("src/lib.rs.1")));
    assert_eq!(find_available_name(&parts("src"), &taken), Some(parts("src.1")));
}

#[test]
fn normalize_keeps_names_below_the_base() {
    let base = parts("/srv/data");
    assert_eq!(normalize(&base, &parts("a/./b/../c")), Ok(parts("/srv/data/a/c")));
    assert_eq!(normalize(&base, &parts("")), Ok(parts("/srv/data")));
    assert_eq!(normalize(&base, &parts("./x")), Ok(parts("/srv/data/x")));
}

#[test]
fn normalize_refuses_a_climb() {
    let base = parts("/srv/data");
    assert_eq!(normalize(&base, &parts("..")), Err(PathError::InvalidInput));
    assert_eq!(normalize(&base, &parts("a/../../b")), Err(PathError::InvalidInput));
    assert_eq!(normalize(&base, &parts("../a")), Err(PathError::InvalidInput));
}

#[test]
fn normalize_of_a_rooted_path_starts_at_the_root() {
    let base = parts("/srv/data");
    assert_eq!(normalize(&base, &parts("/etc/passwd")), Ok(parts("/etc/passwd")));
    assert_eq!(normalize(&base, &parts("/../x")), Ok(parts("/x")));
}

#[test]
fn reduce_resolves_from_left_to_right() {
    assert_eq!(reduce(&parts("a/b/../c")), parts("a/c"));
    assert_eq!(reduce(&parts("../../a")), parts("../../a"));
    assert_eq!(reduce(&parts("./a")), parts("a"));
    assert_eq!(reduce(&parts("/..")), parts("/"));
}

#[test]
fn relative_from_shared_beginning() {
    assert_eq!(relative_from(&parts("a/b/c"), &parts("a/b/c")), parts(""));
    assert_eq!(relative_from(&parts("a/b/c"), &parts("a")), parts("b/c"));
    assert_eq!(relative_from(&parts("a"), &parts("a/b/c")), parts("../.."));
    assert_eq!(relative_from(&parts("/x"), &parts("y")), parts("/x"));
}

#[test]
fn numbered_names() {
    assert_eq!(numbered(&String::from("lib.rs"), 1), "lib.rs.1");
    assert_eq!(numbered(&String::from("a"), 0), "a.0");
    assert_eq!(numbered(&String::from("a"), 120), "a.120");
    assert_eq!(numbered(&String::new(), 18446744073709551615), ".18446744073709551615");
}

#[test]
fn free_name_is_the_first_that_is_not_taken() {
    let taken = vec![parts("log"), parts("log.1"), parts("log.2"), parts("log.4")];
    assert_eq!(find_available_name(&parts("log"), &taken), Some(parts("log.3")));
    assert_eq!(find_available_name(&parts("other"), &taken), Some(parts("other")));
    assert_eq!(find_available_name(&parts("dir/log"), &taken), Some(parts("dir/log")));
}

#[test]
fn no_free_name_without_a_name() {
    let taken = vec![parts("/"), parts(".."), parts("")];
    assert_eq!(find_available_name(&parts("/"), &taken), None);
    assert_eq!(find_available_name(&parts(".."), &taken), None);
    assert_eq!(find_available_name(&parts(""), &taken), None);
}

#[test]
fn test_take() {
    let taken = vec![parts("target/test_file.txt")];
    assert_eq!(
        take(&parts("target/test_file.txt"), &taken),
        Some(parts("target/test_file.txt.1"))
    );
}

#[test]
fn take_leaves_alone_what_is_not_there() {
    let taken = vec![parts("target/test_file.txt")];
    assert_eq!(take(&parts("target/other.txt"), &taken), None);
    assert_eq!(take(&parts("/"), &vec![parts("/")]), None);
}

#[test]
fn paths_are_compared_by_their_components() {
    assert!(same_path(&parts("a/b"), &parts("a//b/")));
    assert!(!same_path(&parts("a/b"), &parts("a/c")));
    assert!(!same_path(&parts("a/b"), &parts("a")));
    assert!(is_taken(&vec![parts("x"), parts("y")], &parts("y")));
    assert!(!is_taken(&vec![parts("x"), parts("y")], &parts("z")));
    assert!(Component::ParentDir.same(&Component::ParentDir));
    assert!(!Component::CurDir.same(&Component::RootDir));
    assert!(!Component::Normal(String::from("a")).same(&Component::Prefix(String::from("a"))));
}
