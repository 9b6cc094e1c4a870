use cargo_remote::workspace::{hash_path, u64_to_decimal};

#[test]
fn derive_is_deterministic_across_calls() {
    let a = cargo_remote::workspace::derive("/home/alice/proj", "~/remote-builds");
    let b = cargo_remote::workspace::derive("/home/alice/proj", "~/remote-builds");
    assert_eq!(a, b);
}

#[test]
fn distinct_roots_map_to_distinct_workspaces() {
    let a = cargo_remote::workspace::derive("/home/alice/proj", "~/remote-builds");
    let b = cargo_remote::workspace::derive("/home/bob/proj", "~/remote-builds");
    assert_ne!(a, b);
}

#[test]
fn same_directory_name_does_not_collide() {
    // Two checkouts that share a final component still get their own remote
    // workspaces, since the whole canonical path is hashed.
    let a = hash_path("/home/alice/proj");
    let b = hash_path("/home/bob/proj");
    assert_ne!(a, b);
}

#[test]
fn hash_path_exact_value() {
    assert_eq!(hash_path("/home/alice/proj"), 6189919189893015396);
    assert_eq!(hash_path("/a"), 564752086074186029);
}

#[test]
fn derive_exact_value() {
    assert_eq!(
        cargo_remote::workspace::derive("/home/alice/proj", "~/remote-builds"),
        "~/remote-builds/6189919189893015396"
    );
}

#[test]
fn decimal_rendering() {
    assert_eq!(u64_to_decimal(0), "0");
    assert_eq!(u64_to_decimal(7), "7");
    assert_eq!(u64_to_decimal(10), "10");
    assert_eq!(u64_to_decimal(1234567890), "1234567890");
    assert_eq!(u64_to_decimal(u64::MAX), "18446744073709551615");
}

#[test]
fn offset_of_equal_directories_is_empty() {
    assert_eq!(
        cargo_remote::workspace::path_offset("/home/alice/proj", "/home/alice/proj"),
        Some(String::new())
    );
}

#[test]
fn offset_of_descendant_is_the_remainder() {
    assert_eq!(
        cargo_remote::workspace::path_offset("/home/alice/proj", "/home/alice/proj/crates/app"),
        Some(String::from("crates/app"))
    );
}

#[test]
fn offset_of_non_ancestor_is_none() {
    assert_eq!(
        cargo_remote::workspace::path_offset("/home/alice/proj", "/home/alice/other"),
        None
    );
    // A shared character prefix is not an ancestor.
    assert_eq!(cargo_remote::workspace::path_offset("/a", "/ab/c"), None);
}

#[test]
fn join_under_round_trips_offset() {
    assert_eq!(cargo_remote::workspace::join_under("/base", ""), "/base");
    assert_eq!(
        cargo_remote::workspace::join_under("/base", "crates/app"),
        "/base/crates/app"
    );
    let off = cargo_remote::workspace::path_offset("/r", "/r/x/y").unwrap();
    assert_eq!(cargo_remote::workspace::join_under("/r", &off), "/r/x/y");
}
