use std::path::Path;
use vscs_farm::naming::{join_path, user_data_dir, workspace_name};

#[test]
fn names_workspace_after_user() {
    assert_eq!(workspace_name("alice"), "vscs-alice");
    assert_eq!(workspace_name(""), "vscs-");
    assert_eq!(workspace_name("a b/c"), "vscs-a b/c");
    assert_eq!(workspace_name("vscs-alice"), "vscs-vscs-alice");
}

#[test]
fn naming_is_deterministic() {
    assert_eq!(workspace_name("alice"), workspace_name("alice"));
}

#[test]
fn distinct_users_get_distinct_names() {
    let ids = ["alice", "bob", "Alice", "alice1", "alice-1", "a", "", "-", "vscs-", "bob "];
    for a in ids {
        for b in ids {
            assert_eq!(workspace_name(a) == workspace_name(b), a == b);
        }
    }
}

#[test]
fn data_dir_is_root_joined_with_user() {
    assert_eq!(user_data_dir("/opt/vscs-farm", "alice"), "/opt/vscs-farm/alice");
    assert_eq!(user_data_dir("/opt/vscs-farm/", "alice"), "/opt/vscs-farm/alice");
    assert_eq!(user_data_dir("data", "alice"), "data/alice");
    assert_eq!(user_data_dir("", "alice"), "alice");
    assert_eq!(user_data_dir("/", "alice"), "/alice");
}

#[test]
fn absolute_user_id_replaces_root() {
    assert_eq!(user_data_dir("/opt/vscs-farm", "/etc"), "/etc");
    assert_eq!(join_path("/opt/vscs-farm", "/"), "/");
}

#[test]
fn empty_user_id_leaves_root_with_separator() {
    assert_eq!(join_path("/opt/vscs-farm", ""), "/opt/vscs-farm/");
    assert_eq!(join_path("/opt/vscs-farm/", ""), "/opt/vscs-farm/");
    assert_eq!(join_path("", ""), "");
}

#[test]
fn joins_as_std_joins_paths() {
    let bases = ["", "/", "/opt/vscs-farm", "/opt/vscs-farm/", "rel", "rel/", "a//", "\u{e9}t\u{e9}"];
    let children = ["", "alice", "/abs", "a/b", "../up", ".", "\u{4e16}\u{754c}", "x/"];
    for base in bases {
        for child in children {
            let expected = Path::new(base).join(child);
            assert_eq!(join_path(base, child), expected.to_str().unwrap());
        }
    }
}
