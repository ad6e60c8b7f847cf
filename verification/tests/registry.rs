//! The server registry and its transforms, exercised on concrete values.

use remote_servers::connection::parse_command_line;
use remote_servers::registry::{
    display_labels, ProjectRecord, RegistryTransform, ServerRegistry,
};

fn options(line: &str) -> remote_servers::connection::ConnectionOptions {
    parse_command_line(line).expect("valid command line")
}

fn project(paths: &[&str]) -> ProjectRecord {
    ProjectRecord { paths: paths.iter().map(|p| String::from(*p)).collect() }
}

fn registry_with(hosts: &[&str]) -> ServerRegistry {
    let mut reg = ServerRegistry::new();
    for h in hosts {
        reg.add_server(options(&format!("ssh {}", h)));
    }
    reg
}

#[test]
fn add_server_appends() {
    let mut reg = ServerRegistry::new();
    assert_eq!(reg.server_count(), 0);
    reg.add_server(options("ssh alice@one -p 2200"));
    assert_eq!(reg.server_count(), 1);
    let s = reg.server_at(0);
    assert_eq!(s.host, "one");
    assert_eq!(s.username, Some(String::from("alice")));
    assert_eq!(s.port, Some(2200));
    assert_eq!(s.nickname, None);
    assert!(s.projects.is_empty());
}

#[test]
fn duplicate_servers_are_permitted() {
    let mut reg = ServerRegistry::new();
    reg.add_server(options("ssh same@host"));
    reg.add_server(options("ssh same@host"));
    assert_eq!(reg.server_count(), 2);
}

#[test]
fn remove_server_shifts_indices() {
    let mut reg = registry_with(&["one", "two", "three"]);
    reg.remove_server(1);
    assert_eq!(reg.server_count(), 2);
    assert_eq!(reg.server_at(0).host, "one");
    assert_eq!(reg.server_at(1).host, "three");
}

#[test]
fn remove_server_out_of_range_is_a_no_op() {
    let mut reg = registry_with(&["one"]);
    reg.remove_server(5);
    assert_eq!(reg.server_count(), 1);
}

#[test]
fn adding_same_project_twice_keeps_one() {
    let mut reg = registry_with(&["one"]);
    reg.add_project(0, &project(&["/home/a"]));
    reg.add_project(0, &project(&["/home/a"]));
    assert_eq!(reg.server_at(0).projects.len(), 1);
}

#[test]
fn project_identity_is_the_path_set() {
    let mut reg = registry_with(&["one"]);
    reg.add_project(0, &project(&["/a", "/b"]));
    // The same set, in another order and with a repeated element.
    reg.add_project(0, &project(&["/b", "/a", "/a"]));
    assert_eq!(reg.server_at(0).projects.len(), 1);
    // A genuinely different set is kept as a second project.
    reg.add_project(0, &project(&["/a"]));
    assert_eq!(reg.server_at(0).projects.len(), 2);
}

#[test]
fn removing_project_twice_equals_removing_once() {
    let mut reg = registry_with(&["one"]);
    reg.add_project(0, &project(&["/a"]));
    reg.add_project(0, &project(&["/b"]));
    reg.remove_project(0, &project(&["/a"]));
    assert_eq!(reg.server_at(0).projects.len(), 1);
    reg.remove_project(0, &project(&["/a"]));
    assert_eq!(reg.server_at(0).projects.len(), 1);
    assert_eq!(reg.server_at(0).projects[0].paths, vec![String::from("/b")]);
}

#[test]
fn removing_absent_project_is_a_no_op() {
    let mut reg = registry_with(&["one"]);
    reg.add_project(0, &project(&["/a"]));
    reg.remove_project(0, &project(&["/zzz"]));
    assert_eq!(reg.server_at(0).projects.len(), 1);
}

#[test]
fn empty_nickname_is_stored_as_none() {
    let mut reg = registry_with(&["one"]);
    reg.set_nickname(0, Some(String::from("")));
    assert_eq!(reg.server_at(0).nickname, None);
}

#[test]
fn nickname_set_and_cleared() {
    let mut reg = registry_with(&["one"]);
    reg.set_nickname(0, Some(String::from("prod")));
    assert_eq!(reg.server_at(0).nickname, Some(String::from("prod")));
    reg.set_nickname(0, None);
    assert_eq!(reg.server_at(0).nickname, None);
}

#[test]
fn set_nickname_out_of_range_is_a_no_op() {
    let mut reg = registry_with(&["one"]);
    reg.set_nickname(7, Some(String::from("prod")));
    assert_eq!(reg.server_at(0).nickname, None);
}

#[test]
fn apply_dispatches_transforms() {
    let mut reg = ServerRegistry::new();
    reg.apply(RegistryTransform::AddServer { options: options("ssh u@h") });
    reg.apply(RegistryTransform::AddProject { index: 0, project: project(&["/p"]) });
    reg.apply(RegistryTransform::SetNickname { index: 0, nickname: Some(String::from("box")) });
    assert_eq!(reg.server_count(), 1);
    assert_eq!(reg.server_at(0).projects.len(), 1);
    assert_eq!(reg.server_at(0).nickname, Some(String::from("box")));
    reg.apply(RegistryTransform::RemoveProject { index: 0, project: project(&["/p"]) });
    assert!(reg.server_at(0).projects.is_empty());
    reg.apply(RegistryTransform::RemoveServer { index: 0 });
    assert_eq!(reg.server_count(), 0);
}

#[test]
fn listing_labels_prefer_the_nickname() {
    let mut reg = registry_with(&["example.com"]);
    assert_eq!(
        display_labels(reg.server_at(0)),
        (String::from("example.com"), None)
    );
    reg.set_nickname(0, Some(String::from("prod")));
    assert_eq!(
        display_labels(reg.server_at(0)),
        (String::from("prod"), Some(String::from("(example.com)")))
    );
}

#[test]
fn snapshot_matches_until_registry_changes() {
    let mut reg = registry_with(&["one", "two"]);
    let snap = reg.snapshot();
    assert!(reg.matches_snapshot(&snap));
    reg.remove_server(0);
    assert!(!reg.matches_snapshot(&snap));
}
