//! The modal workflow, driven event by event through whole scenarios.

use remote_servers::connection::{parse_command_line, ConnectFailure};
use remote_servers::registry::{ProjectRecord, RegistryTransform, ServerRegistry};
use remote_servers::workflow::{
    Action, ConnectionSession, Event, Mode, RemoteServerProjects,
};

fn options(line: &str) -> remote_servers::connection::ConnectionOptions {
    parse_command_line(line).expect("valid command line")
}

fn registry_with(hosts: &[&str]) -> ServerRegistry {
    let mut reg = ServerRegistry::new();
    for h in hosts {
        reg.add_server(options(&format!("ssh {}", h)));
    }
    reg
}

/// Plays the persistence collaborator: applies every registry transform the
/// modal asked for, in order.
fn apply_updates(reg: &mut ServerRegistry, acts: Vec<Action>) -> Vec<Action> {
    let mut rest = Vec::new();
    for a in acts {
        match a {
            Action::UpdateRegistry { transform } => reg.apply(transform),
            other => rest.push(other),
        }
    }
    rest
}

fn address_state(modal: &RemoteServerProjects) -> (String, Option<String>, bool, bool) {
    match &modal.mode {
        Mode::CreatingServer { address_text, address_error, attempt, read_only } => (
            address_text.clone(),
            address_error.clone(),
            attempt.is_some(),
            *read_only,
        ),
        other_mode => panic!("expected the command editor, mode is {}", mode_name(other_mode)),
    }
}

fn mode_name(m: &Mode) -> &'static str {
    match m {
        Mode::Default { .. } => "Default",
        Mode::CreatingServer { .. } => "CreatingServer",
        Mode::ViewingOptions { .. } => "ViewingOptions",
        Mode::EditingNickname { .. } => "EditingNickname",
        Mode::PickingProject { .. } => "PickingProject",
    }
}

#[test]
fn failed_attempt_keeps_text_and_surfaces_error() {
    let mut reg = ServerRegistry::new();
    let mut modal = RemoteServerProjects::new(&reg);

    modal.handle(Event::StartCreate, &reg);
    modal.handle(
        Event::EditAddress { text: String::from("ssh alice@example.com") },
        &reg,
    );
    let acts = modal.handle(Event::Confirm, &reg);
    assert!(matches!(acts.as_slice(), [Action::BeginAttempt { .. }]));
    let (text, error, attempt, read_only) = address_state(&modal);
    assert_eq!(text, "ssh alice@example.com");
    assert_eq!(error, None);
    assert!(attempt && read_only);

    let acts = modal.handle(
        Event::AttemptFinished { outcome: Err(ConnectFailure::HostUnreachable) },
        &reg,
    );
    assert!(acts.is_empty());
    let (text, error, attempt, read_only) = address_state(&modal);
    assert_eq!(text, "ssh alice@example.com");
    assert!(error.is_some());
    assert!(!attempt && !read_only);
    assert_eq!(reg.server_count(), 0);
}

#[test]
fn input_is_read_only_exactly_while_attempt_runs() {
    let mut reg = ServerRegistry::new();
    let mut modal = RemoteServerProjects::new(&reg);
    modal.handle(Event::StartCreate, &reg);
    modal.handle(Event::EditAddress { text: String::from("ssh h") }, &reg);
    modal.handle(Event::Confirm, &reg);

    // While the attempt runs, edits are refused.
    modal.handle(Event::EditAddress { text: String::from("changed") }, &reg);
    let (text, _, attempt, read_only) = address_state(&modal);
    assert_eq!(text, "ssh h");
    assert!(attempt && read_only);

    // Cancelling the attempt keeps the text and frees the input.
    modal.handle(Event::Cancel, &reg);
    let (text, error, attempt, read_only) = address_state(&modal);
    assert_eq!(text, "ssh h");
    assert_eq!(error, None);
    assert!(!attempt && !read_only);

    // Now the edit goes through.
    modal.handle(Event::EditAddress { text: String::from("changed") }, &reg);
    let (text, _, _, _) = address_state(&modal);
    assert_eq!(text, "changed");
}

#[test]
fn second_confirm_answers_the_prompt_instead_of_starting_again() {
    let mut reg = ServerRegistry::new();
    let mut modal = RemoteServerProjects::new(&reg);
    modal.handle(Event::StartCreate, &reg);
    modal.handle(Event::EditAddress { text: String::from("ssh h") }, &reg);
    let acts = modal.handle(Event::Confirm, &reg);
    assert!(matches!(acts.as_slice(), [Action::BeginAttempt { .. }]));
    // One attempt is outstanding: confirming again must not begin another.
    let acts = modal.handle(Event::Confirm, &reg);
    assert!(matches!(acts.as_slice(), [Action::ForwardConfirmToPrompt]));
}

#[test]
fn successful_attempt_registers_server_and_retains_session() {
    let mut reg = ServerRegistry::new();
    let mut modal = RemoteServerProjects::new(&reg);
    modal.handle(Event::StartCreate, &reg);
    modal.handle(Event::EditAddress { text: String::from("ssh alice@one -p 2200") }, &reg);
    modal.handle(Event::Confirm, &reg);

    let acts = modal.handle(
        Event::AttemptFinished { outcome: Ok(ConnectionSession { id: 7 }) },
        &reg,
    );
    let rest = apply_updates(&mut reg, acts);
    assert!(rest.is_empty());
    assert_eq!(reg.server_count(), 1);
    assert_eq!(reg.server_at(0).host, "one");
    assert_eq!(reg.server_at(0).username, Some(String::from("alice")));
    assert_eq!(reg.server_at(0).port, Some(2200));
    assert_eq!(modal.retained_connections.len(), 1);
    assert_eq!(modal.retained_connections[0].id, 7);
    assert!(matches!(modal.mode, Mode::Default { .. }));
}

#[test]
fn malformed_command_shows_error_and_stays() {
    let mut reg = ServerRegistry::new();
    let mut modal = RemoteServerProjects::new(&reg);
    modal.handle(Event::StartCreate, &reg);
    modal.handle(Event::EditAddress { text: String::from("ssh user@") }, &reg);
    let acts = modal.handle(Event::Confirm, &reg);
    assert!(acts.is_empty());
    let (text, error, attempt, read_only) = address_state(&modal);
    assert_eq!(text, "ssh user@");
    assert!(error.is_some());
    assert!(!attempt && !read_only);
    assert_eq!(reg.server_count(), 0);
}

#[test]
fn confirming_whitespace_input_does_nothing() {
    let mut reg = ServerRegistry::new();
    let mut modal = RemoteServerProjects::new(&reg);
    modal.handle(Event::StartCreate, &reg);
    modal.handle(Event::EditAddress { text: String::from("   ") }, &reg);
    let acts = modal.handle(Event::Confirm, &reg);
    assert!(acts.is_empty());
    let (_, error, attempt, _) = address_state(&modal);
    assert_eq!(error, None);
    assert!(!attempt);
}

#[test]
fn empty_nickname_is_persisted_as_none() {
    let mut reg = registry_with(&["one", "two", "three"]);
    reg.set_nickname(2, Some(String::from("old-name")));
    let mut modal = RemoteServerProjects::new(&reg);

    modal.handle(Event::SelectServer { index: 2 }, &reg);
    modal.handle(Event::StartEditNickname, &reg);
    match &modal.mode {
        Mode::EditingNickname { server_index, buffer } => {
            assert_eq!(*server_index, 2);
            assert_eq!(buffer, "old-name");
        },
        other_mode => panic!("unexpected mode {}", mode_name(other_mode)),
    }
    modal.handle(Event::EditNicknameBuffer { text: String::from("") }, &reg);
    let acts = modal.handle(Event::Confirm, &reg);
    apply_updates(&mut reg, acts);
    assert_eq!(reg.server_at(2).nickname, None);
    assert!(matches!(modal.mode, Mode::Default { .. }));
}

#[test]
fn external_removal_under_viewing_options_reconciles_to_default() {
    let mut reg = registry_with(&["one", "two"]);
    let mut modal = RemoteServerProjects::new(&reg);
    modal.handle(Event::SelectServer { index: 1 }, &reg);
    assert!(matches!(modal.mode, Mode::ViewingOptions { server_index: 1, .. }));

    // The registry changes underneath the modal.
    reg.remove_server(1);

    modal.reconcile(&reg);
    match &modal.mode {
        Mode::Default { snapshot } => {
            assert_eq!(snapshot.len(), 1);
            assert_eq!(snapshot[0].host, "one");
        },
        other_mode => panic!("unexpected mode {}", mode_name(other_mode)),
    }
}

#[test]
fn external_listing_change_rebuilds_the_snapshot() {
    let mut reg = registry_with(&["one"]);
    let mut modal = RemoteServerProjects::new(&reg);
    reg.add_server(options("ssh two"));
    modal.reconcile(&reg);
    match &modal.mode {
        Mode::Default { snapshot } => assert_eq!(snapshot.len(), 2),
        other_mode => panic!("unexpected mode {}", mode_name(other_mode)),
    }
}

#[test]
fn removing_a_server_asks_first_and_acts_on_acceptance() {
    let mut reg = registry_with(&["one", "two"]);
    let mut modal = RemoteServerProjects::new(&reg);
    modal.handle(Event::SelectServer { index: 0 }, &reg);

    let acts = modal.handle(Event::RequestRemoveServer, &reg);
    assert!(matches!(acts.as_slice(), [Action::AskRemoveConfirmation { server_index: 0 }]));
    assert!(matches!(modal.mode, Mode::ViewingOptions { .. }));

    let acts = modal.handle(Event::RemoveServerAnswer { accepted: true }, &reg);
    let rest = apply_updates(&mut reg, acts);
    assert!(rest.is_empty());
    assert_eq!(reg.server_count(), 1);
    assert_eq!(reg.server_at(0).host, "two");
    assert!(matches!(modal.mode, Mode::Default { .. }));
}

#[test]
fn refusing_the_removal_keeps_everything() {
    let mut reg = registry_with(&["one"]);
    let mut modal = RemoteServerProjects::new(&reg);
    modal.handle(Event::SelectServer { index: 0 }, &reg);
    modal.handle(Event::RequestRemoveServer, &reg);
    let acts = modal.handle(Event::RemoveServerAnswer { accepted: false }, &reg);
    assert!(acts.is_empty());
    assert_eq!(reg.server_count(), 1);
    assert!(matches!(modal.mode, Mode::ViewingOptions { .. }));
}

#[test]
fn stale_removal_is_absorbed_without_touching_the_registry() {
    let mut reg = registry_with(&["one", "two"]);
    let mut modal = RemoteServerProjects::new(&reg);
    modal.handle(Event::SelectServer { index: 1 }, &reg);
    modal.handle(Event::RequestRemoveServer, &reg);

    // The registry changes underneath the confirmation prompt: index 1 now
    // names a different server.
    reg.remove_server(0);

    let acts = modal.handle(Event::RemoveServerAnswer { accepted: true }, &reg);
    let rest = apply_updates(&mut reg, acts);
    assert!(rest.is_empty());
    assert_eq!(reg.server_count(), 1);
    assert_eq!(reg.server_at(0).host, "two");
    assert!(matches!(modal.mode, Mode::Default { .. }));
}

#[test]
fn stale_nickname_edit_is_absorbed() {
    let mut reg = registry_with(&["one"]);
    let mut modal = RemoteServerProjects::new(&reg);
    modal.handle(Event::SelectServer { index: 0 }, &reg);
    modal.handle(Event::StartEditNickname, &reg);
    modal.handle(Event::EditNicknameBuffer { text: String::from("name") }, &reg);

    // The server vanishes while the nickname is being typed.
    reg.remove_server(0);

    let acts = modal.handle(Event::Confirm, &reg);
    assert!(acts.is_empty());
    assert!(matches!(modal.mode, Mode::Default { .. }));
    assert_eq!(reg.server_count(), 0);
}

#[test]
fn picking_paths_persists_project_and_opens_workspace() {
    let mut reg = registry_with(&["one"]);
    let mut modal = RemoteServerProjects::project_picker(0, options("ssh one"));
    let acts = modal.handle(
        Event::PathsSelected { paths: vec![String::from("/srv/app")] },
        &reg,
    );
    let rest = apply_updates(&mut reg, acts);
    assert_eq!(reg.server_at(0).projects.len(), 1);
    assert_eq!(reg.server_at(0).projects[0].paths, vec![String::from("/srv/app")]);
    match rest.as_slice() {
        [Action::OpenWorkspace { server_index: 0, paths }, Action::Dismiss] => {
            assert_eq!(paths, &vec![String::from("/srv/app")]);
        },
        other => panic!("unexpected actions: {} left", other.len()),
    }
}

#[test]
fn abandoned_picker_returns_to_the_listing() {
    let reg = registry_with(&["one"]);
    let mut modal = RemoteServerProjects::project_picker(0, options("ssh one"));
    let acts = modal.handle(Event::SelectionCancelled, &reg);
    assert!(acts.is_empty());
    assert!(matches!(modal.mode, Mode::Default { .. }));
}

#[test]
fn open_folder_connects_and_dismisses() {
    let reg = registry_with(&["one"]);
    let mut modal = RemoteServerProjects::new(&reg);
    let acts = modal.handle(Event::OpenFolder { index: 0 }, &reg);
    match acts.as_slice() {
        [Action::BeginProjectConnect { server_index: 0, options }, Action::Dismiss] => {
            assert_eq!(options.host, "one");
        },
        other => panic!("unexpected actions: {} in all", other.len()),
    }
    // A stale index does nothing.
    let acts = modal.handle(Event::OpenFolder { index: 9 }, &reg);
    assert!(acts.is_empty());
}

#[test]
fn open_saved_project_hands_over_its_paths() {
    let mut reg = registry_with(&["one"]);
    reg.add_project(0, &ProjectRecord { paths: vec![String::from("/srv/app")] });
    let mut modal = RemoteServerProjects::new(&reg);
    let acts = modal.handle(Event::OpenProject { server_index: 0, project_index: 0 }, &reg);
    match acts.as_slice() {
        [Action::OpenSshProject { server_index: 0, options, paths }, Action::Dismiss] => {
            assert_eq!(options.host, "one");
            assert_eq!(paths, &vec![String::from("/srv/app")]);
        },
        other => panic!("unexpected actions: {} in all", other.len()),
    }
}

#[test]
fn deleting_a_listed_project_updates_the_registry() {
    let mut reg = registry_with(&["one"]);
    reg.add_project(0, &ProjectRecord { paths: vec![String::from("/srv/app")] });
    let mut modal = RemoteServerProjects::new(&reg);
    modal.reconcile(&reg);
    let acts = modal.handle(Event::RemoveProject { server_index: 0, project_index: 0 }, &reg);
    let rest = apply_updates(&mut reg, acts);
    assert!(rest.is_empty());
    assert!(reg.server_at(0).projects.is_empty());
}

#[test]
fn clicking_outside_dismisses_only_the_listing() {
    let reg = registry_with(&["one"]);
    let mut modal = RemoteServerProjects::new(&reg);
    let acts = modal.handle(Event::ClickOutside, &reg);
    assert!(matches!(acts.as_slice(), [Action::Dismiss]));

    modal.handle(Event::StartCreate, &reg);
    let acts = modal.handle(Event::ClickOutside, &reg);
    assert!(acts.is_empty());
}

#[test]
fn cancel_from_listing_dismisses_and_from_elsewhere_returns() {
    let reg = registry_with(&["one"]);
    let mut modal = RemoteServerProjects::new(&reg);
    let acts = modal.handle(Event::Cancel, &reg);
    assert!(matches!(acts.as_slice(), [Action::Dismiss]));

    modal.handle(Event::SelectServer { index: 0 }, &reg);
    let acts = modal.handle(Event::Cancel, &reg);
    assert!(acts.is_empty());
    assert!(matches!(modal.mode, Mode::Default { .. }));
}

#[test]
fn user_cancelled_failure_surfaces_no_error() {
    let reg = ServerRegistry::new();
    let mut modal = RemoteServerProjects::new(&reg);
    modal.handle(Event::StartCreate, &reg);
    modal.handle(Event::EditAddress { text: String::from("ssh h") }, &reg);
    modal.handle(Event::Confirm, &reg);
    modal.handle(
        Event::AttemptFinished { outcome: Err(ConnectFailure::UserCancelled) },
        &reg,
    );
    let (text, error, attempt, read_only) = address_state(&modal);
    assert_eq!(text, "ssh h");
    assert_eq!(error, None);
    assert!(!attempt && !read_only);
}

#[test]
fn spurious_attempt_completion_changes_nothing() {
    let reg = registry_with(&["one"]);
    let mut modal = RemoteServerProjects::new(&reg);
    let acts = modal.handle(
        Event::AttemptFinished { outcome: Ok(ConnectionSession { id: 3 }) },
        &reg,
    );
    assert!(acts.is_empty());
    assert!(modal.retained_connections.is_empty());
    assert!(matches!(modal.mode, Mode::Default { .. }));
}

#[test]
fn sessions_survive_mode_changes() {
    let mut reg = ServerRegistry::new();
    let mut modal = RemoteServerProjects::new(&reg);
    modal.handle(Event::StartCreate, &reg);
    modal.handle(Event::EditAddress { text: String::from("ssh one") }, &reg);
    modal.handle(Event::Confirm, &reg);
    let acts = modal.handle(
        Event::AttemptFinished { outcome: Ok(ConnectionSession { id: 1 }) },
        &reg,
    );
    apply_updates(&mut reg, acts);
    modal.handle(Event::StartCreate, &reg);
    modal.handle(Event::Cancel, &reg);
    modal.reconcile(&reg);
    assert_eq!(modal.retained_connections.len(), 1);
}
