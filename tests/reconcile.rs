use workspace_setup::config::{Remote, SetupError, Workspace, WorkspaceConfig};
use workspace_setup::reconcile::{Action, Reconciler, Stage};

fn s(x: &str) -> String {
    x.to_string()
}

fn remote(base_addr: &str, name: &str) -> Remote {
    Remote { base_addr: s(base_addr), name: s(name) }
}

fn app_config(origin_name: &str) -> WorkspaceConfig {
    WorkspaceConfig {
        path: s("/tmp/ws"),
        ssh_key_path: s("/home/dev/.ssh/id_ed25519"),
        repos: vec![s("app")],
        origin: remote("git@host:org", origin_name),
        remotes: vec![remote("git@host2:org", "upstream")],
    }
}

fn workspace(config: WorkspaceConfig) -> Workspace {
    Workspace::from_config(config).unwrap()
}

/// Feeds the outcomes in order and returns every action asked for, the last
/// one being `Finish` or `Abort`.
fn drive(ws: Workspace, outcomes: &[bool]) -> Vec<Action> {
    let mut r = Reconciler::new(ws);
    let mut actions = Vec::new();
    let mut i = 0;
    while !r.is_finished() {
        actions.push(r.action());
        r.step(outcomes[i]);
        i += 1;
    }
    assert_eq!(i, outcomes.len());
    actions.push(r.action());
    actions
}

#[test]
fn fresh_workspace_is_created_cloned_and_wired() {
    let actions = drive(workspace(app_config("origin")), &[false, true, false, true, false, true]);
    assert_eq!(
        actions,
        vec![
            Action::CheckDir { path: s("/tmp/ws") },
            Action::CreateDir { path: s("/tmp/ws") },
            Action::OpenRepo { repo: s("app") },
            Action::CloneRepo { repo: s("app"), url: s("git@host:org/app") },
            Action::FindRemote { repo: s("app"), name: s("upstream") },
            Action::CreateRemote { repo: s("app"), name: s("upstream"), url: s("git@host2:org/app") },
            Action::Finish,
        ]
    );
}

#[test]
fn rerun_on_populated_workspace_does_nothing() {
    let actions = drive(workspace(app_config("origin")), &[true, true, true]);
    assert_eq!(
        actions,
        vec![
            Action::CheckDir { path: s("/tmp/ws") },
            Action::OpenRepo { repo: s("app") },
            Action::FindRemote { repo: s("app"), name: s("upstream") },
            Action::Finish,
        ]
    );
}

#[test]
fn origin_with_other_name_is_renamed_after_clone() {
    let actions = drive(workspace(app_config("me")), &[true, false, true, true, true]);
    assert_eq!(actions[2], Action::CloneRepo { repo: s("app"), url: s("git@host:org/app") });
    assert_eq!(
        actions[3],
        Action::RenameRemote { repo: s("app"), from: s("origin"), to: s("me") }
    );
    assert_eq!(actions[4], Action::FindRemote { repo: s("app"), name: s("upstream") });
    assert_eq!(actions[5], Action::Finish);
}

#[test]
fn opened_repository_is_not_renamed() {
    let actions = drive(workspace(app_config("me")), &[true, true, true]);
    assert_eq!(actions.len(), 4);
    assert!(!actions.iter().any(|a| matches!(a, Action::RenameRemote { .. })));
}

#[test]
fn repositories_are_processed_in_declared_order() {
    let mut config = app_config("origin");
    config.repos = vec![s("b"), s("a")];
    config.remotes = vec![remote("x:o", "one"), remote("y:o", "two")];
    let actions = drive(workspace(config), &[true, true, true, false, true, true, true, true]);
    assert_eq!(
        actions,
        vec![
            Action::CheckDir { path: s("/tmp/ws") },
            Action::OpenRepo { repo: s("b") },
            Action::FindRemote { repo: s("b"), name: s("one") },
            Action::FindRemote { repo: s("b"), name: s("two") },
            Action::CreateRemote { repo: s("b"), name: s("two"), url: s("y:o/b") },
            Action::OpenRepo { repo: s("a") },
            Action::FindRemote { repo: s("a"), name: s("one") },
            Action::FindRemote { repo: s("a"), name: s("two") },
            Action::Finish,
        ]
    );
}

#[test]
fn no_repositories_finish_after_directory() {
    let mut config = app_config("origin");
    config.repos = vec![];
    let actions = drive(workspace(config), &[true]);
    assert_eq!(actions, vec![Action::CheckDir { path: s("/tmp/ws") }, Action::Finish]);
}

#[test]
fn no_additional_remotes_moves_to_next_repository() {
    let mut config = app_config("origin");
    config.repos = vec![s("a"), s("b")];
    config.remotes = vec![];
    let actions = drive(workspace(config), &[true, false, true, true]);
    assert_eq!(actions[1], Action::OpenRepo { repo: s("a") });
    assert_eq!(actions[2], Action::CloneRepo { repo: s("a"), url: s("git@host:org/a") });
    assert_eq!(actions[3], Action::OpenRepo { repo: s("b") });
    assert_eq!(actions[4], Action::Finish);
}

#[test]
fn directory_failure_aborts() {
    let actions = drive(workspace(app_config("origin")), &[false, false]);
    assert_eq!(
        actions.last().unwrap(),
        &Action::Abort { error: SetupError::DirectoryCreate { path: s("/tmp/ws") } }
    );
}

#[test]
fn clone_failure_aborts() {
    let actions = drive(workspace(app_config("origin")), &[true, false, false]);
    assert_eq!(actions.last().unwrap(), &Action::Abort { error: SetupError::Clone { repo: s("app") } });
}

#[test]
fn rename_failure_aborts() {
    let actions = drive(workspace(app_config("me")), &[true, false, true, false]);
    assert_eq!(
        actions.last().unwrap(),
        &Action::Abort { error: SetupError::RenameOrigin { repo: s("app"), name: s("me") } }
    );
}

#[test]
fn remote_creation_failure_aborts() {
    let actions = drive(workspace(app_config("origin")), &[true, true, false, false]);
    assert_eq!(
        actions.last().unwrap(),
        &Action::Abort { error: SetupError::RemoteCreate { repo: s("app"), name: s("upstream") } }
    );
}

#[test]
fn finished_run_ignores_further_outcomes() {
    let mut r = Reconciler::new(workspace(app_config("origin")));
    for ok in [true, true, true] {
        r.step(ok);
    }
    assert_eq!(r.stage(), Stage::Done);
    r.step(false);
    assert_eq!(r.stage(), Stage::Done);
    assert_eq!(r.action(), Action::Finish);
}

#[test]
fn duplicate_remote_name_is_created_once() {
    let mut config = app_config("origin");
    config.remotes = vec![remote("x:o", "up"), remote("y:o", "up")];
    // the second lookup finds the remote the first creation added
    let actions = drive(workspace(config), &[true, true, false, true, true]);
    let creates: Vec<&Action> =
        actions.iter().filter(|a| matches!(a, Action::CreateRemote { .. })).collect();
    assert_eq!(creates, vec![&Action::CreateRemote { repo: s("app"), name: s("up"), url: s("x:o/app") }]);
}
