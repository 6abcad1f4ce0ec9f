use std::collections::BTreeMap;

use workspace_setup::config::{Remote, Workspace, WorkspaceConfig};
use workspace_setup::reconcile::{Action, Reconciler};

/// Repositories by name, each with its remotes by name.
type Disk = BTreeMap<String, BTreeMap<String, String>>;

#[derive(Clone, Debug, PartialEq)]
struct FakeWorld {
    dir: bool,
    repos: Disk,
    clones: usize,
    created_remotes: usize,
}

fn s(x: &str) -> String {
    x.to_string()
}

fn declared(origin_name: &str) -> Workspace {
    Workspace::from_config(WorkspaceConfig {
        path: s("/tmp/ws"),
        ssh_key_path: s("/keys/id"),
        repos: vec![s("app"), s("lib")],
        origin: Remote { base_addr: s("git@host:org"), name: s(origin_name) },
        remotes: vec![
            Remote { base_addr: s("git@host2:org"), name: s("upstream") },
            Remote { base_addr: s("git@fork:me"), name: s("fork") },
        ],
    })
    .unwrap()
}

/// Runs one reconciliation against the in-memory world and tells whether it
/// finished.
fn reconcile(ws: Workspace, world: &mut FakeWorld) -> bool {
    let mut r = Reconciler::new(ws);
    loop {
        let ok = match r.action() {
            Action::Finish => return true,
            Action::Abort { .. } => return false,
            Action::CheckDir { .. } => world.dir,
            Action::CreateDir { .. } => {
                world.dir = true;
                true
            }
            Action::OpenRepo { repo } => world.repos.contains_key(&repo),
            Action::CloneRepo { repo, url } => {
                world.clones += 1;
                let mut remotes = BTreeMap::new();
                remotes.insert(s("origin"), url);
                world.repos.insert(repo, remotes);
                true
            }
            Action::RenameRemote { repo, from, to } => {
                let remotes = world.repos.get_mut(&repo).unwrap();
                let url = remotes.remove(&from).unwrap();
                remotes.insert(to, url);
                true
            }
            Action::FindRemote { repo, name } => world.repos[&repo].contains_key(&name),
            Action::CreateRemote { repo, name, url } => {
                world.created_remotes += 1;
                let remotes = world.repos.get_mut(&repo).unwrap();
                assert!(!remotes.contains_key(&name));
                remotes.insert(name, url);
                true
            }
        };
        r.step(ok);
    }
}

fn empty_world() -> FakeWorld {
    FakeWorld { dir: false, repos: BTreeMap::new(), clones: 0, created_remotes: 0 }
}

#[test]
fn second_run_changes_nothing() {
    let mut world = empty_world();
    assert!(reconcile(declared("origin"), &mut world));
    let after_first = world.clone();
    assert_eq!(after_first.clones, 2);
    assert_eq!(after_first.created_remotes, 4);
    assert!(reconcile(declared("origin"), &mut world));
    assert_eq!(world, after_first);
}

#[test]
fn missing_remotes_get_base_and_repo_name() {
    let mut world = empty_world();
    assert!(reconcile(declared("origin"), &mut world));
    assert_eq!(world.repos["lib"]["upstream"], "git@host2:org/lib");
    assert_eq!(world.repos["app"]["fork"], "git@fork:me/app");
    assert_eq!(world.repos["app"]["origin"], "git@host:org/app");
}

#[test]
fn existing_repo_and_remote_are_left_alone() {
    let mut world = empty_world();
    world.dir = true;
    let mut remotes = BTreeMap::new();
    remotes.insert(s("upstream"), s("git@elsewhere:x/app"));
    world.repos.insert(s("app"), remotes);
    assert!(reconcile(declared("origin"), &mut world));
    assert_eq!(world.clones, 1);
    assert_eq!(world.repos["app"]["upstream"], "git@elsewhere:x/app");
    assert_eq!(world.repos["app"]["fork"], "git@fork:me/app");
    assert!(!world.repos["app"].contains_key("origin"));
}

#[test]
fn renamed_origin_keeps_clone_url() {
    let mut world = empty_world();
    assert!(reconcile(declared("me"), &mut world));
    let app = &world.repos["app"];
    assert_eq!(app["me"], "git@host:org/app");
    assert!(!app.contains_key("origin"));
    let after_first = world.clone();
    assert!(reconcile(declared("me"), &mut world));
    assert_eq!(world, after_first);
}
