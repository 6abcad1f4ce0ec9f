use vstd::prelude::*;
use crate::config::{
    Workspace,
    SetupError,
    url_of,
    default_remote,
    default_remote_name,
    is_default_remote,
    remote_url,
};

verus! {

/// Where a run stands: the operation whose outcome it waits for, or how it
/// ended.
#[derive(Clone, Copy, PartialEq, Eq, Structural, Debug)]
pub enum Stage {
    CheckDir,
    CreateDir,
    OpenRepo,
    CloneRepo,
    RenameOrigin,
    FindRemote,
    CreateRemote,
    Done,
    DirFailed,
    CloneFailed,
    RenameFailed,
    RemoteFailed,
}

/// An operation the caller is asked to perform, or the end of the run.
#[derive(Clone, Debug, PartialEq, Eq)]
pub enum Action {
    /// Report whether the workspace directory exists.
    CheckDir { path: String },
    /// Create the workspace directory and its parents; report success.
    CreateDir { path: String },
    /// Open `<workspace>/<repo>` as a repository; report success.
    OpenRepo { repo: String },
    /// Clone `url` into `<workspace>/<repo>`; report success.
    CloneRepo { repo: String, url: String },
    /// Rename remote `from` of `repo` to `to`; report success.
    RenameRemote { repo: String, from: String, to: String },
    /// Report whether `repo` has a remote called `name`.
    FindRemote { repo: String, name: String },
    /// Add remote `name` with `url` to `repo`; report success.
    CreateRemote { repo: String, name: String, url: String },
    /// Every declared repository and remote is in place.
    Finish,
    /// The run failed and stops here.
    Abort { error: SetupError },
}

/// A failure, in terms of plain sequences.
pub enum ErrorView {
    Expand { var_name: Seq<char> },
    MissingUsername,
    SshKey { var_name: Seq<char> },
    DirectoryCreate { path: Seq<char> },
    Clone { repo: Seq<char> },
    RenameOrigin { repo: Seq<char>, name: Seq<char> },
    RemoteCreate { repo: Seq<char>, name: Seq<char> },
}

impl View for SetupError {
    type V = ErrorView;

    open spec fn view(&self) -> ErrorView {
        match self {
            SetupError::Expand { var_name } => ErrorView::Expand { var_name: var_name@ },
            SetupError::MissingUsername => ErrorView::MissingUsername,
            SetupError::SshKey { var_name } => ErrorView::SshKey { var_name: var_name@ },
            SetupError::DirectoryCreate { path } => ErrorView::DirectoryCreate { path: path@ },
            SetupError::Clone { repo } => ErrorView::Clone { repo: repo@ },
            SetupError::RenameOrigin { repo, name } => ErrorView::RenameOrigin {
                repo: repo@,
                name: name@,
            },
            SetupError::RemoteCreate { repo, name } => ErrorView::RemoteCreate {
                repo: repo@,
                name: name@,
            },
        }
    }
}

/// An action, in terms of plain sequences.
pub enum ActionView {
    CheckDir { path: Seq<char> },
    CreateDir { path: Seq<char> },
    OpenRepo { repo: Seq<char> },
    CloneRepo { repo: Seq<char>, url: Seq<char> },
    RenameRemote { repo: Seq<char>, from: Seq<char>, to: Seq<char> },
    FindRemote { repo: Seq<char>, name: Seq<char> },
    CreateRemote { repo: Seq<char>, name: Seq<char>, url: Seq<char> },
    Finish,
    Abort { error: ErrorView },
}

impl View for Action {
    type V = ActionView;

    open spec fn view(&self) -> ActionView {
        match self {
            Action::CheckDir { path } => ActionView::CheckDir { path: path@ },
            Action::CreateDir { path } => ActionView::CreateDir { path: path@ },
            Action::OpenRepo { repo } => ActionView::OpenRepo { repo: repo@ },
            Action::CloneRepo { repo, url } => ActionView::CloneRepo { repo: repo@, url: url@ },
            Action::RenameRemote { repo, from, to } => ActionView::RenameRemote {
                repo: repo@,
                from: from@,
                to: to@,
            },
            Action::FindRemote { repo, name } => ActionView::FindRemote { repo: repo@, name: name@ },
            Action::CreateRemote { repo, name, url } => ActionView::CreateRemote {
                repo: repo@,
                name: name@,
                url: url@,
            },
            Action::Finish => ActionView::Finish,
            Action::Abort { error } => ActionView::Abort { error: error@ },
        }
    }
}

/// The declared state of a workspace: its path, its repositories in order,
/// the origin's base address and name, and each additional remote as
/// (name, base address).
pub struct Plan {
    pub path: Seq<char>,
    pub repos: Seq<Seq<char>>,
    pub origin_base: Seq<char>,
    pub origin_name: Seq<char>,
    pub remotes: Seq<(Seq<char>, Seq<char>)>,
}

impl Workspace {
    pub open spec fn plan(&self) -> Plan {
        Plan {
            path: self.workspace_path@,
            repos: self.repos@.map_values(|r: String| r@),
            origin_base: self.origin.base_addr@,
            origin_name: self.origin.name@,
            remotes: self.remotes@.map_values(|r: crate::config::Remote| (r.name@, r.base_addr@)),
        }
    }
}

/// A position in a run: the stage, the index of the repository and the
/// index of the additional remote being worked on.
pub struct Progress {
    pub stage: Stage,
    pub repo: int,
    pub remote: int,
}

/// The indices of `g` are in range for the stage it is in.
pub open spec fn valid(p: Plan, g: Progress) -> bool {
    &&& 0 <= g.repo <= p.repos.len()
    &&& g.stage is Done ==> g.repo == p.repos.len()
    &&& 0 <= g.remote <= p.remotes.len()
    &&& !(g.stage is CheckDir || g.stage is CreateDir || g.stage is Done || g.stage is DirFailed)
        ==> g.repo < p.repos.len()
    &&& (g.stage is FindRemote || g.stage is CreateRemote || g.stage is RemoteFailed) ==> g.remote
        < p.remotes.len()
}

pub open spec fn initial() -> Progress {
    Progress { stage: Stage::CheckDir, repo: 0, remote: 0 }
}

/// Whether the run is over, well or badly.
pub open spec fn is_terminal(s: Stage) -> bool {
    s is Done || s is DirFailed || s is CloneFailed || s is RenameFailed || s is RemoteFailed
}

/// Start work on repository `repo`, or finish when none is left.
pub open spec fn enter_repo(p: Plan, repo: int) -> Progress {
    if repo < p.repos.len() {
        Progress { stage: Stage::OpenRepo, repo, remote: 0 }
    } else {
        Progress { stage: Stage::Done, repo: p.repos.len() as int, remote: 0 }
    }
}

/// Look for additional remote `remote` of repository `repo`, or move on to
/// the next repository when none is left.
pub open spec fn enter_remote(p: Plan, repo: int, remote: int) -> Progress {
    if remote < p.remotes.len() {
        Progress { stage: Stage::FindRemote, repo, remote }
    } else {
        enter_repo(p, repo + 1)
    }
}

/// The position after the caller reports outcome `ok` of the current action.
pub open spec fn next(p: Plan, g: Progress, ok: bool) -> Progress {
    let fail = |s: Stage| Progress { stage: s, repo: g.repo, remote: g.remote };
    match g.stage {
        Stage::CheckDir => if ok {
            enter_repo(p, 0)
        } else {
            fail(Stage::CreateDir)
        },
        Stage::CreateDir => if ok {
            enter_repo(p, 0)
        } else {
            fail(Stage::DirFailed)
        },
        Stage::OpenRepo => if ok {
            enter_remote(p, g.repo, 0)
        } else {
            fail(Stage::CloneRepo)
        },
        Stage::CloneRepo => if !ok {
            fail(Stage::CloneFailed)
        } else if p.origin_name != default_remote() {
            fail(Stage::RenameOrigin)
        } else {
            enter_remote(p, g.repo, 0)
        },
        Stage::RenameOrigin => if ok {
            enter_remote(p, g.repo, 0)
        } else {
            fail(Stage::RenameFailed)
        },
        Stage::FindRemote => if ok {
            enter_remote(p, g.repo, g.remote + 1)
        } else {
            fail(Stage::CreateRemote)
        },
        Stage::CreateRemote => if ok {
            enter_remote(p, g.repo, g.remote + 1)
        } else {
            fail(Stage::RemoteFailed)
        },
        _ => g,
    }
}

/// The action asked for at position `g`.
pub open spec fn action_of(p: Plan, g: Progress) -> ActionView {
    let repo = p.repos[g.repo];
    let remote = p.remotes[g.remote];
    match g.stage {
        Stage::CheckDir => ActionView::CheckDir { path: p.path },
        Stage::CreateDir => ActionView::CreateDir { path: p.path },
        Stage::OpenRepo => ActionView::OpenRepo { repo },
        Stage::CloneRepo => ActionView::CloneRepo { repo, url: url_of(p.origin_base, repo) },
        Stage::RenameOrigin => ActionView::RenameRemote {
            repo,
            from: default_remote(),
            to: p.origin_name,
        },
        Stage::FindRemote => ActionView::FindRemote { repo, name: remote.0 },
        Stage::CreateRemote => ActionView::CreateRemote {
            repo,
            name: remote.0,
            url: url_of(remote.1, repo),
        },
        Stage::Done => ActionView::Finish,
        Stage::DirFailed => ActionView::Abort { error: ErrorView::DirectoryCreate { path: p.path } },
        Stage::CloneFailed => ActionView::Abort { error: ErrorView::Clone { repo } },
        Stage::RenameFailed => ActionView::Abort {
            error: ErrorView::RenameOrigin { repo, name: p.origin_name },
        },
        Stage::RemoteFailed => ActionView::Abort {
            error: ErrorView::RemoteCreate { repo, name: remote.0 },
        },
    }
}

/// Brings one workspace to its declared state, one action at a time: the
/// caller performs `action()` and reports its outcome to `step`.
pub struct Reconciler {
    workspace: Workspace,
    stage: Stage,
    repo: usize,
    remote: usize,
}

impl Reconciler {
    pub closed spec fn plan(&self) -> Plan {
        self.workspace.plan()
    }

    pub closed spec fn progress(&self) -> Progress {
        Progress { stage: self.stage, repo: self.repo as int, remote: self.remote as int }
    }

    pub open spec fn wf(&self) -> bool {
        valid(self.plan(), self.progress())
    }

    proof fn lemma_plan_lengths(&self)
        ensures
            self.plan().repos.len() == self.workspace.repos.len(),
            self.plan().remotes.len() == self.workspace.remotes.len(),
    {
    }

    /// A run over `workspace`, about to check its directory.
    pub fn new(workspace: Workspace) -> (r: Reconciler)
        ensures
            r.plan() == workspace.plan(),
            r.progress() == initial(),
            r.wf(),
    {
        Reconciler { workspace, stage: Stage::CheckDir, repo: 0, remote: 0 }
    }

    /// The current stage.
    pub fn stage(&self) -> (r: Stage)
        ensures
            r == self.progress().stage,
    {
        self.stage
    }

    /// Whether the run is over.
    pub fn is_finished(&self) -> (r: bool)
        ensures
            r == is_terminal(self.progress().stage),
    {
        match self.stage {
            Stage::Done | Stage::DirFailed | Stage::CloneFailed | Stage::RenameFailed
            | Stage::RemoteFailed => true,
            _ => false,
        }
    }

    /// The action the run asks for now.
    pub fn action(&self) -> (r: Action)
        requires
            self.wf(),
        ensures
            r@ == action_of(self.plan(), self.progress()),
    {
        let ws = &self.workspace;
        match self.stage {
            Stage::CheckDir => Action::CheckDir { path: ws.workspace_path.clone() },
            Stage::CreateDir => Action::CreateDir { path: ws.workspace_path.clone() },
            Stage::OpenRepo => Action::OpenRepo { repo: ws.repos[self.repo].clone() },
            Stage::CloneRepo => {
                let repo = &ws.repos[self.repo];
                Action::CloneRepo {
                    repo: repo.clone(),
                    url: remote_url(&ws.origin.base_addr, repo),
                }
            },
            Stage::RenameOrigin => Action::RenameRemote {
                repo: ws.repos[self.repo].clone(),
                from: default_remote_name(),
                to: ws.origin.name.clone(),
            },
            Stage::FindRemote => Action::FindRemote {
                repo: ws.repos[self.repo].clone(),
                name: ws.remotes[self.remote].name.clone(),
            },
            Stage::CreateRemote => {
                let repo = &ws.repos[self.repo];
                let remote = &ws.remotes[self.remote];
                Action::CreateRemote {
                    repo: repo.clone(),
                    name: remote.name.clone(),
                    url: remote_url(&remote.base_addr, repo),
                }
            },
            Stage::Done => Action::Finish,
            Stage::DirFailed => Action::Abort {
                error: SetupError::DirectoryCreate { path: ws.workspace_path.clone() },
            },
            Stage::CloneFailed => Action::Abort {
                error: SetupError::Clone { repo: ws.repos[self.repo].clone() },
            },
            Stage::RenameFailed => Action::Abort {
                error: SetupError::RenameOrigin {
                    repo: ws.repos[self.repo].clone(),
                    name: ws.origin.name.clone(),
                },
            },
            Stage::RemoteFailed => Action::Abort {
                error: SetupError::RemoteCreate {
                    repo: ws.repos[self.repo].clone(),
                    name: ws.remotes[self.remote].name.clone(),
                },
            },
        }
    }

    fn enter_repo(&mut self, repo: usize)
        requires
            repo <= old(self).plan().repos.len(),
        ensures
            final(self).plan() == old(self).plan(),
            final(self).progress() == enter_repo(old(self).plan(), repo as int),
    {
        if repo < self.workspace.repos.len() {
            self.stage = Stage::OpenRepo;
            self.repo = repo;
        } else {
            self.stage = Stage::Done;
            self.repo = self.workspace.repos.len();
        }
        self.remote = 0;
    }

    fn enter_remote(&mut self, repo: usize, remote: usize)
        requires
            repo < old(self).plan().repos.len(),
            remote <= old(self).plan().remotes.len(),
        ensures
            final(self).plan() == old(self).plan(),
            final(self).progress() == enter_remote(old(self).plan(), repo as int, remote as int),
    {
        proof {
            self.lemma_plan_lengths();
        }
        if remote < self.workspace.remotes.len() {
            self.stage = Stage::FindRemote;
            self.repo = repo;
            self.remote = remote;
        } else {
            self.enter_repo(repo + 1);
        }
    }

    /// Takes the outcome of the current action: whether the directory
    /// exists, whether a repository opened, whether a remote was found, or
    /// whether a creation, clone or rename succeeded.
    pub fn step(&mut self, ok: bool)
        requires
            old(self).wf(),
        ensures
            final(self).wf(),
            final(self).plan() == old(self).plan(),
            final(self).progress() == next(old(self).plan(), old(self).progress(), ok),
    {
        proof {
            self.lemma_plan_lengths();
        }
        let repo = self.repo;
        let remote = self.remote;
        match self.stage {
            Stage::CheckDir => if ok {
                self.enter_repo(0);
            } else {
                self.stage = Stage::CreateDir;
            },
            Stage::CreateDir => if ok {
                self.enter_repo(0);
            } else {
                self.stage = Stage::DirFailed;
            },
            Stage::OpenRepo => if ok {
                self.enter_remote(repo, 0);
            } else {
                self.stage = Stage::CloneRepo;
            },
            Stage::CloneRepo => if !ok {
                self.stage = Stage::CloneFailed;
            } else if !is_default_remote(&self.workspace.origin.name) {
                self.stage = Stage::RenameOrigin;
            } else {
                self.enter_remote(repo, 0);
            },
            Stage::RenameOrigin => if ok {
                self.enter_remote(repo, 0);
            } else {
                self.stage = Stage::RenameFailed;
            },
            Stage::FindRemote => if ok {
                self.enter_remote(repo, remote + 1);
            } else {
                self.stage = Stage::CreateRemote;
            },
            Stage::CreateRemote => if ok {
                self.enter_remote(repo, remote + 1);
            } else {
                self.stage = Stage::RemoteFailed;
            },
            _ => {},
        }
    }
}

} // verus!
