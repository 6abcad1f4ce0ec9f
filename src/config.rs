use vstd::prelude::*;
use vstd::string::StringExecFns;

verus! {

/// A named remote location; a repository's URL is the base address joined
/// with the repository's short name.
#[derive(Clone, Debug, PartialEq, Eq)]
pub struct Remote {
    pub base_addr: String,
    pub name: String,
}

/// One workspace as declared: paths may hold environment references.
#[derive(Clone, Debug)]
pub struct WorkspaceConfig {
    pub path: String,
    pub ssh_key_path: String,
    pub repos: Vec<String>,
    pub origin: Remote,
    pub remotes: Vec<Remote>,
}

/// A workspace whose path has been expanded.
#[derive(Clone, Debug)]
pub struct Workspace {
    pub workspace_path: String,
    pub ssh_key_path: String,
    pub repos: Vec<String>,
    pub origin: Remote,
    pub remotes: Vec<Remote>,
}

/// Every failure that ends a run.
#[derive(Clone, Debug, PartialEq, Eq)]
pub enum SetupError {
    /// A path refers to an environment variable that cannot be read.
    Expand { var_name: String },
    /// The remote asked for credentials without naming a user.
    MissingUsername,
    /// The configured key path does not expand.
    SshKey { var_name: String },
    DirectoryCreate { path: String },
    Clone { repo: String },
    RenameOrigin { repo: String, name: String },
    RemoteCreate { repo: String, name: String },
}

/// The name git gives to the remote a repository was cloned from.
pub open spec fn default_remote() -> Seq<char> {
    seq!['o', 'r', 'i', 'g', 'i', 'n']
}

/// The default remote name as a `String`.
pub fn default_remote_name() -> (r: String)
    ensures
        r@ == default_remote(),
{
    let r = String::from_str("origin");
    proof {
        reveal_strlit("origin");
        assert(r@ =~= default_remote());
    }
    r
}

/// Whether `name` is the default remote name.
pub fn is_default_remote(name: &String) -> (r: bool)
    ensures
        r == (name@ == default_remote()),
{
    let d = default_remote_name();
    name.eq(&d)
}

pub open spec fn has_dollar(s: Seq<char>) -> bool {
    exists|i: int| 0 <= i < s.len() && s[i] == '$'
}

/// The URL of repository `repo` under the base address `base`.
pub open spec fn url_of(base: Seq<char>, repo: Seq<char>) -> Seq<char> {
    base + seq!['/'] + repo
}

/// Relies on shellexpand::env: it returns its input unchanged when the input
/// holds no `$`; a failure names the variable that could not be read.
#[verifier::external_body]
pub(crate) fn expand_env(s: &str) -> (r: Result<String, String>)
    ensures
        !has_dollar(s@) ==> (r is Ok && r->Ok_0@ == s@),
{
    match shellexpand::env(s) {
        Ok(c) => Ok(c.into_owned()),
        Err(e) => Err(e.var_name),
    }
}

/// Joins a base address and a repository name with a `/`.
pub fn remote_url(base: &String, repo: &String) -> (r: String)
    ensures
        r@ == url_of(base@, repo@),
{
    let r = base.clone().concat("/");
    proof { reveal_strlit("/"); }
    r.concat(repo.as_str())
}

impl Workspace {
    /// Whether this workspace carries the declaration of `config` unchanged,
    /// but for its path.
    pub open spec fn declared_by(&self, config: WorkspaceConfig) -> bool {
        &&& self.ssh_key_path == config.ssh_key_path
        &&& self.repos == config.repos
        &&& self.origin == config.origin
        &&& self.remotes == config.remotes
    }

    /// Completes the resolution of `config` once its path has been expanded
    /// (`Err` carries the name of the variable that could not be read).
    pub fn resolve(config: WorkspaceConfig, expanded_path: Result<String, String>) -> (r: Result<
        Workspace,
        SetupError,
    >)
        ensures
            expanded_path is Ok ==> (r is Ok && r->Ok_0.workspace_path == expanded_path->Ok_0
                && r->Ok_0.declared_by(config)),
            expanded_path is Err ==> r == Err::<Workspace, SetupError>(
                SetupError::Expand { var_name: expanded_path->Err_0 },
            ),
    {
        match expanded_path {
            Ok(path) => Ok(
                Workspace {
                    workspace_path: path,
                    ssh_key_path: config.ssh_key_path,
                    repos: config.repos,
                    origin: config.origin,
                    remotes: config.remotes,
                },
            ),
            Err(var_name) => Err(SetupError::Expand { var_name }),
        }
    }

    /// Resolves `config`, expanding environment references in its path.
    pub fn from_config(config: WorkspaceConfig) -> (r: Result<Workspace, SetupError>)
        ensures
            r is Ok ==> r->Ok_0.declared_by(config),
            r is Err ==> (r->Err_0 is Expand && has_dollar(config.path@)),
            !has_dollar(config.path@) ==> (r is Ok && r->Ok_0.workspace_path@ == config.path@),
    {
        let expanded = expand_env(config.path.as_str());
        Workspace::resolve(config, expanded)
    }
}

} // verus!
