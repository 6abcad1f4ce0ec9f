use vstd::prelude::*;
use crate::config::{url_of, default_remote};
use crate::reconcile::{
    ActionView,
    Plan,
    Progress,
    Stage,
    action_of,
    initial,
    next,
    valid,
};

verus! {

/// The state of a workspace on disk as far as a run can see it: whether its
/// directory exists, and for each repository present, its remotes by name
/// with their URLs.
pub struct World {
    pub dir: bool,
    pub repos: Map<Seq<char>, Map<Seq<char>, Seq<char>>>,
}

/// The remotes of `repo`, none when it is absent.
pub open spec fn remotes_of(w: World, repo: Seq<char>) -> Map<Seq<char>, Seq<char>> {
    if w.repos.contains_key(repo) {
        w.repos[repo]
    } else {
        Map::empty()
    }
}

/// What a caller reports for action `a` when every operation that is asked
/// for succeeds: checks and lookups answer from `w`.
pub open spec fn outcome(w: World, a: ActionView) -> bool {
    match a {
        ActionView::CheckDir { .. } => w.dir,
        ActionView::OpenRepo { repo } => w.repos.contains_key(repo),
        ActionView::FindRemote { repo, name } => remotes_of(w, repo).contains_key(name),
        _ => true,
    }
}

/// The world after action `a` succeeds. A clone replaces whatever stood at
/// the repository's place, and a created remote replaces one of the same
/// name: nothing here spares existing state, so what is spared is spared by
/// the run.
pub open spec fn apply(w: World, a: ActionView) -> World {
    match a {
        ActionView::CreateDir { .. } => World { dir: true, repos: w.repos },
        ActionView::CloneRepo { repo, url } => World {
            dir: w.dir,
            repos: w.repos.insert(repo, map![default_remote() => url]),
        },
        ActionView::RenameRemote { repo, from, to } => {
            let r = remotes_of(w, repo);
            if r.contains_key(from) {
                World { dir: w.dir, repos: w.repos.insert(repo, r.remove(from).insert(to, r[from])) }
            } else {
                w
            }
        },
        ActionView::CreateRemote { repo, name, url } => World {
            dir: w.dir,
            repos: w.repos.insert(repo, remotes_of(w, repo).insert(name, url)),
        },
        _ => w,
    }
}

/// Position and world after `n` steps from `g` in `w`.
pub open spec fn run(p: Plan, g: Progress, w: World, n: nat) -> (Progress, World)
    decreases n,
{
    if n == 0 {
        (g, w)
    } else {
        let a = action_of(p, g);
        run(p, next(p, g, outcome(w, a)), apply(w, a), (n - 1) as nat)
    }
}

/// What stays true along a run that started in `w0`.
pub open spec fn preserves(p: Plan, w0: World, g: Progress, w: World) -> bool {
    &&& valid(p, g)
    &&& forall|r: Seq<char>| #[trigger] w0.repos.contains_key(r) ==> w.repos.contains_key(r)
    &&& forall|r: Seq<char>, n: Seq<char>|
        #![trigger w0.repos[r].contains_key(n)]
        w0.repos.contains_key(r) && w0.repos[r].contains_key(n) ==> (w.repos[r].contains_key(n)
            && w.repos[r][n] == w0.repos[r][n])
    &&& g.stage is CloneRepo ==> !w.repos.contains_key(p.repos[g.repo])
    &&& g.stage is RenameOrigin ==> !w0.repos.contains_key(p.repos[g.repo])
    &&& g.stage is CreateRemote ==> !remotes_of(w, p.repos[g.repo]).contains_key(
        p.remotes[g.remote].0,
    )
}

proof fn lemma_preserves_step(p: Plan, w0: World, g: Progress, w: World)
    requires
        preserves(p, w0, g, w),
    ensures
        ({
            let a = action_of(p, g);
            preserves(p, w0, next(p, g, outcome(w, a)), apply(w, a))
        }),
{
    let a = action_of(p, g);
    let w1 = apply(w, a);
    assert forall|r: Seq<char>, n: Seq<char>|
        #![trigger w0.repos[r].contains_key(n)]
        w0.repos.contains_key(r) && w0.repos[r].contains_key(n) implies (w1.repos[r].contains_key(n)
        && w1.repos[r][n] == w0.repos[r][n]) by {
        assert(w.repos.contains_key(r));
    }
}

proof fn lemma_preserves_run(p: Plan, w0: World, g: Progress, w: World, n: nat)
    requires
        preserves(p, w0, g, w),
    ensures
        preserves(p, w0, run(p, g, w, n).0, run(p, g, w, n).1),
    decreases n,
{
    if n > 0 {
        let a = action_of(p, g);
        lemma_preserves_step(p, w0, g, w);
        lemma_preserves_run(p, w0, next(p, g, outcome(w, a)), apply(w, a), (n - 1) as nat);
    }
}

/// A repository that is present before a run is never cloned by it: at no
/// step does the run ask for a clone of it.
pub proof fn lemma_present_repo_never_cloned(p: Plan, w0: World, repo: Seq<char>, n: nat)
    requires
        w0.repos.contains_key(repo),
    ensures
        action_of(p, run(p, initial(), w0, n).0) matches ActionView::CloneRepo { repo: r, .. }
            ==> r != repo,
{
    lemma_preserves_run(p, w0, initial(), w0, n);
}

/// A remote that a repository has before a run keeps its URL throughout the
/// run.
pub proof fn lemma_existing_remote_kept(
    p: Plan,
    w0: World,
    repo: Seq<char>,
    name: Seq<char>,
    n: nat,
)
    requires
        w0.repos.contains_key(repo),
        w0.repos[repo].contains_key(name),
    ensures
        run(p, initial(), w0, n).1.repos[repo].contains_key(name),
        run(p, initial(), w0, n).1.repos[repo][name] == w0.repos[repo][name],
{
    lemma_preserves_run(p, w0, initial(), w0, n);
}

/// A declared remote that a repository lacks is created, under its name,
/// with its base address joined with the repository's name as URL.
pub proof fn lemma_missing_remote_created(p: Plan, g: Progress, w: World)
    requires
        valid(p, g),
        g.stage is FindRemote,
        !remotes_of(w, p.repos[g.repo]).contains_key(p.remotes[g.remote].0),
    ensures
        ({
            let repo = p.repos[g.repo];
            let (name, base) = p.remotes[g.remote];
            let g1 = next(p, g, outcome(w, action_of(p, g)));
            let a = action_of(p, g1);
            &&& a == ActionView::CreateRemote { repo, name, url: url_of(base, repo) }
            &&& apply(w, a).repos[repo].contains_key(name)
            &&& apply(w, a).repos[repo][name] == url_of(base, repo)
        }),
{
}

/// After a fresh clone, an origin declared under another name than the
/// default is renamed: the repository then has that name, not the default,
/// and under it the URL it was cloned from.
pub proof fn lemma_origin_renamed(p: Plan, g: Progress, w: World)
    requires
        valid(p, g),
        g.stage is CloneRepo,
        p.origin_name != default_remote(),
    ensures
        ({
            let repo = p.repos[g.repo];
            let a1 = action_of(p, g);
            let w1 = apply(w, a1);
            let g1 = next(p, g, outcome(w, a1));
            let a2 = action_of(p, g1);
            let w2 = apply(w1, a2);
            &&& a1 == ActionView::CloneRepo { repo, url: url_of(p.origin_base, repo) }
            &&& a2 == ActionView::RenameRemote { repo, from: default_remote(), to: p.origin_name }
            &&& w2.repos[repo].contains_key(p.origin_name)
            &&& !w2.repos[repo].contains_key(default_remote())
            &&& w2.repos[repo][p.origin_name] == url_of(p.origin_base, repo)
        }),
{
    let repo = p.repos[g.repo];
    let w1 = apply(w, action_of(p, g));
    assert(w1.repos[repo].contains_key(default_remote()));
}

/// The declared repositories have distinct names.
pub open spec fn distinct_repos(p: Plan) -> bool {
    forall|a: int, b: int|
        0 <= a < p.repos.len() && 0 <= b < p.repos.len() && a != b ==> #[trigger] p.repos[a]
            != #[trigger] p.repos[b]
}

/// The declared additional remotes have distinct names.
pub open spec fn distinct_remotes(p: Plan) -> bool {
    forall|a: int, b: int|
        0 <= a < p.remotes.len() && 0 <= b < p.remotes.len() && a != b ==> #[trigger] p.remotes[a].0
            != #[trigger] p.remotes[b].0
}

/// The run has dealt with additional remote `j` of repository `i`.
pub open spec fn past(g: Progress, i: int, j: int) -> bool {
    &&& !(g.stage is CheckDir || g.stage is CreateDir || g.stage is DirFailed)
    &&& (g.repo > i || (g.repo == i && (g.stage is FindRemote || g.stage is CreateRemote
        || g.stage is RemoteFailed) && g.remote > j))
}

/// Remote `j` of repository `i` is absent until the run deals with it, and
/// holds its declared URL afterwards.
pub open spec fn tracks(p: Plan, w0: World, i: int, j: int, g: Progress, w: World) -> bool {
    let repo = p.repos[i];
    let (name, base) = p.remotes[j];
    &&& preserves(p, w0, g, w)
    &&& past(g, i, j) ==> (w.repos[repo].contains_key(name) && w.repos[repo][name] == url_of(
        base,
        repo,
    ))
    &&& !past(g, i, j) ==> !remotes_of(w, repo).contains_key(name)
}

proof fn lemma_tracks_step(p: Plan, w0: World, i: int, j: int, g: Progress, w: World)
    requires
        distinct_repos(p),
        distinct_remotes(p),
        0 <= i < p.repos.len(),
        0 <= j < p.remotes.len(),
        w0.repos.contains_key(p.repos[i]),
        tracks(p, w0, i, j, g, w),
    ensures
        ({
            let a = action_of(p, g);
            tracks(p, w0, i, j, next(p, g, outcome(w, a)), apply(w, a))
        }),
{
    let a = action_of(p, g);
    lemma_preserves_step(p, w0, g, w);
    let repo = p.repos[i];
    let name = p.remotes[j].0;
    assert(w.repos.contains_key(repo));
    match g.stage {
        Stage::CloneRepo => {
            assert(p.repos[g.repo] != repo);
        },
        Stage::RenameOrigin => {
            assert(p.repos[g.repo] != repo);
        },
        Stage::CreateRemote => {
            if g.repo != i {
                assert(p.repos[g.repo] != repo);
            } else if g.remote != j {
                assert(p.remotes[g.remote].0 != name);
            }
        },
        _ => {},
    }
}

proof fn lemma_tracks_run(p: Plan, w0: World, i: int, j: int, g: Progress, w: World, n: nat)
    requires
        distinct_repos(p),
        distinct_remotes(p),
        0 <= i < p.repos.len(),
        0 <= j < p.remotes.len(),
        w0.repos.contains_key(p.repos[i]),
        tracks(p, w0, i, j, g, w),
    ensures
        tracks(p, w0, i, j, run(p, g, w, n).0, run(p, g, w, n).1),
    decreases n,
{
    if n > 0 {
        let a = action_of(p, g);
        lemma_tracks_step(p, w0, i, j, g, w);
        lemma_tracks_run(p, w0, i, j, next(p, g, outcome(w, a)), apply(w, a), (n - 1) as nat);
    }
}

/// A declared remote that a repository present before the run lacks is,
/// once the run has finished, found under its name with its base address
/// joined with the repository's name as URL.
pub proof fn lemma_missing_remote_added(p: Plan, w0: World, i: int, j: int, n: nat)
    requires
        distinct_repos(p),
        distinct_remotes(p),
        0 <= i < p.repos.len(),
        0 <= j < p.remotes.len(),
        w0.repos.contains_key(p.repos[i]),
        !w0.repos[p.repos[i]].contains_key(p.remotes[j].0),
    ensures
        ({
            let (g, w) = run(p, initial(), w0, n);
            let repo = p.repos[i];
            let (name, base) = p.remotes[j];
            g.stage is Done ==> (w.repos[repo].contains_key(name) && w.repos[repo][name] == url_of(
                base,
                repo,
            ))
        }),
{
    lemma_tracks_run(p, w0, i, j, initial(), w0, n);
}

/// Whether `w` already is in the state that `p` declares: the directory
/// exists and every declared repository has every declared remote.
pub open spec fn complete(p: Plan, w: World) -> bool {
    &&& w.dir
    &&& forall|i: int|
        #![trigger p.repos[i]]
        0 <= i < p.repos.len() ==> w.repos.contains_key(p.repos[i])
    &&& forall|i: int, j: int|
        #![trigger p.repos[i], p.remotes[j]]
        0 <= i < p.repos.len() && 0 <= j < p.remotes.len() ==> w.repos[p.repos[i]].contains_key(
            p.remotes[j].0,
        )
}

/// The stages that change nothing on disk.
pub open spec fn observing(s: Stage) -> bool {
    s is CheckDir || s is OpenRepo || s is FindRemote || s is Done
}

proof fn lemma_complete_run(p: Plan, g: Progress, w: World, n: nat)
    requires
        complete(p, w),
        valid(p, g),
        observing(g.stage),
    ensures
        run(p, g, w, n).1 == w,
        observing(run(p, g, w, n).0.stage),
    decreases n,
{
    if n > 0 {
        let a = action_of(p, g);
        if g.stage is FindRemote {
            assert(w.repos[p.repos[g.repo]].contains_key(p.remotes[g.remote].0));
        }
        lemma_complete_run(p, next(p, g, outcome(w, a)), apply(w, a), (n - 1) as nat);
    }
}

/// A run over a workspace that already is in its declared state changes
/// nothing: it never creates the directory, clones, renames or adds a
/// remote, and leaves the world as it found it.
pub proof fn lemma_complete_world_unchanged(p: Plan, w: World, n: nat)
    requires
        complete(p, w),
    ensures
        run(p, initial(), w, n).1 == w,
        observing(run(p, initial(), w, n).0.stage),
{
    lemma_complete_run(p, initial(), w, n);
}

/// Repository `k` of `p` is present in `w` with every declared remote.
pub open spec fn repo_done(p: Plan, w: World, k: int) -> bool {
    &&& w.repos.contains_key(p.repos[k])
    &&& forall|j: int|
        0 <= j < p.remotes.len() ==> #[trigger] w.repos[p.repos[k]].contains_key(p.remotes[j].0)
}

/// What a run has achieved so far: every repository before the current one
/// is done, and so is every remote before the current one of the current
/// repository.
pub open spec fn advancing(p: Plan, g: Progress, w: World) -> bool {
    &&& valid(p, g)
    &&& !(g.stage is CheckDir || g.stage is CreateDir) ==> w.dir
    &&& !(g.stage is CheckDir || g.stage is CreateDir) ==> forall|k: int|
        0 <= k < g.repo ==> #[trigger] repo_done(p, w, k)
    &&& (g.stage is FindRemote || g.stage is CreateRemote) ==> {
        &&& w.repos.contains_key(p.repos[g.repo])
        &&& forall|m: int|
            0 <= m < g.remote ==> #[trigger] w.repos[p.repos[g.repo]].contains_key(p.remotes[m].0)
    }
    &&& g.stage is CloneRepo ==> !w.repos.contains_key(p.repos[g.repo])
    &&& g.stage is RenameOrigin ==> {
        &&& w.repos.contains_key(p.repos[g.repo])
        &&& forall|k: int| 0 <= k < g.repo ==> #[trigger] p.repos[k] != p.repos[g.repo]
    }
}

proof fn lemma_advancing_step(p: Plan, g: Progress, w: World)
    requires
        advancing(p, g, w),
    ensures
        ({
            let a = action_of(p, g);
            advancing(p, next(p, g, outcome(w, a)), apply(w, a))
        }),
{
    let a = action_of(p, g);
    let ok = outcome(w, a);
    let g1 = next(p, g, ok);
    let w1 = apply(w, a);
    let i = g.repo;
    match g.stage {
        Stage::CloneRepo => {
            assert forall|k: int| 0 <= k < i implies #[trigger] p.repos[k] != p.repos[i] by {
                assert(repo_done(p, w, k));
            }
            assert forall|k: int| 0 <= k < i implies #[trigger] repo_done(p, w1, k) by {
                assert(repo_done(p, w, k));
                assert(p.repos[k] != p.repos[i]);
            }
            if p.remotes.len() == 0 {
                assert(repo_done(p, w1, i));
            }
        },
        Stage::RenameOrigin => {
            assert forall|k: int| 0 <= k < i implies #[trigger] repo_done(p, w1, k) by {
                assert(repo_done(p, w, k));
                assert(p.repos[k] != p.repos[i]);
            }
            if p.remotes.len() == 0 {
                assert(repo_done(p, w1, i));
            }
        },
        Stage::OpenRepo => {
            if ok && p.remotes.len() == 0 {
                assert(repo_done(p, w1, i));
            }
        },
        Stage::FindRemote => {
            if ok && g.remote + 1 == p.remotes.len() {
                assert(repo_done(p, w1, i));
            }
        },
        Stage::CreateRemote => {
            let r = p.repos[i];
            assert forall|k: int| 0 <= k < i implies #[trigger] repo_done(p, w1, k) by {
                assert(repo_done(p, w, k));
            }
            assert(w1.repos[r].contains_key(p.remotes[g.remote].0));
            if g.remote + 1 == p.remotes.len() {
                assert(repo_done(p, w1, i));
            }
        },
        _ => {},
    }
}

proof fn lemma_advancing_run(p: Plan, g: Progress, w: World, n: nat)
    requires
        advancing(p, g, w),
    ensures
        advancing(p, run(p, g, w, n).0, run(p, g, w, n).1),
    decreases n,
{
    if n > 0 {
        let a = action_of(p, g);
        lemma_advancing_step(p, g, w);
        lemma_advancing_run(p, next(p, g, outcome(w, a)), apply(w, a), (n - 1) as nat);
    }
}

/// A run that has finished leaves the workspace in its declared state.
pub proof fn lemma_finished_run_complete(p: Plan, w0: World, n: nat)
    ensures
        run(p, initial(), w0, n).0.stage is Done ==> complete(p, run(p, initial(), w0, n).1),
{
    lemma_advancing_run(p, initial(), w0, n);
    let (g, w) = run(p, initial(), w0, n);
    if g.stage is Done {
        assert forall|i: int| #![trigger p.repos[i]] 0 <= i < p.repos.len() implies w.repos.contains_key(
            p.repos[i],
        ) by {
            assert(repo_done(p, w, i));
        }
        assert forall|i: int, j: int|
            #![trigger p.repos[i], p.remotes[j]]
            0 <= i < p.repos.len() && 0 <= j < p.remotes.len() implies w.repos[p.repos[
            i]].contains_key(p.remotes[j].0) by {
            assert(repo_done(p, w, i));
        }
    }
}

/// Running twice changes nothing the first run did not: once a run has
/// finished, a second run over the world it left leaves that world as it
/// is, and asks for no clone, rename or new remote.
pub proof fn lemma_idempotent(p: Plan, w0: World, n: nat, m: nat)
    requires
        run(p, initial(), w0, n).0.stage is Done,
    ensures
        ({
            let w1 = run(p, initial(), w0, n).1;
            &&& run(p, initial(), w1, m).1 == w1
            &&& observing(run(p, initial(), w1, m).0.stage)
        }),
{
    lemma_finished_run_complete(p, w0, n);
    lemma_complete_world_unchanged(p, run(p, initial(), w0, n).1, m);
}

} // verus!
