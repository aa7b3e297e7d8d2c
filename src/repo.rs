//! The repository controller: validation of a discovered repository, the
//! primitive git operations, and the pull-request algorithms, each written
//! as the steps it runs.
use vstd::prelude::*;
use vstd::string::*;
use crate::exec::{views, Invocation, CommandError};
use crate::text::{decimal, decimal_string};

verus! {

/// What a failure of a step means for the run.
#[derive(PartialEq, Eq, Structural, Clone, Copy, Debug)]
pub enum Policy {
    /// Setup or cleanup: a failure is absorbed and the run goes on.
    BestEffort,
    /// A failure ends the run.
    Required,
    /// The rebase of a pull request: a failure is a conflict and ends the run.
    Rebase,
}

/// One step of a run: a command and what its failure means.
pub struct Step {
    pub inv: Invocation,
    pub policy: Policy,
}

/// A step as arguments to git and a policy.
pub type Cmd = (Seq<Seq<char>>, Policy);

/// Every error that ends a run.
pub enum PullrError {
    /// No repository contains the path.
    Discovery,
    /// The repository cannot be worked on.
    InvalidWorktree(WorktreeProblem),
    /// A command could not be launched or exited with a nonzero status.
    Command(CommandError),
    /// The rebase of a pull request onto the local branch failed.
    RebaseConflict(CommandError),
}

/// Why a repository's working directory cannot be worked on.
#[derive(PartialEq, Eq, Structural, Clone, Copy, Debug)]
pub enum WorktreeProblem {
    /// The repository has no working directory.
    Bare,
    /// The repository is a submodule.
    Submodule,
    /// The working directory is a linked worktree, not the primary one.
    Linked,
    /// The working directory is locked.
    Locked,
    /// The working directory holds uncommitted changes, which the hard
    /// resets of a run would destroy.
    Uncommitted,
}

/// The layout of a discovered repository.
#[derive(PartialEq, Eq, Structural, Clone, Copy, Debug)]
pub enum RepoKind {
    Bare,
    Submodule,
    WorkTree { is_linked: bool },
}

/// What was read from disk about the repository that contains a path.
pub struct Discovery {
    pub kind: RepoKind,
    /// The absolute working directory, when there is one.
    pub work_dir: Option<String>,
    /// Whether the worktree is the main one of its repository.
    pub is_main: bool,
    /// Whether the worktree is locked.
    pub is_locked: bool,
    /// Whether tracked files differ from the last commit.
    pub is_dirty: bool,
}

/// The problem that rules a discovered repository out, if any, checked in
/// this order: its kind, then whether it is the main worktree, then its lock,
/// then uncommitted changes.
pub open spec fn problem_of(d: Discovery) -> Option<WorktreeProblem> {
    match d.kind {
        RepoKind::Bare => Some(WorktreeProblem::Bare),
        RepoKind::Submodule => Some(WorktreeProblem::Submodule),
        RepoKind::WorkTree { is_linked } => {
            if is_linked || !d.is_main {
                Some(WorktreeProblem::Linked)
            } else if d.work_dir is None {
                Some(WorktreeProblem::Bare)
            } else if d.is_locked {
                Some(WorktreeProblem::Locked)
            } else if d.is_dirty {
                Some(WorktreeProblem::Uncommitted)
            } else {
                None
            }
        },
    }
}

/// The local branch that mirrors a pull request: `pr/<id>`.
pub open spec fn pr_ref(id: nat) -> Seq<char> {
    "pr/"@ + decimal(id)
}

/// The refspec that fetches a pull request's head into its local branch:
/// `refs/pull/<id>/head:pr/<id>`.
pub open spec fn pull_refspec(id: nat) -> Seq<char> {
    "refs/pull/"@ + decimal(id) + "/head:"@ + pr_ref(id)
}

/// The message of a pull request's squashed commit: `PR <id>`.
pub open spec fn pr_message(id: nat) -> Seq<char> {
    "PR "@ + decimal(id)
}

/// `<remote>/<branch>`.
pub open spec fn remote_ref(remote: Seq<char>, branch: Seq<char>) -> Seq<char> {
    remote + "/"@ + branch
}

/// Arguments that fetch a remote.
pub open spec fn fetch_args(remote: Seq<char>) -> Seq<Seq<char>> {
    seq!["fetch"@, remote]
}

/// Arguments that check a branch out, creating it from HEAD when asked.
pub open spec fn checkout_args(branch: Seq<char>, create: bool) -> Seq<Seq<char>> {
    if create {
        seq!["checkout"@, "-b"@, branch]
    } else {
        seq!["checkout"@, branch]
    }
}

/// Arguments that force-delete a local branch.
pub open spec fn delete_args(branch: Seq<char>) -> Seq<Seq<char>> {
    seq!["branch"@, "-D"@, branch]
}

/// Arguments that reset the current branch to `target`, hard or not.
pub open spec fn reset_args(target: Seq<char>, hard: bool) -> Seq<Seq<char>> {
    if hard {
        seq!["reset"@, "--hard"@, target]
    } else {
        seq!["reset"@, target]
    }
}

/// Arguments that rebase the current branch onto `onto`.
pub open spec fn rebase_onto_args(onto: Seq<char>) -> Seq<Seq<char>> {
    seq!["rebase"@, onto]
}

/// Arguments that start a rebase, or abort one in progress.
pub open spec fn rebase_args(abort: bool) -> Seq<Seq<char>> {
    if abort {
        seq!["rebase"@, "--abort"@]
    } else {
        seq!["rebase"@]
    }
}

/// The steps that refresh `pr/<id>`: drop the stale branch if there is one,
/// then fetch the pull request's head into it.
pub open spec fn fetch_pr_script(remote: Seq<char>, id: nat) -> Seq<Cmd> {
    seq![
        (delete_args(pr_ref(id)), Policy::BestEffort),
        (seq!["fetch"@, remote, pull_refspec(id)], Policy::Required),
    ]
}

/// The steps that squash pull request `id` into one commit on `local`, using
/// `tmp` as scratch: setup and cleanup are best effort, the rebase and every
/// step after it up to the final cleanup are required.
pub open spec fn add_pr_script(tmp: Seq<char>, local: Seq<char>, id: nat) -> Seq<Cmd> {
    seq![
        (delete_args(tmp), Policy::BestEffort),
        (checkout_args(tmp, true), Policy::BestEffort),
        (reset_args(pr_ref(id), true), Policy::BestEffort),
        (rebase_onto_args(local), Policy::Rebase),
        (reset_args(local, false), Policy::Required),
        (seq!["add"@, "."@], Policy::Required),
        (seq!["commit"@, "-m"@, pr_message(id)], Policy::Required),
        (checkout_args(local, false), Policy::Required),
        (reset_args(tmp, true), Policy::Required),
        (delete_args(tmp), Policy::BestEffort),
    ]
}

fn word(s: &str) -> (r: String)
    ensures
        r@ == s@,
{
    String::from_str(s)
}

fn list1(a: String) -> (r: Vec<String>)
    ensures
        views(r@) == seq![a@],
{
    let mut v = Vec::new();
    v.push(a);
    assert(views(v@) =~= seq![a@]);
    v
}

fn list2(a: String, b: String) -> (r: Vec<String>)
    ensures
        views(r@) == seq![a@, b@],
{
    let mut v = Vec::new();
    v.push(a);
    v.push(b);
    assert(views(v@) =~= seq![a@, b@]);
    v
}

fn list3(a: String, b: String, c: String) -> (r: Vec<String>)
    ensures
        views(r@) == seq![a@, b@, c@],
{
    let mut v = Vec::new();
    v.push(a);
    v.push(b);
    v.push(c);
    assert(views(v@) =~= seq![a@, b@, c@]);
    v
}

/// Writes `pr/<id>`.
pub fn pr_ref_string(id: usize) -> (r: String)
    ensures
        r@ == pr_ref(id as nat),
{
    let mut s = word("pr/");
    let n = decimal_string(id);
    s.append(n.as_str());
    s
}

/// Writes `PR <id>`.
pub fn pr_message_string(id: usize) -> (r: String)
    ensures
        r@ == pr_message(id as nat),
{
    let mut s = word("PR ");
    let n = decimal_string(id);
    s.append(n.as_str());
    s
}

/// Writes `refs/pull/<id>/head:pr/<id>`.
pub fn pull_refspec_string(id: usize) -> (r: String)
    ensures
        r@ == pull_refspec(id as nat),
{
    let mut s = word("refs/pull/");
    let n = decimal_string(id);
    s.append(n.as_str());
    s.append("/head:");
    let p = pr_ref_string(id);
    s.append(p.as_str());
    s
}

/// A validated, checked-out repository: where commands run, and whether
/// they only get reported.
pub struct Repo {
    pub dry_run: bool,
    pub verbose: bool,
    pub work_dir: String,
}

impl Repo {
    /// Whether `inv` runs git with `args` in this repository.
    pub open spec fn runs_git(&self, inv: Invocation, args: Seq<Seq<char>>) -> bool {
        &&& inv.program@ == "git"@
        &&& inv.dir@ == self.work_dir@
        &&& inv.dry_run == self.dry_run
        &&& inv.arg_views() == args
    }

    /// Whether `steps` are the git commands of `script`, in order, in this
    /// repository.
    pub open spec fn follows(&self, steps: Seq<Step>, script: Seq<Cmd>) -> bool {
        &&& steps.len() == script.len()
        &&& forall|i: int|
            0 <= i < steps.len() ==> self.runs_git(#[trigger] steps[i].inv, script[i].0)
                && steps[i].policy == script[i].1
    }

    /// Steps that follow two scripts, one after the other, follow the two
    /// scripts joined.
    pub proof fn lemma_follows_append(&self, a: Seq<Step>, s: Seq<Cmd>, b: Seq<Step>, t: Seq<Cmd>)
        requires
            self.follows(a, s),
            self.follows(b, t),
        ensures
            self.follows(a + b, s + t),
    {
        assert forall|i: int| 0 <= i < (a + b).len() implies self.runs_git(
            #[trigger] (a + b)[i].inv,
            (s + t)[i].0,
        ) && (a + b)[i].policy == (s + t)[i].1 by {
            if i < a.len() {
                assert((a + b)[i] == a[i]);
                assert((s + t)[i] == s[i]);
                assert(self.runs_git(a[i].inv, s[i].0));
            } else {
                let k = i - a.len();
                assert((a + b)[i] == b[k]);
                assert((s + t)[i] == t[k]);
                assert(self.runs_git(b[k].inv, t[k].0));
            }
        }
        assert((a + b).len() == (s + t).len());
    }

    /// Validates what discovery found: a repository with a primary,
    /// unlocked, clean working directory.
    pub fn discover(found: Option<Discovery>, dry_run: bool, verbose: bool) -> (r: Result<
        Repo,
        PullrError,
    >)
        ensures
            found is None ==> r matches Err(PullrError::Discovery),
            found matches Some(d) ==> match problem_of(d) {
                Some(p) => r matches Err(PullrError::InvalidWorktree(q)) && q == p,
                None => r matches Ok(repo) && d.work_dir matches Some(w) && repo.work_dir@ == w@
                    && repo.dry_run == dry_run && repo.verbose == verbose,
            },
    {
        let d = match found {
            None => return Err(PullrError::Discovery),
            Some(d) => d,
        };
        match d.kind {
            RepoKind::Bare => return Err(PullrError::InvalidWorktree(WorktreeProblem::Bare)),
            RepoKind::Submodule => return Err(
                PullrError::InvalidWorktree(WorktreeProblem::Submodule),
            ),
            RepoKind::WorkTree { is_linked } => {
                if is_linked || !d.is_main {
                    return Err(PullrError::InvalidWorktree(WorktreeProblem::Linked));
                }
            },
        }
        let work_dir = match d.work_dir {
            None => return Err(PullrError::InvalidWorktree(WorktreeProblem::Bare)),
            Some(w) => w,
        };
        if d.is_locked {
            return Err(PullrError::InvalidWorktree(WorktreeProblem::Locked));
        }
        if d.is_dirty {
            return Err(PullrError::InvalidWorktree(WorktreeProblem::Uncommitted));
        }
        Ok(Repo { dry_run, verbose, work_dir })
    }

    fn git(&self, args: Vec<String>) -> (r: Invocation)
        ensures
            self.runs_git(r, views(args@)),
    {
        Invocation { program: word("git"), args, dir: self.work_dir.clone(), dry_run: self.dry_run }
    }

    fn step(&self, args: Vec<String>, policy: Policy) -> (r: Step)
        ensures
            self.runs_git(r.inv, views(args@)),
            r.policy == policy,
    {
        Step { inv: self.git(args), policy }
    }

    /// Fetches `remote`.
    pub fn fetch(&self, remote: &str) -> (r: Invocation)
        ensures
            self.runs_git(r, fetch_args(remote@)),
    {
        self.git(list2(word("fetch"), word(remote)))
    }

    /// Checks `branch` out; with `create`, creates it from HEAD first.
    pub fn checkout(&self, branch: &str, create: bool) -> (r: Invocation)
        ensures
            self.runs_git(r, checkout_args(branch@, create)),
    {
        if create {
            self.git(list3(word("checkout"), word("-b"), word(branch)))
        } else {
            self.git(list2(word("checkout"), word(branch)))
        }
    }

    /// Force-deletes the local branch `branch`.
    pub fn delete(&self, branch: &str) -> (r: Invocation)
        ensures
            self.runs_git(r, delete_args(branch@)),
    {
        self.git(list3(word("branch"), word("-D"), word(branch)))
    }

    /// Resets the current branch to `<remote>/<branch>`, hard or not, then
    /// rebases it onto `local_branch`.
    pub fn reset(&self, remote: &str, branch: &str, local_branch: &str, hard: bool) -> (r: (
        Invocation,
        Invocation,
    ))
        ensures
            self.runs_git(r.0, reset_args(remote_ref(remote@, branch@), hard)),
            self.runs_git(r.1, rebase_onto_args(local_branch@)),
    {
        let mut target = word(remote);
        target.append("/");
        target.append(branch);
        let first = if hard {
            self.git(list3(word("reset"), word("--hard"), target))
        } else {
            self.git(list2(word("reset"), target))
        };
        (first, self.git(list2(word("rebase"), word(local_branch))))
    }

    /// Starts a rebase, or with `abort` aborts the one in progress.
    pub fn rebase(&self, abort: bool) -> (r: Invocation)
        ensures
            self.runs_git(r, rebase_args(abort)),
    {
        if abort {
            self.git(list2(word("rebase"), word("--abort")))
        } else {
            self.git(list1(word("rebase")))
        }
    }

    /// The steps that bring `pr/<id>` up to date with pull request `id` on
    /// `remote`.
    pub fn fetch_pull_request(&self, remote: &str, id: usize) -> (r: Vec<Step>)
        ensures
            self.follows(r@, fetch_pr_script(remote@, id as nat)),
    {
        let mut steps: Vec<Step> = Vec::new();
        steps.push(Step { inv: self.delete(pr_ref_string(id).as_str()), policy: Policy::BestEffort });
        steps.push(
            self.step(
                list3(word("fetch"), word(remote), pull_refspec_string(id)),
                Policy::Required,
            ),
        );
        assert(self.follows(steps@, fetch_pr_script(remote@, id as nat)));
        steps
    }
    /// The steps that squash pull request `id` into one new commit on
    /// `local_branch`, through the scratch branch `tmp_branch`. HEAD is
    /// expected on `local_branch` when they start.
    pub fn add_pull_request(&self, tmp_branch: &str, local_branch: &str, id: usize) -> (r: Vec<
        Step,
    >)
        ensures
            self.follows(r@, add_pr_script(tmp_branch@, local_branch@, id as nat)),
    {
        let mut steps: Vec<Step> = Vec::new();
        steps.push(Step { inv: self.delete(tmp_branch), policy: Policy::BestEffort });
        steps.push(Step { inv: self.checkout(tmp_branch, true), policy: Policy::BestEffort });
        steps.push(
            self.step(list3(word("reset"), word("--hard"), pr_ref_string(id)), Policy::BestEffort),
        );
        steps.push(self.step(list2(word("rebase"), word(local_branch)), Policy::Rebase));
        steps.push(self.step(list2(word("reset"), word(local_branch)), Policy::Required));
        steps.push(self.step(list2(word("add"), word(".")), Policy::Required));
        steps.push(
            self.step(list3(word("commit"), word("-m"), pr_message_string(id)), Policy::Required),
        );
        steps.push(Step { inv: self.checkout(local_branch, false), policy: Policy::Required });
        steps.push(
            self.step(list3(word("reset"), word("--hard"), word(tmp_branch)), Policy::Required),
        );
        steps.push(Step { inv: self.delete(tmp_branch), policy: Policy::BestEffort });
        assert(self.follows(steps@, add_pr_script(tmp_branch@, local_branch@, id as nat)));
        steps
    }
}

} // verus!
