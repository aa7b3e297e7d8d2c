//! The settings of a run and the whole sequence of steps they call for.
use vstd::prelude::*;
use vstd::string::*;
use crate::exec::{views, Invocation};
use crate::repo::{
    add_pr_script, checkout_args, delete_args, fetch_args, fetch_pr_script, rebase_args,
    rebase_onto_args, remote_ref, reset_args, Cmd, Policy, Repo, Step,
};

verus! {

/// The settings of one run.
pub struct Cli {
    /// A path inside the repository.
    pub path: String,
    /// The remote to fetch from.
    pub remote: String,
    /// Use the remote named `upstream` instead of `remote`.
    pub use_upstream: bool,
    /// The upstream branch that the local branch starts from.
    pub branch: String,
    /// Use the branch named `master` instead of `branch`.
    pub use_master: bool,
    /// The scratch branch of each integration step.
    pub tmp_branch: String,
    /// The local branch that receives the squashed pull requests.
    pub local_branch: String,
    /// A shell command to run once every pull request is in.
    pub command: Option<String>,
    /// Report the commands without running them.
    pub dry_run: bool,
    /// Explain what is done.
    pub verbose: bool,
    /// The pull requests, in the order in which they are applied.
    pub pull_requests: Vec<usize>,
}

/// The steps that refresh the branch of each pull request in `ids`, in order.
pub open spec fn pr_fetches(remote: Seq<char>, ids: Seq<usize>) -> Seq<Cmd>
    decreases ids.len(),
{
    if ids.len() == 0 {
        Seq::empty()
    } else {
        pr_fetches(remote, ids.drop_last()) + fetch_pr_script(remote, ids.last() as nat)
    }
}

/// The steps that squash each pull request in `ids` onto `local`, in order.
pub open spec fn pr_adds(tmp: Seq<char>, local: Seq<char>, ids: Seq<usize>) -> Seq<Cmd>
    decreases ids.len(),
{
    if ids.len() == 0 {
        Seq::empty()
    } else {
        pr_adds(tmp, local, ids.drop_last()) + add_pr_script(tmp, local, ids.last() as nat)
    }
}

/// The steps that prepare the local branch: abort a rebase left over from an
/// earlier run, fetch the remote, recreate `local` from `<remote>/<branch>`.
pub open spec fn prepare_script(remote: Seq<char>, branch: Seq<char>, local: Seq<char>) -> Seq<
    Cmd,
> {
    seq![
        (rebase_args(true), Policy::BestEffort),
        (fetch_args(remote), Policy::Required),
        (checkout_args(branch, false), Policy::Required),
        (delete_args(local), Policy::BestEffort),
        (checkout_args(local, true), Policy::Required),
        (reset_args(remote_ref(remote, branch), true), Policy::Required),
        (rebase_onto_args(local), Policy::Required),
    ]
}

/// The git steps of a whole run: prepare the local branch, fetch every pull
/// request, then squash each onto the local branch, in the order given.
pub open spec fn session_script(
    remote: Seq<char>,
    branch: Seq<char>,
    local: Seq<char>,
    tmp: Seq<char>,
    ids: Seq<usize>,
) -> Seq<Cmd> {
    prepare_script(remote, branch, local) + pr_fetches(remote, ids) + pr_adds(tmp, local, ids)
}

impl Cli {
    /// The remote in use.
    pub open spec fn remote_spec(&self) -> Seq<char> {
        if self.use_upstream {
            "upstream"@
        } else {
            self.remote@
        }
    }

    /// The upstream branch in use.
    pub open spec fn branch_spec(&self) -> Seq<char> {
        if self.use_master {
            "master"@
        } else {
            self.branch@
        }
    }

    /// The git steps of a run with these settings.
    pub open spec fn script(&self) -> Seq<Cmd> {
        session_script(
            self.remote_spec(),
            self.branch_spec(),
            self.local_branch@,
            self.tmp_branch@,
            self.pull_requests@,
        )
    }

    /// The remote in use: `upstream` when asked for, else `remote`.
    pub fn remote_name(&self) -> (r: String)
        ensures
            r@ == self.remote_spec(),
    {
        if self.use_upstream {
            String::from_str("upstream")
        } else {
            self.remote.clone()
        }
    }

    /// The upstream branch in use: `master` when asked for, else `branch`.
    pub fn branch_name(&self) -> (r: String)
        ensures
            r@ == self.branch_spec(),
    {
        if self.use_master {
            String::from_str("master")
        } else {
            self.branch.clone()
        }
    }

    /// The shell command to run after a successful run, in the directory of
    /// `path`, if one was given.
    pub fn post_command(&self) -> (r: Option<Invocation>)
        ensures
            r is Some <==> self.command is Some,
            r matches Some(inv) ==> self.command matches Some(c) && inv.program@ == "sh"@
                && inv.arg_views() == seq!["-c"@, c@] && inv.dir@ == self.path@ && inv.dry_run
                == self.dry_run,
    {
        match &self.command {
            None => None,
            Some(c) => {
                let mut args: Vec<String> = Vec::new();
                args.push(String::from_str("-c"));
                args.push(c.clone());
                assert(views(args@) =~= seq!["-c"@, c@]);
                Some(
                    Invocation {
                        program: String::from_str("sh"),
                        args,
                        dir: self.path.clone(),
                        dry_run: self.dry_run,
                    },
                )
            },
        }
    }

    /// Every step of a run in `repo`: the git steps, then the shell command
    /// if there is one, which must succeed too.
    pub fn plan(&self, repo: &Repo) -> (r: Vec<Step>)
        ensures
            r@.len() == self.script().len() + if self.command is Some {
                1int
            } else {
                0int
            },
            repo.follows(r@.subrange(0, self.script().len() as int), self.script()),
            self.command matches Some(c) ==> ({
                let last = r@.last();
                &&& last.policy == Policy::Required
                &&& last.inv.program@ == "sh"@
                &&& last.inv.arg_views() == seq!["-c"@, c@]
                &&& last.inv.dir@ == self.path@
                &&& last.inv.dry_run == self.dry_run
            }),
    {
        let remote = self.remote_name();
        let branch = self.branch_name();
        let local = self.local_branch.as_str();
        let tmp = self.tmp_branch.as_str();
        let ghost prep = prepare_script(remote@, branch@, local@);
        let mut steps: Vec<Step> = Vec::new();
        steps.push(Step { inv: repo.rebase(true), policy: Policy::BestEffort });
        steps.push(Step { inv: repo.fetch(remote.as_str()), policy: Policy::Required });
        steps.push(Step { inv: repo.checkout(branch.as_str(), false), policy: Policy::Required });
        steps.push(Step { inv: repo.delete(local), policy: Policy::BestEffort });
        steps.push(Step { inv: repo.checkout(local, true), policy: Policy::Required });
        let (reset, rebase) = repo.reset(remote.as_str(), branch.as_str(), local, true);
        steps.push(Step { inv: reset, policy: Policy::Required });
        steps.push(Step { inv: rebase, policy: Policy::Required });
        assert(repo.follows(steps@, prep));
        let ids = &self.pull_requests;
        let mut i: usize = 0;
        while i < ids.len()
            invariant
                i <= ids@.len(),
                repo.follows(steps@, prep + pr_fetches(remote@, ids@.subrange(0, i as int))),
            decreases ids@.len() - i,
        {
            let mut more = repo.fetch_pull_request(remote.as_str(), ids[i]);
            proof {
                repo.lemma_follows_append(
                    steps@,
                    prep + pr_fetches(remote@, ids@.subrange(0, i as int)),
                    more@,
                    fetch_pr_script(remote@, ids@[i as int] as nat),
                );
                let next = ids@.subrange(0, i + 1);
                assert(next.drop_last() =~= ids@.subrange(0, i as int));
                assert((prep + pr_fetches(remote@, ids@.subrange(0, i as int))) + fetch_pr_script(
                    remote@,
                    ids@[i as int] as nat,
                ) =~= prep + pr_fetches(remote@, next));
            }
            steps.append(&mut more);
            i = i + 1;
        }
        assert(ids@.subrange(0, ids@.len() as int) =~= ids@);
        let ghost fetched = prep + pr_fetches(remote@, ids@);
        let mut i: usize = 0;
        while i < ids.len()
            invariant
                i <= ids@.len(),
                repo.follows(steps@, fetched + pr_adds(tmp@, local@, ids@.subrange(0, i as int))),
            decreases ids@.len() - i,
        {
            let mut more = repo.add_pull_request(tmp, local, ids[i]);
            proof {
                repo.lemma_follows_append(
                    steps@,
                    fetched + pr_adds(tmp@, local@, ids@.subrange(0, i as int)),
                    more@,
                    add_pr_script(tmp@, local@, ids@[i as int] as nat),
                );
                let next = ids@.subrange(0, i + 1);
                assert(next.drop_last() =~= ids@.subrange(0, i as int));
                assert((fetched + pr_adds(tmp@, local@, ids@.subrange(0, i as int))) + add_pr_script(
                    tmp@,
                    local@,
                    ids@[i as int] as nat,
                ) =~= fetched + pr_adds(tmp@, local@, next));
            }
            steps.append(&mut more);
            i = i + 1;
        }
        assert(fetched + pr_adds(tmp@, local@, ids@) =~= self.script());
        let ghost before = steps@;
        assert(before.subrange(0, before.len() as int) =~= before);
        match self.post_command() {
            None => {},
            Some(inv) => {
                steps.push(Step { inv, policy: Policy::Required });
                assert(steps@.subrange(0, before.len() as int) =~= before);
            },
        }
        steps
    }
}

} // verus!
