//! What holds of every run: the order of the squashed commits, the effect
//! of a dry run, the failures that are absorbed and the one that is fatal.
use vstd::prelude::*;
use crate::cli::{pr_adds, pr_fetches, prepare_script, session_script};
use crate::driver::{fatal, Driver};
use crate::exec::{debug_quoted, echo_text, launch_ok, render_arg, Launch};
use crate::repo::{
    add_pr_script, checkout_args, delete_args, fetch_pr_script, pr_message, pr_ref, Cmd, Policy, Repo, Step,
};
use crate::text::{decimal, has_space, is_space};

verus! {

/// Whether `args` make a commit, and with which message.
pub open spec fn commit_message_of(args: Seq<Seq<char>>) -> Option<Seq<char>> {
    if args.len() == 3 && args[0] == "commit"@ && args[1] == "-m"@ {
        Some(args[2])
    } else {
        None
    }
}

/// The messages of the commits that `script` makes, in order.
pub open spec fn commit_messages(script: Seq<Cmd>) -> Seq<Seq<char>>
    decreases script.len(),
{
    if script.len() == 0 {
        Seq::empty()
    } else {
        let rest = commit_messages(script.drop_last());
        match commit_message_of(script.last().0) {
            Some(m) => rest.push(m),
            None => rest,
        }
    }
}

/// The commit messages of two scripts run one after the other are those of
/// the first, then those of the second.
pub proof fn lemma_commit_messages_append(s: Seq<Cmd>, t: Seq<Cmd>)
    ensures
        commit_messages(s + t) == commit_messages(s) + commit_messages(t),
    decreases t.len(),
{
    if t.len() == 0 {
        assert(s + t =~= s);
        assert(commit_messages(s) + commit_messages(t) =~= commit_messages(s));
    } else {
        lemma_commit_messages_append(s, t.drop_last());
        assert((s + t).drop_last() =~= s + t.drop_last());
        assert((s + t).last() == t.last());
        assert(commit_messages(s) + commit_messages(t) =~= match commit_message_of(t.last().0) {
            Some(m) => (commit_messages(s) + commit_messages(t.drop_last())).push(m),
            None => commit_messages(s) + commit_messages(t.drop_last()),
        });
    }
}

proof fn lemma_words_differ()
    ensures
        "branch"@ != "commit"@,
        "checkout"@ != "commit"@,
        "reset"@ != "commit"@,
        "rebase"@ != "commit"@,
        "add"@ != "commit"@,
        "fetch"@ != "commit"@,
{
    reveal_strlit("branch");
    reveal_strlit("checkout");
    reveal_strlit("reset");
    reveal_strlit("rebase");
    reveal_strlit("add");
    reveal_strlit("fetch");
    reveal_strlit("commit");
    assert("branch"@[0] != "commit"@[0]);
    assert("checkout"@.len() != "commit"@.len());
    assert("reset"@.len() != "commit"@.len());
    assert("rebase"@[0] != "commit"@[0]);
    assert("add"@.len() != "commit"@.len());
    assert("fetch"@.len() != "commit"@.len());
}

/// Integrating one pull request makes exactly one commit, titled `PR <id>`.
pub proof fn lemma_one_commit_per_pull_request(tmp: Seq<char>, local: Seq<char>, id: nat)
    ensures
        commit_messages(add_pr_script(tmp, local, id)) == seq![pr_message(id)],
{
    lemma_words_differ();
    let s = add_pr_script(tmp, local, id);
    reveal_with_fuel(commit_messages, 11);
    assert(s.drop_last().drop_last().drop_last().drop_last() =~= s.subrange(0, 6));
    assert(commit_messages(s) =~= seq![pr_message(id)]);
}

proof fn lemma_no_commit_in_fetches(remote: Seq<char>, ids: Seq<usize>)
    ensures
        commit_messages(pr_fetches(remote, ids)) == Seq::<Seq<char>>::empty(),
    decreases ids.len(),
{
    lemma_words_differ();
    if ids.len() > 0 {
        lemma_no_commit_in_fetches(remote, ids.drop_last());
        let f = fetch_pr_script(remote, ids.last() as nat);
        reveal_with_fuel(commit_messages, 3);
        assert(f.drop_last().drop_last() =~= Seq::<Cmd>::empty());
        assert(commit_messages(f) =~= Seq::<Seq<char>>::empty());
        lemma_commit_messages_append(pr_fetches(remote, ids.drop_last()), f);
        assert(Seq::<Seq<char>>::empty() + Seq::<Seq<char>>::empty() =~= Seq::<
            Seq<char>,
        >::empty());
    }
}

proof fn lemma_adds_commits(tmp: Seq<char>, local: Seq<char>, ids: Seq<usize>)
    ensures
        commit_messages(pr_adds(tmp, local, ids)) == ids.map_values(|id: usize| pr_message(id as nat)),
    decreases ids.len(),
{
    if ids.len() == 0 {
        assert(ids.map_values(|id: usize| pr_message(id as nat)) =~= Seq::<Seq<char>>::empty());
    } else {
        lemma_adds_commits(tmp, local, ids.drop_last());
        lemma_one_commit_per_pull_request(tmp, local, ids.last() as nat);
        lemma_commit_messages_append(
            pr_adds(tmp, local, ids.drop_last()),
            add_pr_script(tmp, local, ids.last() as nat),
        );
        assert(ids.map_values(|id: usize| pr_message(id as nat)) =~= ids.drop_last().map_values(
            |id: usize| pr_message(id as nat),
        ).push(pr_message(ids.last() as nat)));
    }
}

/// A run makes one commit per pull request and no other, in the order in
/// which the pull requests were given, each titled `PR <id>`: for `[a, b, c]`
/// the local branch gains `PR a`, `PR b`, `PR c`, in that order.
pub proof fn lemma_commits_follow_input_order(
    remote: Seq<char>,
    branch: Seq<char>,
    local: Seq<char>,
    tmp: Seq<char>,
    ids: Seq<usize>,
)
    ensures
        commit_messages(session_script(remote, branch, local, tmp, ids)) == ids.map_values(
            |id: usize| pr_message(id as nat),
        ),
{
    lemma_words_differ();
    let prep = prepare_script(remote, branch, local);
    reveal_with_fuel(commit_messages, 8);
    assert(commit_messages(prep) =~= Seq::<Seq<char>>::empty());
    lemma_no_commit_in_fetches(remote, ids);
    lemma_adds_commits(tmp, local, ids);
    lemma_commit_messages_append(prep, pr_fetches(remote, ids));
    lemma_commit_messages_append(prep + pr_fetches(remote, ids), pr_adds(tmp, local, ids));
    assert(Seq::<Seq<char>>::empty() + Seq::<Seq<char>>::empty() =~= Seq::<Seq<char>>::empty());
    assert(Seq::<Seq<char>>::empty() + ids.map_values(|id: usize| pr_message(id as nat))
        =~= ids.map_values(|id: usize| pr_message(id as nat)));
}

/// In a dry run no step launches a process, and whatever is reported back,
/// no step fails. The echoed line of a step differs from the one of the same
/// step in a live run in its marker alone.
pub proof fn lemma_dry_run_is_pure(repo: Repo, steps: Seq<Step>, script: Seq<Cmd>)
    requires
        repo.dry_run,
        repo.follows(steps, script),
    ensures
        forall|i: int|
            0 <= i < steps.len() ==> (#[trigger] steps[i]).inv.dry_run && forall|launch: Launch|
                launch_ok(steps[i].inv.dry_run, launch),
        forall|i: int|
            0 <= i < steps.len() ==> {
                let dry = echo_text(true, (#[trigger] steps[i]).inv.program@, steps[i].inv.arg_views());
                let live = echo_text(false, steps[i].inv.program@, steps[i].inv.arg_views());
                &&& dry.len() == live.len()
                &&& dry[0] == ' ' && live[0] == '$'
                &&& dry.drop_first() == live.drop_first()
            },
{
    reveal_strlit(" ");
    reveal_strlit("$");
    assert forall|i: int| 0 <= i < steps.len() implies (#[trigger] steps[i]).inv.dry_run by {
        assert(repo.runs_git(steps[i].inv, script[i].0));
    }
    assert forall|i: int| 0 <= i < steps.len() implies {
        let dry = echo_text(true, (#[trigger] steps[i]).inv.program@, steps[i].inv.arg_views());
        let live = echo_text(false, steps[i].inv.program@, steps[i].inv.arg_views());
        &&& dry.len() == live.len()
        &&& dry[0] == ' ' && live[0] == '$'
        &&& dry.drop_first() == live.drop_first()
    } by {
        let dry = echo_text(true, steps[i].inv.program@, steps[i].inv.arg_views());
        let live = echo_text(false, steps[i].inv.program@, steps[i].inv.arg_views());
        assert(dry.drop_first() =~= live.drop_first());
    }
}

/// The integration of a pull request goes through when the scratch branch
/// is missing at its start: a failed deletion of it, like any failure of the
/// setup and cleanup steps, ends nothing. Once every step has been recorded
/// and each of the rebase, the soft reset, the staging, the commit, the
/// checkout and the hard reset succeeded, the run has no failure.
pub proof fn lemma_cleanup_failures_absorbed(
    repo: Repo,
    d: Driver,
    tmp: Seq<char>,
    local: Seq<char>,
    id: nat,
)
    requires
        d.wf(),
        d.done(),
        repo.follows(d.steps@, add_pr_script(tmp, local, id)),
        forall|j: int| 3 <= j <= 8 && j < d.oks@.len() ==> #[trigger] d.oks@[j],
    ensures
        d.failure is None,
        d.pos == 10,
        !fatal(d.steps@[0].policy, false),
{
    assert(repo.runs_git(d.steps@[0].inv, add_pr_script(tmp, local, id)[0].0));
    if d.failure is Some {
        let p = d.pos as int;
        assert(repo.runs_git(d.steps@[p].inv, add_pr_script(tmp, local, id)[p].0));
        assert(d.oks@[p]);
    }
}

/// A conflict in the rebase of a pull request ends the run at the rebase:
/// the steps after it (the soft reset, the staging, the commit, the checkout
/// of the local branch and its hard reset) never run, so no commit is made
/// and the local branch is not moved to the scratch branch.
pub proof fn lemma_rebase_conflict_is_fatal(
    repo: Repo,
    d: Driver,
    tmp: Seq<char>,
    local: Seq<char>,
    id: nat,
)
    requires
        d.wf(),
        repo.follows(d.steps@, add_pr_script(tmp, local, id)),
        d.oks@.len() > 3,
        !d.oks@[3],
    ensures
        d.done(),
        d.failure is Some,
        d.pos == 3,
        d.steps@[3].policy == Policy::Rebase,
        d.oks@.len() == 4,
        forall|j: int|
            0 <= j < d.oks@.len() ==> commit_message_of(
                #[trigger] add_pr_script(tmp, local, id)[j].0,
            ) is None && add_pr_script(tmp, local, id)[j].0 != checkout_args(local, false),
{
    lemma_words_differ();
    reveal_strlit("checkout");
    reveal_strlit("branch");
    reveal_strlit("reset");
    reveal_strlit("rebase");
    assert(repo.runs_git(d.steps@[3].inv, add_pr_script(tmp, local, id)[3].0));
    if d.pos > 3 {
        assert(!fatal(d.steps@[3].policy, d.oks@[3]));
    }
    let s = add_pr_script(tmp, local, id);
    assert forall|j: int| 0 <= j < d.oks@.len() implies commit_message_of(#[trigger] s[j].0) is None
        && s[j].0 != checkout_args(local, false) by {
        if j == 3 {
            assert("rebase"@.len() != "checkout"@.len());
            assert(s[j].0[0] != checkout_args(local, false)[0]);
        } else {
            assert(s[j].0.len() != checkout_args(local, false).len());
        }
    }
}

/// An argument with white space, such as the message `PR <id>` of a squashed
/// commit, is echoed as one quoted token, and handed to git as one argument.
pub proof fn lemma_message_echoed_as_one_token(tmp: Seq<char>, local: Seq<char>, id: nat)
    ensures
        has_space(pr_message(id)),
        render_arg(pr_message(id)) == debug_quoted(pr_message(id)),
        add_pr_script(tmp, local, id)[6].0 == seq!["commit"@, "-m"@, pr_message(id)],
{
    reveal_strlit("PR ");
    assert(pr_message(id)[2] == ' ');
    assert(is_space(pr_message(id)[2]));
}

/// The local branches of a repository, each with the commit it points at,
/// after the two steps of `fetch_pr_script` for pull request `id` whose head
/// is `head`: `git branch -D pr/<id>` removes the branch when there is one,
/// and its failure when there is none is absorbed; the fetch then makes
/// `pr/<id>` point at `head`.
pub open spec fn refresh_pr_branch(branches: Map<Seq<char>, nat>, id: nat, head: nat) -> Map<
    Seq<char>,
    nat,
> {
    branches.remove(pr_ref(id)).insert(pr_ref(id), head)
}

/// Refreshing the branch of a pull request twice leaves the branches as
/// refreshing it once does: `pr/<id>` points at the pull request's head, one
/// branch of that name, and no other branch is touched.
pub proof fn lemma_fetch_pull_request_idempotent(
    remote: Seq<char>,
    branches: Map<Seq<char>, nat>,
    id: nat,
    head: nat,
)
    ensures
        fetch_pr_script(remote, id)[0] == (delete_args(pr_ref(id)), Policy::BestEffort),
        fetch_pr_script(remote, id)[1].0[2] == "refs/pull/"@ + decimal(id) + "/head:"@ + pr_ref(id),
        refresh_pr_branch(refresh_pr_branch(branches, id, head), id, head) == refresh_pr_branch(
            branches,
            id,
            head,
        ),
        refresh_pr_branch(branches, id, head)[pr_ref(id)] == head,
        refresh_pr_branch(branches, id, head).dom() == branches.dom().insert(pr_ref(id)),
        forall|b: Seq<char>|
            b != pr_ref(id) && branches.contains_key(b) ==> #[trigger] refresh_pr_branch(
                branches,
                id,
                head,
            )[b] == branches[b],
{
    let once = refresh_pr_branch(branches, id, head);
    assert(refresh_pr_branch(once, id, head) =~= once);
    assert(once.dom() =~= branches.dom().insert(pr_ref(id)));
}

} // verus!
