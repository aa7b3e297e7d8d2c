use pullr::cli::Cli;
use pullr::driver::Driver;
use pullr::exec::{format_command, settle, FailureKind, Launch};
use pullr::repo::{Discovery, Policy, PullrError, Repo, RepoKind, Step, WorktreeProblem};
use pullr::text::{contains_space, decimal_string};

fn strings(v: &[&str]) -> Vec<String> {
    v.iter().map(|s| s.to_string()).collect()
}

fn repo(dry_run: bool) -> Repo {
    Repo { dry_run, verbose: false, work_dir: "/work/project".to_string() }
}

fn clean() -> Discovery {
    Discovery {
        kind: RepoKind::WorkTree { is_linked: false },
        work_dir: Some("/work/project".to_string()),
        is_main: true,
        is_locked: false,
        is_dirty: false,
    }
}

fn cli(ids: Vec<usize>, dry_run: bool) -> Cli {
    Cli {
        path: ".".to_string(),
        remote: "origin".to_string(),
        use_upstream: false,
        branch: "main".to_string(),
        use_master: false,
        tmp_branch: "temp".to_string(),
        local_branch: "pullr".to_string(),
        command: None,
        dry_run,
        verbose: false,
        pull_requests: ids,
    }
}

fn lines(steps: &[Step]) -> Vec<String> {
    steps.iter().map(|s| s.inv.command_line()).collect()
}

fn drive(steps: Vec<Step>, launch: impl Fn(usize, &Step) -> Launch) -> (Result<(), PullrError>, usize) {
    let mut d = Driver::new(steps);
    let mut issued = 0;
    while let Some(step) = d.next_step() {
        let l = launch(issued, step);
        issued += 1;
        d.record(l);
    }
    (d.finish(), issued)
}

fn exited(ok: bool) -> Launch {
    Launch::Exited { success: ok }
}

#[test]
fn decimal_of_numbers() {
    assert_eq!(decimal_string(0), "0");
    assert_eq!(decimal_string(7), "7");
    assert_eq!(decimal_string(101), "101");
    assert_eq!(decimal_string(usize::MAX), usize::MAX.to_string());
}

#[test]
fn white_space_detected() {
    assert!(contains_space("PR 42"));
    assert!(contains_space("a\tb"));
    assert!(contains_space("a\u{3000}b"));
    assert!(!contains_space("pr/42"));
    assert!(!contains_space(""));
}

#[test]
fn format_plain_arguments() {
    assert_eq!(format_command("git", &strings(&["fetch", "origin"])), "git fetch origin");
}

#[test]
fn format_quotes_argument_with_space() {
    assert_eq!(
        format_command("git", &strings(&["commit", "-m", "PR 42"])),
        "git commit -m \"PR 42\""
    );
}

#[test]
fn format_escapes_quoted_argument() {
    assert_eq!(format_command("sh", &strings(&["-c", "echo \"hi\"\tnow"])), "sh -c \"echo \\\"hi\\\"\\tnow\"");
}

#[test]
fn format_without_arguments() {
    assert_eq!(format_command("git", &[]), "git ");
}

#[test]
fn echo_marks_dry_run() {
    let real = repo(false).fetch("origin");
    let dry = repo(true).fetch("origin");
    assert_eq!(real.echo_line(), "$ git fetch origin");
    assert_eq!(dry.echo_line(), "  git fetch origin");
    assert!(real.launches());
    assert!(!dry.launches());
}

#[test]
fn settle_outcomes() {
    let inv = repo(false).rebase(true);
    assert!(settle(&inv, exited(true)).is_ok());
    let e = settle(&inv, exited(false)).unwrap_err();
    assert_eq!(e.kind, FailureKind::Execution);
    assert_eq!(e.command, "git rebase --abort");
    let e = settle(&inv, Launch::NotStarted).unwrap_err();
    assert_eq!(e.kind, FailureKind::Spawn);
    let dry = repo(true).rebase(true);
    assert!(settle(&dry, Launch::Skipped).is_ok());
    assert!(settle(&dry, Launch::NotStarted).is_ok());
}

#[test]
fn discover_accepts_clean_main_worktree() {
    let r = Repo::discover(Some(clean()), true, true).ok().unwrap();
    assert_eq!(r.work_dir, "/work/project");
    assert!(r.dry_run);
    assert!(r.verbose);
}

#[test]
fn discover_rejects() {
    assert!(matches!(Repo::discover(None, false, false), Err(PullrError::Discovery)));
    let cases: Vec<(Discovery, WorktreeProblem)> = vec![
        (Discovery { kind: RepoKind::Bare, work_dir: None, ..clean() }, WorktreeProblem::Bare),
        (Discovery { kind: RepoKind::Submodule, ..clean() }, WorktreeProblem::Submodule),
        (Discovery { kind: RepoKind::WorkTree { is_linked: true }, ..clean() }, WorktreeProblem::Linked),
        (Discovery { is_main: false, ..clean() }, WorktreeProblem::Linked),
        (Discovery { work_dir: None, ..clean() }, WorktreeProblem::Bare),
        (Discovery { is_locked: true, ..clean() }, WorktreeProblem::Locked),
        (Discovery { is_dirty: true, ..clean() }, WorktreeProblem::Uncommitted),
    ];
    for (d, p) in cases {
        match Repo::discover(Some(d), false, false) {
            Err(PullrError::InvalidWorktree(q)) => assert_eq!(q, p),
            _ => panic!("expected an invalid worktree"),
        }
    }
}

#[test]
fn primitive_commands() {
    let r = repo(false);
    assert_eq!(r.fetch("upstream").args, strings(&["fetch", "upstream"]));
    assert_eq!(r.checkout("main", false).args, strings(&["checkout", "main"]));
    assert_eq!(r.checkout("pullr", true).args, strings(&["checkout", "-b", "pullr"]));
    assert_eq!(r.delete("temp").args, strings(&["branch", "-D", "temp"]));
    assert_eq!(r.rebase(false).args, strings(&["rebase"]));
    let (a, b) = r.reset("origin", "main", "pullr", true);
    assert_eq!(a.args, strings(&["reset", "--hard", "origin/main"]));
    assert_eq!(b.args, strings(&["rebase", "pullr"]));
    let (a, _) = r.reset("origin", "main", "pullr", false);
    assert_eq!(a.args, strings(&["reset", "origin/main"]));
    assert_eq!(a.program, "git");
    assert_eq!(a.dir, "/work/project");
}

#[test]
fn fetch_pull_request_steps() {
    let steps = repo(false).fetch_pull_request("origin", 42);
    assert_eq!(lines(&steps), strings(&["git branch -D pr/42", "git fetch origin refs/pull/42/head:pr/42"]));
    assert_eq!(steps[0].policy, Policy::BestEffort);
    assert_eq!(steps[1].policy, Policy::Required);
    let again = repo(false).fetch_pull_request("origin", 42);
    assert_eq!(lines(&again), lines(&steps));
}

#[test]
fn fetch_pull_request_tolerates_missing_branch() {
    let steps = repo(false).fetch_pull_request("origin", 42);
    let (r, issued) = drive(steps, |i, _| exited(i != 0));
    assert!(r.is_ok());
    assert_eq!(issued, 2);
}

#[test]
fn add_pull_request_steps() {
    let steps = repo(false).add_pull_request("temp", "pullr", 42);
    assert_eq!(
        lines(&steps),
        strings(&[
            "git branch -D temp",
            "git checkout -b temp",
            "git reset --hard pr/42",
            "git rebase pullr",
            "git reset pullr",
            "git add .",
            "git commit -m \"PR 42\"",
            "git checkout pullr",
            "git reset --hard temp",
            "git branch -D temp",
        ])
    );
    assert_eq!(steps[6].inv.args[2], "PR 42");
    let policies: Vec<Policy> = steps.iter().map(|s| s.policy).collect();
    let (b, x, r) = (Policy::BestEffort, Policy::Rebase, Policy::Required);
    assert_eq!(policies, vec![b, b, b, x, r, r, r, r, r, b]);
}

#[test]
fn missing_scratch_branch_is_tolerated() {
    let steps = repo(false).add_pull_request("temp", "pullr", 7);
    let (r, issued) = drive(steps, |i, _| exited(i != 0 && i != 9));
    assert!(r.is_ok());
    assert_eq!(issued, 10);
}

#[test]
fn rebase_conflict_stops_integration() {
    let steps = repo(false).add_pull_request("temp", "pullr", 7);
    let (r, issued) = drive(steps, |_, s| exited(s.inv.args[0] != "rebase"));
    assert_eq!(issued, 4);
    match r {
        Err(PullrError::RebaseConflict(e)) => {
            assert_eq!(e.kind, FailureKind::Execution);
            assert_eq!(e.command, "git rebase pullr");
        }
        _ => panic!("expected a rebase conflict"),
    }
}

#[test]
fn failed_commit_ends_run() {
    let steps = repo(false).add_pull_request("temp", "pullr", 7);
    let (r, issued) = drive(steps, |_, s| exited(s.inv.args[0] != "commit"));
    assert_eq!(issued, 7);
    assert!(matches!(r, Err(PullrError::Command(_))));
}

#[test]
fn missing_git_is_a_spawn_error() {
    let (r, issued) = drive(repo(false).fetch_pull_request("origin", 3), |_, _| Launch::NotStarted);
    assert_eq!(issued, 2);
    match r {
        Err(PullrError::Command(e)) => assert_eq!(e.kind, FailureKind::Spawn),
        _ => panic!("expected a spawn error"),
    }
}

#[test]
fn dry_run_launches_nothing() {
    let c = cli(vec![101, 102], true);
    let steps = c.plan(&repo(true));
    assert!(steps.iter().all(|s| s.inv.dry_run && !s.inv.launches()));
    let real = c.plan(&repo(false));
    for (d, l) in steps.iter().zip(real.iter()) {
        let (dry, live) = (d.inv.echo_line(), l.inv.echo_line());
        assert_eq!(&dry[1..], &live[1..]);
        assert!(dry.starts_with(' ') && live.starts_with('$'));
    }
    let (r, issued) = drive(steps, |_, _| Launch::Skipped);
    assert!(r.is_ok());
    assert_eq!(issued, real.len());
}

#[test]
fn end_to_end_plan() {
    let c = cli(vec![101, 102], false);
    let steps = c.plan(&repo(false));
    let mut expected = strings(&[
        "git rebase --abort",
        "git fetch origin",
        "git checkout main",
        "git branch -D pullr",
        "git checkout -b pullr",
        "git reset --hard origin/main",
        "git rebase pullr",
        "git branch -D pr/101",
        "git fetch origin refs/pull/101/head:pr/101",
        "git branch -D pr/102",
        "git fetch origin refs/pull/102/head:pr/102",
    ]);
    for id in [101, 102] {
        expected.extend(lines(&repo(false).add_pull_request("temp", "pullr", id)));
    }
    assert_eq!(lines(&steps), expected);
    let commits: Vec<String> = steps
        .iter()
        .filter(|s| s.inv.args[0] == "commit")
        .map(|s| s.inv.args[2].clone())
        .collect();
    assert_eq!(commits, strings(&["PR 101", "PR 102"]));
    let (r, _) = drive(steps, |_, _| exited(true));
    assert!(r.is_ok());
}

#[test]
fn commits_follow_input_order() {
    let c = cli(vec![3, 1, 2], false);
    let commits: Vec<String> = c
        .plan(&repo(false))
        .iter()
        .filter(|s| s.inv.args[0] == "commit")
        .map(|s| s.inv.args[2].clone())
        .collect();
    assert_eq!(commits, strings(&["PR 3", "PR 1", "PR 2"]));
}

#[test]
fn upstream_and_master_switches() {
    let mut c = cli(vec![5], false);
    assert_eq!(c.remote_name(), "origin");
    assert_eq!(c.branch_name(), "main");
    c.use_upstream = true;
    c.use_master = true;
    assert_eq!(c.remote_name(), "upstream");
    assert_eq!(c.branch_name(), "master");
    let steps = c.plan(&repo(false));
    assert_eq!(steps[1].inv.command_line(), "git fetch upstream");
    assert_eq!(steps[5].inv.command_line(), "git reset --hard upstream/master");
}

#[test]
fn post_command_runs_last() {
    let mut c = cli(vec![5], false);
    assert!(c.post_command().is_none());
    c.command = Some("cargo test".to_string());
    let steps = c.plan(&repo(false));
    let last = steps.last().unwrap();
    assert_eq!(last.policy, Policy::Required);
    assert_eq!(last.inv.echo_line(), "$ sh -c \"cargo test\"");
    assert_eq!(last.inv.dir, ".");
    assert_eq!(steps.len(), 7 + 2 + 10 + 1);
}

#[test]
fn driver_without_steps_succeeds() {
    let d = Driver::new(Vec::new());
    assert!(d.is_done());
    assert!(d.next_step().is_none());
    assert!(d.finish().is_ok());
}
