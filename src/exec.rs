//! Commands: how they are written out for the operator, and what their
//! outcome means.
use vstd::prelude::*;
use vstd::string::*;
use crate::text::{contains_space, has_space};

verus! {

/// Names what `format!("{:?}", s)` writes for a string: the string in double
/// quotes, with special characters escaped.
pub uninterp spec fn debug_quoted(s: Seq<char>) -> Seq<char>;

/// Relies on `<str as Debug>::fmt`: the quoted, escaped form of a string,
/// which depends on its characters alone.
#[verifier::external_body]
fn quoted(s: &str) -> (r: String)
    ensures
        r@ == debug_quoted(s@),
{
    format!("{:?}", s)
}

/// How one argument appears in an echoed command line: quoted when it holds
/// white space, as it is otherwise.
pub open spec fn render_arg(a: Seq<char>) -> Seq<char> {
    if has_space(a) {
        debug_quoted(a)
    } else {
        a
    }
}

/// The rendered arguments, each followed by one space except the last.
pub open spec fn render_args(args: Seq<Seq<char>>) -> Seq<char>
    decreases args.len(),
{
    if args.len() == 0 {
        Seq::empty()
    } else if args.len() == 1 {
        render_arg(args[0])
    } else {
        render_args(args.drop_last()) + " "@ + render_arg(args.last())
    }
}

/// The command line echoed for `program` with `args`: the program, one space,
/// then the rendered arguments separated by single spaces.
pub open spec fn command_text(program: Seq<char>, args: Seq<Seq<char>>) -> Seq<char> {
    program + " "@ + render_args(args)
}

/// The views of a list of strings.
pub open spec fn views(v: Seq<String>) -> Seq<Seq<char>> {
    v.map_values(|s: String| s@)
}

/// Writes a command line so that it can be read and run again by hand: an
/// argument that holds white space is quoted.
pub fn format_command(program: &str, args: &[String]) -> (r: String)
    ensures
        r@ == command_text(program@, views(args@)),
{
    let mut joined = String::new();
    let mut i: usize = 0;
    while i < args.len()
        invariant
            i <= args@.len(),
            joined@ == render_args(views(args@.subrange(0, i as int))),
        decreases args@.len() - i,
    {
        let a: &str = args[i].as_str();
        let piece = if contains_space(a) {
            quoted(a)
        } else {
            String::from_str(a)
        };
        if i > 0 {
            joined.append(" ");
        }
        joined.append(piece.as_str());
        proof {
            let pre = views(args@.subrange(0, i as int));
            let post = views(args@.subrange(0, i + 1));
            assert(post.drop_last() =~= pre);
            assert(post.last() == args@[i as int]@);
            if i == 0 {
                assert(post.len() == 1);
            }
        }
        i = i + 1;
    }
    proof {
        assert(args@.subrange(0, args@.len() as int) =~= args@);
    }
    let mut r = String::from_str(program);
    r.append(" ");
    r.append(joined.as_str());
    r
}

/// One run of an external program: its name, its arguments, the directory it
/// runs in, and whether it is only to be reported.
pub struct Invocation {
    pub program: String,
    pub args: Vec<String>,
    pub dir: String,
    pub dry_run: bool,
}

/// The marker in front of an echoed command line: `$` when the command runs,
/// a blank when it is only reported.
pub open spec fn marker(dry_run: bool) -> Seq<char> {
    if dry_run {
        " "@
    } else {
        "$"@
    }
}

/// The line echoed before a command: the marker, one space, the command line.
pub open spec fn echo_text(dry_run: bool, program: Seq<char>, args: Seq<Seq<char>>) -> Seq<char> {
    marker(dry_run) + " "@ + command_text(program, args)
}

impl Invocation {
    /// The arguments as character sequences.
    pub open spec fn arg_views(&self) -> Seq<Seq<char>> {
        views(self.args@)
    }

    /// The command line of this invocation.
    pub fn command_line(&self) -> (r: String)
        ensures
            r@ == command_text(self.program@, self.arg_views()),
    {
        format_command(self.program.as_str(), self.args.as_slice())
    }

    /// The line to echo before this invocation is run or skipped.
    pub fn echo_line(&self) -> (r: String)
        ensures
            r@ == echo_text(self.dry_run, self.program@, self.arg_views()),
    {
        let mut r = if self.dry_run {
            String::from_str(" ")
        } else {
            String::from_str("$")
        };
        r.append(" ");
        let line = self.command_line();
        r.append(line.as_str());
        r
    }

    /// Whether a process is to be launched for this invocation.
    pub fn launches(&self) -> (r: bool)
        ensures
            r == !self.dry_run,
    {
        !self.dry_run
    }
}

/// What happened when an invocation was handed to the operating system.
pub enum Launch {
    /// Nothing was launched: the invocation was only reported.
    Skipped,
    /// The program could not be started.
    NotStarted,
    /// The program ran and exited, with a zero status or not.
    Exited { success: bool },
}

/// Why a command failed.
#[derive(PartialEq, Eq, Structural, Clone, Copy, Debug)]
pub enum FailureKind {
    /// The executable could not be launched.
    Spawn,
    /// It ran and exited with a nonzero status.
    Execution,
}

/// A failed command, with its command line.
pub struct CommandError {
    pub kind: FailureKind,
    pub command: String,
}

/// Whether `launch` counts as success for an invocation with the given
/// dry-run flag: a reported-only invocation always succeeds, a launched one
/// when it exited with a zero status.
pub open spec fn launch_ok(dry_run: bool, launch: Launch) -> bool {
    dry_run || launch == (Launch::Exited { success: true })
}

/// The kind of failure of a launch that did not succeed.
pub open spec fn failure_of(launch: Launch) -> FailureKind {
    match launch {
        Launch::NotStarted => FailureKind::Spawn,
        _ => FailureKind::Execution,
    }
}

/// The outcome of an invocation, given what happened when it was launched.
pub fn settle(inv: &Invocation, launch: Launch) -> (r: Result<(), CommandError>)
    ensures
        r is Ok <==> launch_ok(inv.dry_run, launch),
        r matches Err(e) ==> e.kind == failure_of(launch) && e.command@ == command_text(
            inv.program@,
            inv.arg_views(),
        ),
{
    if inv.dry_run {
        return Ok(());
    }
    match launch {
        Launch::Exited { success: true } => Ok(()),
        Launch::NotStarted => Err(CommandError { kind: FailureKind::Spawn, command: inv.command_line() }),
        _ => Err(CommandError { kind: FailureKind::Execution, command: inv.command_line() }),
    }
}

} // verus!
