//! The elevation fallback: when a deletion fails for want of permission and
//! the process is not elevated, the whole invocation is run once more as an
//! elevated child, whose combined output goes to a temporary file that is
//! relayed when the child fails.
use crate::config::ForceOpsConfig;
use crate::text::chars_of;
use crate::text::contains;
use crate::text::decimal;
use crate::text::decimal_text;
use crate::text::has_substring;
use crate::text::lower_of;
use crate::text::lowercase;
use vstd::prelude::*;

verus! {

/// A lower-cased failure message that speaks of access, permission or denial.
pub open spec fn mentions_permission(lowered: Seq<char>) -> bool {
    has_substring(lowered, "access"@) || has_substring(lowered, "permission"@) || has_substring(
        lowered,
        "denied"@,
    )
}

/// Whether a lower-cased failure message speaks of access, permission or denial.
pub fn mentions_permission_text(lowered: &str) -> (r: bool)
    ensures
        r == mentions_permission(lowered@),
{
    let s = chars_of(lowered);
    let access = chars_of("access");
    let permission = chars_of("permission");
    let denied = chars_of("denied");
    contains(&s, &access) || contains(&s, &permission) || contains(&s, &denied)
}

/// Whether a failure, by its message, is permission-related.
pub fn is_permission_error(message: &str) -> (r: bool)
    ensures
        r == mentions_permission(lower_of(message@)),
{
    let lowered = lowercase(message);
    mentions_permission_text(lowered.as_str())
}

/// Whether a failed run is relaunched elevated: elevation is allowed, the
/// process is not elevated yet, and the failure is permission-related.
pub fn should_relaunch(config: &ForceOpsConfig, message: &str, is_elevated: bool) -> (r: bool)
    ensures
        r == (!config.disable_elevate && !is_elevated && mentions_permission(lower_of(message@))),
{
    !config.disable_elevate && !is_elevated && is_permission_error(message)
}

/// The elevated child failed with this exit code.
#[derive(Debug, Clone, Copy, PartialEq, Eq, Structural)]
pub struct ElevationError {
    pub exit_code: u32,
}

impl ElevationError {
    pub open spec fn text(&self) -> Seq<char> {
        "Child process failed with exit code "@ + decimal(self.exit_code as nat)
    }

    /// The message reported to the user.
    pub fn to_string(&self) -> (r: String)
        ensures
            r@ == self.text(),
    {
        let mut r = String::from_str("Child process failed with exit code ");
        let n = decimal_text(self.exit_code as u64);
        r.append(n.as_str());
        r
    }
}

/// The outcome of an elevated run that exited with `exit_code`: success
/// exactly when it is zero.
pub fn relaunch_outcome(exit_code: u32) -> (r: Result<(), ElevationError>)
    ensures
        exit_code == 0 <==> r is Ok,
        r is Err ==> r == Err::<(), ElevationError>(ElevationError { exit_code }),
{
    if exit_code == 0 {
        Ok(())
    } else {
        Err(ElevationError { exit_code })
    }
}

pub open spec fn output_file_text(process_id: nat) -> Seq<char> {
    "forceops_"@ + decimal(process_id) + ".tmp"@
}

/// The name of the temporary file that receives the output of the elevated
/// child of the process `process_id`.
pub fn output_file_name(process_id: u32) -> (r: String)
    ensures
        r@ == output_file_text(process_id as nat),
{
    let mut r = String::from_str("forceops_");
    let n = decimal_text(process_id as u64);
    r.append(n.as_str());
    r.append(".tmp");
    r
}

/// An argument as it stands on a command line: quoted when it holds a space.
pub open spec fn quoted(arg: Seq<char>) -> Seq<char> {
    if has_substring(arg, " "@) {
        "\""@ + arg + "\""@
    } else {
        arg
    }
}

/// The arguments, each quoted where needed, separated by single spaces.
pub open spec fn joined(args: Seq<Seq<char>>) -> Seq<char>
    decreases args.len(),
{
    if args.len() == 0 {
        Seq::empty()
    } else if args.len() == 1 {
        quoted(args[0])
    } else {
        joined(args.drop_last()) + " "@ + quoted(args.last())
    }
}

pub open spec fn texts(args: Seq<String>) -> Seq<Seq<char>> {
    args.map_values(|a: String| a@)
}

/// The arguments after the program name; none when there is no argument.
pub open spec fn after_program(args: Seq<Seq<char>>) -> Seq<Seq<char>> {
    if args.len() == 0 {
        Seq::empty()
    } else {
        args.drop_first()
    }
}

/// The parameters of the shell that runs `executable` with `args` (the
/// first of which, the program name, is left out), sending its standard
/// output to `output_file` and its standard error after it.
pub open spec fn relaunch_text(
    executable: Seq<char>,
    args: Seq<Seq<char>>,
    output_file: Seq<char>,
) -> Seq<char> {
    "/c \"\""@ + executable + "\" "@ + joined(after_program(args)) + " > \""@ + output_file
        + "\" 2>&1\""@
}

fn quote_argument(arg: &str) -> (r: String)
    ensures
        r@ == quoted(arg@),
{
    let a = chars_of(arg);
    let space = chars_of(" ");
    if contains(&a, &space) {
        let mut r = String::from_str("\"");
        r.append(arg);
        r.append("\"");
        r
    } else {
        String::from_str(arg)
    }
}

/// The arguments after the first, quoted where needed, separated by spaces.
pub fn join_arguments(args: &Vec<String>) -> (r: String)
    ensures
        r@ == joined(after_program(texts(args@))),
{
    let mut r = String::new();
    if args.len() == 0 {
        return r;
    }
    assert(after_program(texts(args@)) == texts(args@).drop_first());
    let ghost all = texts(args@);
    let mut i: usize = 1;
    while i < args.len()
        invariant
            1 <= i <= args@.len(),
            all == texts(args@),
            r@ == joined(all.subrange(1, i as int)),
        decreases args@.len() - i,
    {
        let q = quote_argument(args[i].as_str());
        proof {
            let next = all.subrange(1, i + 1);
            assert(next.drop_last() =~= all.subrange(1, i as int));
            assert(next.last() == args@[i as int]@);
        }
        if i > 1 {
            r.append(" ");
        }
        r.append(q.as_str());
        i = i + 1;
    }
    assert(all.subrange(1, args@.len() as int) =~= all.drop_first());
    r
}

/// The parameters of the shell that runs `executable` elevated with the
/// arguments `args` (program name first), sending its combined output to
/// `output_file`, standard error included.
pub fn relaunch_parameters(executable: &str, args: &Vec<String>, output_file: &str) -> (r:
    String)
    ensures
        r@ == relaunch_text(executable@, texts(args@), output_file@),
{
    let joined_args = join_arguments(args);
    let mut r = String::from_str("/c \"\"");
    r.append(executable);
    r.append("\" ");
    r.append(joined_args.as_str());
    r.append(" > \"");
    r.append(output_file);
    r.append("\" 2>&1\"");
    r
}

} // verus!
