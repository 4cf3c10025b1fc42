//! The command surface, as plain data; parsing it is the caller's part.
use crate::config::ForceOpsConfig;
use vstd::prelude::*;

verus! {

/// A parsed invocation.
#[derive(Debug, Clone)]
pub struct Cli {
    pub command: Commands,
}

/// The operations offered.
#[derive(Debug, Clone)]
pub enum Commands {
    /// Delete files or directories recursively.
    Delete {
        /// Files or directories to delete.
        files: Vec<String>,
        /// Ignore nonexistent files and arguments.
        force: bool,
        /// Do not attempt to elevate if the file can't be deleted.
        disable_elevate: bool,
        /// Delay in ms when retrying to delete a file, after killing processes holding a lock.
        retry_delay: u64,
        /// Number of retries when deleting a locked file.
        max_retries: u32,
    },
    /// Output the processes using a file or directory.
    List {
        /// File or directory to get the locks of.
        file_or_directory: String,
    },
}

impl Commands {
    /// The settings of a deletion; `None` for a listing.
    pub fn config(&self) -> (r: Option<ForceOpsConfig>)
        ensures
            match self {
                Commands::Delete { disable_elevate, retry_delay, max_retries, .. } => r == Some(
                    ForceOpsConfig {
                        max_retries: *max_retries,
                        retry_delay_ms: *retry_delay,
                        disable_elevate: *disable_elevate,
                    },
                ),
                Commands::List { .. } => r is None,
            },
    {
        match self {
            Commands::Delete { disable_elevate, retry_delay, max_retries, .. } => Some(
                ForceOpsConfig {
                    max_retries: *max_retries,
                    retry_delay_ms: *retry_delay,
                    disable_elevate: *disable_elevate,
                },
            ),
            Commands::List { .. } => None,
        }
    }
}

/// The argument is a force flag.
pub open spec fn is_force_flag(a: Seq<char>) -> bool {
    a == "-f"@ || a == "--force"@
}

/// The arguments of the elevated relaunch: those given, with `-f` added
/// unless a force flag is among them, so that the relaunched run does not
/// fail on targets already removed.
pub fn with_force_flag(args: Vec<String>) -> (r: Vec<String>)
    ensures
        (exists|i: int| 0 <= i < args@.len() && is_force_flag(#[trigger] args@[i]@)) ==> r@
            == args@,
        !(exists|i: int| 0 <= i < args@.len() && is_force_flag(#[trigger] args@[i]@)) ==> (r@.len()
            == args@.len() + 1 && r@.subrange(0, args@.len() as int) == args@ && r@.last()@
            == "-f"@),
{
    let short = String::from_str("-f");
    let long = String::from_str("--force");
    let mut i: usize = 0;
    while i < args.len()
        invariant
            i <= args@.len(),
            short@ == "-f"@,
            long@ == "--force"@,
            forall|k: int| 0 <= k < i ==> !is_force_flag(#[trigger] args@[k]@),
        decreases args@.len() - i,
    {
        if args[i] == short || args[i] == long {
            assert(is_force_flag(args@[i as int]@));
            return args;
        }
        i = i + 1;
    }
    let mut r = args;
    r.push(short);
    assert(r@.subrange(0, args@.len() as int) =~= args@);
    r
}

} // verus!
