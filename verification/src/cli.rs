//! The command line as values: what was asked for, and which operation of
//! the registry that amounts to.

use crate::error::texts;
use crate::utils::{ascending, merge_and_dedup_vecs, optional_texts};
use vstd::prelude::*;

verus! {

/// Global Config Options
#[derive(Debug, Clone, PartialEq, Eq)]
pub struct GlobalOpts {
    /// Verbosity level (0-4). Default: 0 (ERROR).
    pub verbosity: u8,
    /// Suppress all stdout.
    pub quiet: bool,
}

/// Subcommands
#[derive(Debug, Clone, PartialEq, Eq)]
pub enum Command {
    /// Hoist dependencies
    Hoist {
        /// An optional list of binaries to bring into scope from the registry
        bins: Option<Vec<String>>,
        /// Binary list flag. Merged and de-duplicated with any binaries
        /// provided in the inline argument.
        binaries: Option<Vec<String>>,
    },
    /// List registered dependencies.
    List,
    /// Search for a binary in the registry.
    Search {
        /// The binary to search for in the registry.
        binary: String,
    },
    /// Nuke wipes the registry.
    Nuke,
    /// Registers a binary in the global registry
    Register {
        /// An optional list of binaries to install in the registry
        bins: Option<Vec<String>>,
        /// Binary list flag. Merged and de-duplicated with any binaries
        /// provided in the inline argument.
        binaries: Option<Vec<String>>,
    },
}

/// Command line arguments
#[derive(Debug, Clone, PartialEq, Eq)]
pub struct Args {
    /// Global options
    pub globals: GlobalOpts,
    /// The subcommand
    pub command: Option<Command>,
}

/// How much is logged.
#[derive(Debug, Clone, Copy, PartialEq, Eq, Structural)]
pub enum LogLevel {
    /// Errors only.
    Error,
    /// Warnings too.
    Warn,
    /// Information too.
    Info,
    /// Debugging output too.
    Debug,
    /// Everything.
    Trace,
}

/// The operation of the registry that a command line asks for.
#[derive(Debug, Clone, PartialEq, Eq)]
pub enum Operation {
    /// Register the binaries of the current project: all of them where
    /// `names` is empty, else the named ones.
    Install {
        /// The binaries to register.
        names: Vec<String>,
        /// Whether to keep quiet.
        quiet: bool,
    },
    /// Bring registered binaries into scope.
    Hoist {
        /// The binaries to hoist.
        names: Vec<String>,
        /// Whether to keep quiet.
        quiet: bool,
    },
    /// Look one binary up.
    Find {
        /// The name to look up.
        name: String,
    },
    /// List every registered binary.
    List {
        /// Whether to keep quiet.
        quiet: bool,
    },
    /// Reset the registry.
    Nuke {
        /// Whether to keep quiet.
        quiet: bool,
    },
}

/// Whether `names` is the merge of the two lists: it ascends strictly and
/// holds exactly their strings.
pub open spec fn is_merge_of(
    names: Seq<Seq<char>>,
    first: Option<Vec<String>>,
    second: Option<Vec<String>>,
) -> bool {
    ascending(names) && names.to_set() == optional_texts(first).to_set().union(
        optional_texts(second).to_set(),
    )
}

/// Whether `operation` is what `args` asks for.
///
/// No command installs everything from the current project. `Hoist` and
/// `Register` work on the merge of the flagged and the inline names; the
/// quiet flag goes with these. `Search`, `List` and `Nuke` are never quiet.
pub open spec fn asks_for(args: Args, operation: Operation) -> bool {
    match args.command {
        None => operation matches Operation::Install { names, quiet } && names@.len() == 0
            && quiet == args.globals.quiet,
        Some(Command::Hoist { bins, binaries }) => operation matches Operation::Hoist {
            names,
            quiet,
        } && is_merge_of(texts(names@), binaries, bins) && quiet == args.globals.quiet,
        Some(Command::Search { binary }) => operation matches Operation::Find { name } && name@
            == binary@,
        Some(Command::List) => operation matches Operation::List { quiet } && !quiet,
        Some(Command::Register { bins, binaries }) => operation matches Operation::Install {
            names,
            quiet,
        } && is_merge_of(texts(names@), binaries, bins) && quiet == args.globals.quiet,
        Some(Command::Nuke) => operation matches Operation::Nuke { quiet } && !quiet,
    }
}

/// The level of logging for a verbosity: errors at 0, then warnings,
/// information, debugging output, and everything from 4 on.
pub open spec fn level_of(verbosity: u8) -> LogLevel {
    if verbosity == 0 {
        LogLevel::Error
    } else if verbosity == 1 {
        LogLevel::Warn
    } else if verbosity == 2 {
        LogLevel::Info
    } else if verbosity == 3 {
        LogLevel::Debug
    } else {
        LogLevel::Trace
    }
}

/// The level of logging that `verbosity` asks for.
pub fn log_level(verbosity: u8) -> (level: LogLevel)
    ensures
        level == level_of(verbosity),
{
    match verbosity {
        0 => LogLevel::Error,
        1 => LogLevel::Warn,
        2 => LogLevel::Info,
        3 => LogLevel::Debug,
        _ => LogLevel::Trace,
    }
}

/// Run the main hoist command: decides which operation the arguments ask
/// for.
pub fn run(args: Args) -> (operation: Operation)
    ensures
        asks_for(args, operation),
{
    let quiet = args.globals.quiet;
    match args.command {
        None => Operation::Install { names: Vec::new(), quiet },
        Some(c) => match c {
            Command::Hoist { binaries, bins } => Operation::Hoist {
                names: merge_and_dedup_vecs(binaries, bins),
                quiet,
            },
            Command::Search { binary } => Operation::Find { name: binary },
            Command::List => Operation::List { quiet: false },
            Command::Register { binaries, bins } => Operation::Install {
                names: merge_and_dedup_vecs(binaries, bins),
                quiet,
            },
            Command::Nuke => Operation::Nuke { quiet: false },
        },
    }
}

} // verus!
