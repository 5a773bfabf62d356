//! Shell utilities: which shell the user runs, and which profile it reads.

use crate::paths::chars_of;
use vstd::prelude::*;
use vstd::string::*;

verus! {

/// The shell function that the hook adds to the user's profile: it
/// registers freshly built binaries whenever the build tool is run.
pub const INSTALL_BASH_FUNCTION: &'static str =
    "\nfunction cargo() {\n    if ~/.cargo/bin/cargo hoist --help &>/dev/null; then\n      ~/.cargo/bin/cargo hoist install\n    fi\n    ~/.cargo/bin/cargo \"$@\"\n}\n";

/// The type of shell
#[derive(Debug, Clone, Copy, PartialEq, Eq, Structural)]
pub enum ShellType {
    /// Zsh
    Zsh,
    /// Bash
    Bash,
    /// Other
    Other,
}

/// Whether `needle` stands in `text` at index `at`.
pub open spec fn occurs_at(needle: Seq<char>, text: Seq<char>, at: int) -> bool {
    0 <= at && at + needle.len() <= text.len() && text.subrange(at, at + needle.len()) == needle
}

/// Whether `needle` stands somewhere in `text`.
pub open spec fn occurs_in(needle: Seq<char>, text: Seq<char>) -> bool {
    exists|at: int| occurs_at(needle, text, at)
}

/// The shell that the path of the user's shell program names; bash where no
/// shell is known.
pub open spec fn shell_of(shell: Option<Seq<char>>) -> ShellType {
    match shell {
        None => ShellType::Bash,
        Some(path) => if occurs_in("zsh"@, path) {
            ShellType::Zsh
        } else if occurs_in("bash"@, path) {
            ShellType::Bash
        } else {
            ShellType::Other
        },
    }
}

/// The profile file of a shell of type `shell_type` for the home directory
/// `home`: `.zshrc` for zsh, `.bashrc` for any other.
pub open spec fn profile_of(shell_type: ShellType, home: Seq<char>) -> Seq<char> {
    match shell_type {
        ShellType::Zsh => home + "/.zshrc"@,
        _ => home + "/.bashrc"@,
    }
}

/// Decides [`occurs_at`].
fn stands_at(text: &Vec<char>, needle: &Vec<char>, at: usize) -> (found: bool)
    requires
        at + needle.len() <= text.len(),
    ensures
        found == occurs_at(needle@, text@, at as int),
{
    let mut k: usize = 0;
    while k < needle.len()
        invariant
            k <= needle.len(),
            at + needle.len() <= text.len(),
            forall|j: int| 0 <= j < k ==> text@[at + j] == needle@[j],
        decreases needle.len() - k,
    {
        if text[at + k] != needle[k] {
            return false;
        }
        k = k + 1;
    }
    assert(text@.subrange(at as int, at + needle.len()) == needle@);
    true
}

/// Whether `needle` stands somewhere in `text`.
pub fn contains(text: &str, needle: &str) -> (found: bool)
    ensures
        found == occurs_in(needle@, text@),
{
    let hay = chars_of(text);
    let pattern = chars_of(needle);
    if pattern.len() > hay.len() {
        return false;
    }
    let last = hay.len() - pattern.len();
    let mut at: usize = 0;
    loop
        invariant
            at <= last,
            last + pattern.len() == hay.len(),
            hay@ == text@,
            pattern@ == needle@,
            forall|k: int| 0 <= k < at ==> !occurs_at(needle@, text@, k),
        decreases last - at,
    {
        if stands_at(&hay, &pattern, at) {
            return true;
        }
        if at == last {
            return false;
        }
        at = at + 1;
    }
}

/// The view of an optional string slice.
pub open spec fn optional_str(text: Option<&str>) -> Option<Seq<char>> {
    match text {
        Some(t) => Some(t@),
        None => None,
    }
}

/// Detect the type of shell a user is using from the path of the shell
/// program, as the environment gives it: zsh where the path mentions `zsh`,
/// else bash where it mentions `bash`, else another shell. Where the
/// environment names no shell, bash is assumed.
pub fn detect_shell(shell: Option<&str>) -> (shell_type: ShellType)
    ensures
        shell_type == shell_of(optional_str(shell)),
{
    match shell {
        None => ShellType::Bash,
        Some(path) => {
            if contains(path, "zsh") {
                ShellType::Zsh
            } else if contains(path, "bash") {
                ShellType::Bash
            } else {
                ShellType::Other
            }
        },
    }
}

/// Helper to get the path to the user's shell config file.
pub fn get_shell_config_file(shell_type: ShellType, home: &str) -> (profile: String)
    ensures
        profile@ == profile_of(shell_type, home@),
{
    let mut profile = String::from_str(home);
    match shell_type {
        ShellType::Zsh => profile.append("/.zshrc"),
        _ => profile.append("/.bashrc"),
    }
    profile
}

} // verus!
