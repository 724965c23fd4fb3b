//! The version-control adapter: what each command is run with, and how its
//! exit status and output are read. Running the process is the caller's part;
//! it hands back a `CommandOutput`.
use vstd::prelude::*;
use crate::text::{trimmed, trim, chars_of, next_word, first_word, parse_u32, parse_u32_range, contains, str_contains};

verus! {

/// What a finished process left behind.
#[derive(Debug, Clone)]
pub struct CommandOutput {
    pub success: bool,
    pub code: Option<i32>,
    pub stdout: String,
    pub stderr: String,
}

/// A command that failed: the command line, and what it reported.
#[derive(Debug, Clone)]
pub struct CommandError {
    pub command: String,
    pub detail: String,
}

impl CommandError {
    /// A copy of this error.
    pub fn duplicate(&self) -> (r: Self)
        ensures
            r == *self,
    {
        CommandError { command: self.command.clone(), detail: self.detail.clone() }
    }

    /// `"<command> failed: <detail>"`.
    pub fn message(&self) -> (r: String)
        ensures
            r@ == self.command@ + " failed: "@ + self.detail@,
    {
        let mut s = self.command.clone();
        s.append(" failed: ");
        s.append(self.detail.as_str());
        s
    }
}


/// `r` is the failure of `command`, with the output's stderr as its detail.
pub open spec fn failed_with(r: CommandError, command: Seq<char>, out: CommandOutput) -> bool {
    r.command@ == command && r.detail == out.stderr
}

fn failure(command: &str, out: &CommandOutput) -> (r: CommandError)
    ensures
        failed_with(r, command@, *out),
{
    CommandError { command: String::from_str(command), detail: out.stderr.clone() }
}

/// `r` reads `out` of `command` as a plain success or failure.
pub open spec fn checked(r: Result<(), CommandError>, command: Seq<char>, out: CommandOutput) -> bool {
    if out.success {
        r is Ok
    } else {
        r matches Err(e) && failed_with(e, command, out)
    }
}

/// `r` reads `out` of `command` as its trimmed standard output.
pub open spec fn read_trimmed(r: Result<String, CommandError>, command: Seq<char>, out: CommandOutput) -> bool {
    if out.success {
        r matches Ok(v) && v@ == trimmed(out.stdout@)
    } else {
        r matches Err(e) && failed_with(e, command, out)
    }
}

fn check(command: &str, out: &CommandOutput) -> (r: Result<(), CommandError>)
    ensures
        checked(r, command@, *out),
{
    if out.success {
        Ok(())
    } else {
        Err(failure(command, out))
    }
}

fn read_stdout(command: &str, out: &CommandOutput) -> (r: Result<String, CommandError>)
    ensures
        read_trimmed(r, command@, *out),
{
    if out.success {
        Ok(trim(out.stdout.as_str()))
    } else {
        Err(failure(command, out))
    }
}

/// `left` then `...` then `right`: the symmetric range `rev-list` counts over.
pub open spec fn range_of(left: Seq<char>, right: Seq<char>) -> Seq<char> {
    left + "..."@ + right
}

/// The two counts at the head of `rev-list --left-right --count` output.
pub open spec fn counts_of(s: Seq<char>) -> Option<(u32, u32)> {
    match first_word(s) {
        None => None,
        Some((w1, rest)) => match first_word(rest) {
            None => None,
            Some((w2, _)) => match (parse_u32(w1), parse_u32(w2)) {
                (Some(a), Some(b)) => Some((a, b)),
                _ => None,
            },
        },
    }
}

/// Reads the two counts at the head of `s`.
pub fn parse_counts(s: &str) -> (r: Option<(u32, u32)>)
    ensures
        r == counts_of(s@),
{
    let v = chars_of(s);
    assert(v@.subrange(0, v@.len() as int) =~= v@);
    match next_word(&v, 0) {
        None => None,
        Some((a, b)) => match next_word(&v, b) {
            None => None,
            Some((c, d)) => {
                let x = parse_u32_range(&v, a, b);
                let y = parse_u32_range(&v, c, d);
                match (x, y) {
                    (Some(ahead), Some(behind)) => Some((ahead, behind)),
                    _ => None,
                }
            },
        },
    }
}

/// `r` reads `out` of the divergence command `command`: the counts, or a
/// failure whose detail is the output that could not be read.
pub open spec fn read_counts(r: Result<(u32, u32), CommandError>, command: Seq<char>, out: CommandOutput) -> bool {
    if !out.success {
        r matches Err(e) && failed_with(e, command, out)
    } else {
        match counts_of(out.stdout@) {
            Some(c) => r == Ok::<(u32, u32), CommandError>(c),
            None => r matches Err(e) && e.command@ == command && e.detail@
                == "unexpected output: "@ + out.stdout@,
        }
    }
}

fn divergence_of(command: &str, out: &CommandOutput) -> (r: Result<(u32, u32), CommandError>)
    ensures
        read_counts(r, command@, *out),
{
    if !out.success {
        return Err(failure(command, out));
    }
    match parse_counts(out.stdout.as_str()) {
        Some(c) => Ok(c),
        None => {
            let mut detail = String::from_str("unexpected output: ");
            detail.append(out.stdout.as_str());
            Err(CommandError { command: String::from_str(command), detail })
        },
    }
}

fn text2(a: &str, b: &str) -> (r: String)
    ensures
        r@ == a@ + b@,
{
    let mut s = String::from_str(a);
    s.append(b);
    s
}

fn text3(a: &str, b: &str, c: &str) -> (r: String)
    ensures
        r@ == a@ + b@ + c@,
{
    let mut s = String::from_str(a);
    s.append(b);
    s.append(c);
    s
}

/// Reads `git reset --hard origin/<branch>`.
pub fn git_reset_to_branch(out: &CommandOutput, branch: &str) -> (r: Result<(), CommandError>)
    ensures
        checked(r, "git reset --hard origin/"@ + branch@, *out),
{
    let command = text2("git reset --hard origin/", branch);
    check(command.as_str(), out)
}

/// Reads `git rev-parse HEAD`: the commit id.
pub fn git_head_commit(out: &CommandOutput) -> (r: Result<String, CommandError>)
    ensures
        read_trimmed(r, "git rev-parse HEAD"@, *out),
{
    read_stdout("git rev-parse HEAD", out)
}

/// Reads `git rev-parse --abbrev-ref HEAD`: the branch name.
pub fn git_current_branch(out: &CommandOutput) -> (r: Result<String, CommandError>)
    ensures
        read_trimmed(r, "git rev-parse --abbrev-ref HEAD"@, *out),
{
    read_stdout("git rev-parse --abbrev-ref HEAD", out)
}

/// Reads `git status --porcelain`: clean when it lists nothing.
pub fn git_is_clean(out: &CommandOutput) -> (r: Result<bool, CommandError>)
    ensures
        out.success ==> r == Ok::<bool, CommandError>(out.stdout@.len() == 0),
        !out.success ==> (r matches Err(e) && failed_with(e, "git status --porcelain"@, *out)),
{
    if out.success {
        Ok(out.stdout.as_str().unicode_len() == 0)
    } else {
        Err(failure("git status --porcelain", out))
    }
}

/// Reads `git fetch <remote>`.
pub fn git_fetch_remote(out: &CommandOutput, remote: &str) -> (r: Result<(), CommandError>)
    ensures
        checked(r, "git fetch "@ + remote@, *out),
{
    let command = text2("git fetch ", remote);
    check(command.as_str(), out)
}

/// Reads `git rev-list --left-right --count <left>...<right>`: commits only
/// in `left`, and only in `right`.
pub fn git_divergence(out: &CommandOutput, left: &str, right: &str) -> (r: Result<(u32, u32), CommandError>)
    ensures
        read_counts(r, "git rev-list --left-right --count "@ + range_of(left@, right@), *out),
{
    let range = text3(left, "...", right);
    let command = text2("git rev-list --left-right --count ", range.as_str());
    divergence_of(command.as_str(), out)
}

/// Reads `git merge --ff-only <target>`.
pub fn git_merge_ff_only(out: &CommandOutput, target: &str) -> (r: Result<(), CommandError>)
    ensures
        checked(r, "git merge --ff-only "@ + target@, *out),
{
    let command = text2("git merge --ff-only ", target);
    check(command.as_str(), out)
}

/// Reads `git merge --no-edit [-s <strategy>] [-X <option>] <target>`.
pub fn git_merge_with_strategy(out: &CommandOutput, target: &str) -> (r: Result<(), CommandError>)
    ensures
        checked(r, "git merge "@ + target@, *out),
{
    let command = text2("git merge ", target);
    check(command.as_str(), out)
}

/// Reads `git merge --abort`.
pub fn git_merge_abort(out: &CommandOutput) -> (r: Result<(), CommandError>)
    ensures
        checked(r, "git merge --abort"@, *out),
{
    check("git merge --abort", out)
}

/// The note `git stash push` leaves when there was nothing to stash.
pub open spec fn nothing_to_stash() -> Seq<char> {
    "No local changes to save"@
}

/// Reads `git stash push`: whether anything was stashed.
pub fn git_stash_push(out: &CommandOutput) -> (r: Result<bool, CommandError>)
    ensures
        out.success ==> r == Ok::<bool, CommandError>(
            !(contains(out.stdout@, nothing_to_stash()) || contains(out.stderr@, nothing_to_stash())),
        ),
        !out.success ==> (r matches Err(e) && failed_with(e, "git stash push"@, *out)),
{
    if !out.success {
        return Err(failure("git stash push", out));
    }
    let none = "No local changes to save";
    let quiet = str_contains(out.stdout.as_str(), none) || str_contains(out.stderr.as_str(), none);
    Ok(!quiet)
}

/// Reads `git stash pop --index`.
pub fn git_stash_pop(out: &CommandOutput) -> (r: Result<(), CommandError>)
    ensures
        checked(r, "git stash pop --index"@, *out),
{
    check("git stash pop --index", out)
}

/// Reads `cargo build --release`.
pub fn cargo_build_release(out: &CommandOutput) -> (r: Result<(), CommandError>)
    ensures
        checked(r, "cargo build --release"@, *out),
{
    check("cargo build --release", out)
}

} // verus!
