use forksmith::git::{git_divergence, git_head_commit, git_is_clean, git_stash_push, parse_counts, CommandOutput};
use forksmith::repo::{ensure_repo, RepoError};
use forksmith::text::{count_lines, decimal_string, str_contains, trim};

fn output(success: bool, stdout: &str, stderr: &str) -> CommandOutput {
    CommandOutput { success, code: None, stdout: stdout.into(), stderr: stderr.into() }
}

#[test]
fn decimal_rendering() {
    assert_eq!(decimal_string(0), "0");
    assert_eq!(decimal_string(10), "10");
    assert_eq!(decimal_string(4294967295), "4294967295");
}

#[test]
fn trimming() {
    assert_eq!(trim("  abc \n"), "abc");
    assert_eq!(trim("\u{3000}x\u{a0}"), "x");
    assert_eq!(trim(" \t "), "");
}

#[test]
fn counts_parsing() {
    assert_eq!(parse_counts("1\t2\n"), Some((1, 2)));
    assert_eq!(parse_counts("+1 02"), Some((1, 2)));
    assert_eq!(parse_counts("1"), None);
    assert_eq!(parse_counts("1 -2"), None);
    assert_eq!(parse_counts("4294967296 0"), None);
    assert_eq!(parse_counts("4294967295 0 extra"), Some((4294967295, 0)));
}

#[test]
fn line_counting() {
    assert_eq!(count_lines(""), 0);
    assert_eq!(count_lines("a"), 1);
    assert_eq!(count_lines("a\n"), 1);
    assert_eq!(count_lines("a\nb"), 2);
    assert_eq!(count_lines("\n\n"), 2);
}

#[test]
fn substring_search() {
    assert!(str_contains("abcabd", "abd"));
    assert!(!str_contains("abc", "abcd"));
    assert!(str_contains("abc", ""));
}

#[test]
fn adapter_reads_outputs() {
    assert_eq!(git_head_commit(&output(true, "deadbeef\n", "")).unwrap(), "deadbeef");
    let e = git_head_commit(&output(false, "", "not a repo")).unwrap_err();
    assert_eq!(e.command, "git rev-parse HEAD");
    assert_eq!(e.detail, "not a repo");
    assert!(git_is_clean(&output(true, "", "")).unwrap());
    assert!(!git_is_clean(&output(true, "?? x\n", "")).unwrap());
    assert_eq!(git_divergence(&output(true, "0\t3\n", ""), "HEAD", "upstream/main").unwrap(), (0, 3));
    let e = git_divergence(&output(false, "", "bad ref"), "HEAD", "x/y").unwrap_err();
    assert_eq!(e.command, "git rev-list --left-right --count HEAD...x/y");
    assert!(!git_stash_push(&output(true, "", "No local changes to save")).unwrap());
}

#[test]
fn repo_checks() {
    assert_eq!(ensure_repo("r", false, false), Err(RepoError::Missing { repo: "r".into() }));
    assert_eq!(ensure_repo("r", true, false), Err(RepoError::NotARepository { repo: "r".into() }));
    assert_eq!(ensure_repo("r", true, true), Ok(()));
}
