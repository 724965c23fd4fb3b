//! How the built binary is launched: it is pointed at the caller's working
//! directory unless the arguments already name one.
use vstd::prelude::*;
use crate::text::{starts_with, str_starts_with};

verus! {

/// `a` names a working directory: `-C`, `--cd`, or `--cd=<dir>`.
pub open spec fn is_cwd_flag(a: Seq<char>) -> bool {
    a == "-C"@ || a == "--cd"@ || starts_with(a, "--cd="@)
}

/// Some argument names a working directory.
pub open spec fn names_cwd(args: Seq<String>) -> bool {
    exists|i: int| 0 <= i < args.len() && is_cwd_flag((#[trigger] args[i])@)
}

fn is_cwd_flag_exec(a: &String) -> (r: bool)
    ensures
        r == is_cwd_flag(a@),
{
    let short = String::from_str("-C");
    let long = String::from_str("--cd");
    *a == short || *a == long || str_starts_with(a.as_str(), "--cd=")
}

/// Whether the arguments already name a working directory.
pub fn contains_cwd_flag(args: &Vec<String>) -> (r: bool)
    ensures
        r == names_cwd(args@),
{
    let mut i: usize = 0;
    while i < args.len()
        invariant
            i <= args@.len(),
            forall|k: int| 0 <= k < i ==> !is_cwd_flag((#[trigger] args@[k])@),
        decreases args@.len() - i,
    {
        if is_cwd_flag_exec(&args[i]) {
            return true;
        }
        i = i + 1;
    }
    false
}

/// The arguments to launch with: as given where they name a working
/// directory, else `-C <cwd>` followed by them.
pub fn append_default_cwd_arg(args: &Vec<String>, cwd: &str) -> (r: Vec<String>)
    ensures
        names_cwd(args@) ==> r@ == args@,
        !names_cwd(args@) ==> r@.len() == args@.len() + 2 && r@[0]@ == "-C"@ && r@[1]@ == cwd@
            && r@.subrange(2, r@.len() as int) == args@,
{
    let named = contains_cwd_flag(args);
    let mut out: Vec<String> = Vec::new();
    if !named {
        out.push(String::from_str("-C"));
        out.push(String::from_str(cwd));
    }
    let ghost start = out@.len();
    let mut i: usize = 0;
    while i < args.len()
        invariant
            i <= args@.len(),
            start == out@.len() - i,
            start == (if named { 0int } else { 2int }),
            !named ==> out@[0]@ == "-C"@ && out@[1]@ == cwd@,
            out@.subrange(start as int, out@.len() as int) == args@.subrange(0, i as int),
        decreases args@.len() - i,
    {
        let ghost before = out@;
        out.push(args[i].clone());
        assert(out@.subrange(start as int, out@.len() as int) =~= args@.subrange(0, i + 1));
        i = i + 1;
    }
    assert(args@.subrange(0, args@.len() as int) =~= args@);
    if named {
        assert(out@ =~= out@.subrange(0, out@.len() as int));
    }
    out
}


/// Whether the updater is due before launching: there is no stamp of the
/// last update, or it is older than the interval. The stamp's age is in
/// milliseconds.
pub fn needs_update(stamp_age_ms: Option<u128>, interval_secs: u64) -> (r: bool)
    ensures
        r == match stamp_age_ms {
            None => true,
            Some(age) => age > interval_secs as u128 * 1000,
        },
{
    match stamp_age_ms {
        None => true,
        Some(age) => age > interval_secs as u128 * 1000,
    }
}

} // verus!
