//! Small text routines over `Seq<char>` models: decimal rendering, whitespace
//! trimming, token and line scanning, substring search.
use vstd::prelude::*;

verus! {

/// The decimal digit character for `d < 10`.
pub open spec fn digit_char(d: nat) -> char {
    seq!['0', '1', '2', '3', '4', '5', '6', '7', '8', '9'][d as int]
}

/// The shortest decimal rendering of `n`.
pub open spec fn decimal(n: nat) -> Seq<char>
    decreases n,
{
    if n < 10 {
        seq![digit_char(n)]
    } else {
        decimal(n / 10).push(digit_char(n % 10))
    }
}

fn digit_str(d: u32) -> (r: String)
    requires
        d < 10,
    ensures
        r@ == seq![digit_char(d as nat)],
{
    let digits = "0123456789";
    proof {
        reveal_strlit("0123456789");
    }
    assert(digits@ =~= seq!['0', '1', '2', '3', '4', '5', '6', '7', '8', '9']);
    let one = digits.substring_char(d as usize, d as usize + 1);
    assert(one@ =~= seq![digit_char(d as nat)]);
    String::from_str(one)
}

/// Renders `n` in decimal.
pub fn decimal_string(n: u32) -> (r: String)
    ensures
        r@ == decimal(n as nat),
    decreases n,
{
    if n < 10 {
        digit_str(n)
    } else {
        let mut s = decimal_string(n / 10);
        let last = digit_str(n % 10);
        s.append(last.as_str());
        assert(s@ =~= decimal((n / 10) as nat).push(digit_char((n % 10) as nat)));
        s
    }
}


/// Unicode White_Space, the set that `char::is_whitespace` tests.
pub open spec fn is_ws(c: char) -> bool {
    c == ' ' || ('\t' <= c && c <= '\r') || c == '\u{85}' || c == '\u{a0}'
        || c == '\u{1680}' || ('\u{2000}' <= c && c <= '\u{200a}') || c == '\u{2028}'
        || c == '\u{2029}' || c == '\u{202f}' || c == '\u{205f}' || c == '\u{3000}'
}

pub fn is_whitespace(c: char) -> (r: bool)
    ensures
        r == is_ws(c),
{
    c == ' ' || ('\t' <= c && c <= '\r') || c == '\u{85}' || c == '\u{a0}' || c == '\u{1680}'
        || ('\u{2000}' <= c && c <= '\u{200a}') || c == '\u{2028}' || c == '\u{2029}'
        || c == '\u{202f}' || c == '\u{205f}' || c == '\u{3000}'
}

/// The characters of `s`, in order.
pub fn chars_of(s: &str) -> (v: Vec<char>)
    ensures
        v@ == s@,
{
    let n = s.unicode_len();
    let mut v: Vec<char> = Vec::new();
    let mut i: usize = 0;
    while i < n
        invariant
            n == s@.len(),
            i <= n,
            v@ == s@.subrange(0, i as int),
        decreases n - i,
    {
        v.push(s.get_char(i));
        i = i + 1;
        assert(v@ =~= s@.subrange(0, i as int));
    }
    assert(v@ =~= s@);
    v
}

/// `s` without leading whitespace.
pub open spec fn skip_ws(s: Seq<char>) -> Seq<char>
    decreases s.len(),
{
    if s.len() > 0 && is_ws(s[0]) {
        skip_ws(s.drop_first())
    } else {
        s
    }
}

/// `s` without trailing whitespace.
pub open spec fn skip_ws_back(s: Seq<char>) -> Seq<char>
    decreases s.len(),
{
    if s.len() > 0 && is_ws(s.last()) {
        skip_ws_back(s.drop_last())
    } else {
        s
    }
}

/// `s` without leading and trailing whitespace, as `str::trim` gives it.
pub open spec fn trimmed(s: Seq<char>) -> Seq<char> {
    skip_ws_back(skip_ws(s))
}

/// The number of leading characters of `s` that are not whitespace.
pub open spec fn word_len(s: Seq<char>) -> nat
    decreases s.len(),
{
    if s.len() > 0 && !is_ws(s[0]) {
        1 + word_len(s.drop_first())
    } else {
        0
    }
}

/// The first whitespace-delimited word of `s` and what follows it, if `s` has one.
pub open spec fn first_word(s: Seq<char>) -> Option<(Seq<char>, Seq<char>)> {
    let t = skip_ws(s);
    let w = word_len(t);
    if w == 0 {
        None
    } else {
        Some((t.subrange(0, w as int), t.subrange(w as int, t.len() as int)))
    }
}

proof fn lemma_skip_ws_step(s: Seq<char>, i: int)
    requires
        0 <= i < s.len(),
        is_ws(s[i]),
    ensures
        skip_ws(s.subrange(i, s.len() as int)) == skip_ws(s.subrange(i + 1, s.len() as int)),
{
    assert(s.subrange(i, s.len() as int).drop_first() =~= s.subrange(i + 1, s.len() as int));
}

proof fn lemma_skip_ws_back_step(s: Seq<char>, j: int)
    requires
        0 < j <= s.len(),
        is_ws(s[j - 1]),
    ensures
        skip_ws_back(s.subrange(0, j)) == skip_ws_back(s.subrange(0, j - 1)),
{
    assert(s.subrange(0, j).drop_last() =~= s.subrange(0, j - 1));
}

proof fn lemma_word_len_step(s: Seq<char>, i: int, j: int)
    requires
        0 <= i <= j < s.len(),
        !is_ws(s[j]),
    ensures
        word_len(s.subrange(j, s.len() as int)) == 1 + word_len(s.subrange(j + 1, s.len() as int)),
{
    assert(s.subrange(j, s.len() as int).drop_first() =~= s.subrange(j + 1, s.len() as int));
}

/// Index of the first character at or after `from` that is not whitespace
/// (or the length), with `skip_ws` stated over it.
fn skip_ws_from(v: &Vec<char>, from: usize) -> (r: usize)
    requires
        from <= v@.len(),
    ensures
        from <= r <= v@.len(),
        skip_ws(v@.subrange(from as int, v@.len() as int)) == v@.subrange(r as int, v@.len() as int),
{
    let n = v.len();
    let mut i = from;
    while i < n && is_whitespace(v[i])
        invariant
            n == v@.len(),
            from <= i <= n,
            skip_ws(v@.subrange(from as int, n as int)) == skip_ws(v@.subrange(i as int, n as int)),
        decreases n - i,
    {
        proof {
            lemma_skip_ws_step(v@, i as int);
        }
        i = i + 1;
    }
    proof {
        let rest = v@.subrange(i as int, n as int);
        if i < n {
            assert(rest[0] == v@[i as int]);
        }
        assert(skip_ws(rest) == rest);
    }
    i
}

/// Index just past the last character of the word starting at `from`.
fn word_end(v: &Vec<char>, from: usize) -> (r: usize)
    requires
        from <= v@.len(),
    ensures
        from <= r <= v@.len(),
        word_len(v@.subrange(from as int, v@.len() as int)) == r - from,
{
    let n = v.len();
    let mut j = from;
    while j < n && !is_whitespace(v[j])
        invariant
            n == v@.len(),
            from <= j <= n,
            word_len(v@.subrange(from as int, n as int)) == (j - from) + word_len(
                v@.subrange(j as int, n as int),
            ),
        decreases n - j,
    {
        proof {
            lemma_word_len_step(v@, from as int, j as int);
        }
        j = j + 1;
    }
    proof {
        let rest = v@.subrange(j as int, n as int);
        if j < n {
            assert(rest[0] == v@[j as int]);
        }
        assert(word_len(rest) == 0);
    }
    j
}

/// `s` with leading and trailing whitespace removed.
pub fn trim(s: &str) -> (r: String)
    ensures
        r@ == trimmed(s@),
{
    let v = chars_of(s);
    let n = v.len();
    let start = skip_ws_from(&v, 0);
    assert(v@.subrange(0, n as int) =~= v@);
    let mut end = n;
    while end > start && is_whitespace(v[end - 1])
        invariant
            n == v@.len(),
            start <= end <= n,
            skip_ws_back(v@.subrange(start as int, n as int)) == skip_ws_back(
                v@.subrange(start as int, end as int),
            ),
        decreases end,
    {
        proof {
            let t = v@.subrange(start as int, n as int);
            lemma_skip_ws_back_step(t, end - start);
            assert(t.subrange(0, end - start) =~= v@.subrange(start as int, end as int));
            assert(t.subrange(0, end - start - 1) =~= v@.subrange(start as int, end - 1));
        }
        end = end - 1;
    }
    proof {
        let u = v@.subrange(start as int, end as int);
        if end > start {
            assert(u.last() == v@[end - 1]);
        }
        assert(skip_ws_back(u) == u);
        assert(v@ == s@);
    }
    String::from_str(s.substring_char(start, end))
}

/// The decimal value of a string of digits.
pub open spec fn digits_value(s: Seq<char>) -> nat
    decreases s.len(),
{
    if s.len() == 0 {
        0
    } else {
        10 * digits_value(s.drop_last()) + ((s.last() as u32 - '0' as u32) as nat)
    }
}

pub open spec fn is_digit(c: char) -> bool {
    '0' <= c && c <= '9'
}

/// `s` without one leading `+`, if it has one.
pub open spec fn unsigned_part(s: Seq<char>) -> Seq<char> {
    if s.len() > 0 && s[0] == '+' {
        s.drop_first()
    } else {
        s
    }
}

pub open spec fn all_digits(d: Seq<char>) -> bool {
    forall|i: int| 0 <= i < d.len() ==> is_digit(#[trigger] d[i])
}

/// What `str::parse::<u32>` accepts: an optional `+`, then one or more digits,
/// whose value fits in `u32`.
pub open spec fn parse_u32(s: Seq<char>) -> Option<u32> {
    let d = unsigned_part(s);
    if d.len() > 0 && all_digits(d) && digits_value(d) <= u32::MAX {
        Some(digits_value(d) as u32)
    } else {
        None
    }
}

/// Parses `v@.subrange(from, to)` as `str::parse::<u32>` does.
pub fn parse_u32_range(v: &Vec<char>, from: usize, to: usize) -> (r: Option<u32>)
    requires
        from <= to <= v@.len(),
    ensures
        r == parse_u32(v@.subrange(from as int, to as int)),
{
    let ghost s = v@.subrange(from as int, to as int);
    let mut i = from;
    if i < to && v[i] == '+' {
        i = i + 1;
    }
    let ghost d = v@.subrange(i as int, to as int);
    assert(d =~= unsigned_part(s));
    if i == to {
        return None;
    }
    let start = i;
    let mut acc: u64 = 0;
    let mut over = false;
    while i < to
        invariant
            from <= start <= i <= to <= v@.len(),
            d == v@.subrange(start as int, to as int),
            s == v@.subrange(from as int, to as int),
            d == unsigned_part(s),
            forall|k: int| start <= k < i ==> is_digit(#[trigger] v@[k]),
            !over ==> acc as nat == digits_value(v@.subrange(start as int, i as int)) && acc
                <= u32::MAX,
            over ==> digits_value(v@.subrange(start as int, i as int)) > u32::MAX,
        decreases to - i,
    {
        let c = v[i];
        if !('0' <= c && c <= '9') {
            assert(!is_digit(c));
            assert(0 <= i - start < d.len());
            assert(d[(i - start) as int] == c);
            assert(!is_digit(d[(i - start) as int]));
            assert(!all_digits(d));
            return None;
        }
        let ghost prev = v@.subrange(start as int, i as int);
        assert(v@.subrange(start as int, i + 1).drop_last() =~= prev);
        let dv = (c as u32 - '0' as u32) as u64;
        if !over {
            acc = acc * 10 + dv;
            if acc > u32::MAX as u64 {
                over = true;
            }
        } else {
            assert(10 * digits_value(prev) + dv >= digits_value(prev)) by (nonlinear_arith);
        }
        i = i + 1;
    }
    assert(v@.subrange(start as int, i as int) =~= d);
    if over {
        None
    } else {
        Some(acc as u32)
    }
}


/// Bounds `(start, end)` of the first word of `v@.subrange(from, len)`, if there is one.
pub fn next_word(v: &Vec<char>, from: usize) -> (r: Option<(usize, usize)>)
    requires
        from <= v@.len(),
    ensures
        match first_word(v@.subrange(from as int, v@.len() as int)) {
            None => r is None,
            Some((w, rest)) => r matches Some((a, b)) && from <= a < b <= v@.len() && w
                == v@.subrange(a as int, b as int) && rest == v@.subrange(b as int, v@.len() as int),
        },
{
    let n = v.len();
    let a = skip_ws_from(v, from);
    let b = word_end(v, a);
    proof {
        let t = v@.subrange(a as int, n as int);
        assert(t.subrange(0, (b - a) as int) =~= v@.subrange(a as int, b as int));
        assert(t.subrange((b - a) as int, t.len() as int) =~= v@.subrange(b as int, n as int));
    }
    if a == b {
        None
    } else {
        Some((a, b))
    }
}

/// `p` occurs in `s` starting at `i`.
pub open spec fn occurs_at(s: Seq<char>, p: Seq<char>, i: int) -> bool {
    0 <= i && i + p.len() <= s.len() && s.subrange(i, i + p.len()) == p
}

/// `p` occurs somewhere in `s`, as `str::contains` tests.
pub open spec fn contains(s: Seq<char>, p: Seq<char>) -> bool {
    exists|i: int| occurs_at(s, p, i)
}

/// `s` begins with `p`.
pub open spec fn starts_with(s: Seq<char>, p: Seq<char>) -> bool {
    occurs_at(s, p, 0)
}

fn occurs_at_exec(s: &Vec<char>, p: &Vec<char>, i: usize) -> (r: bool)
    requires
        i + p@.len() <= s@.len(),
    ensures
        r == occurs_at(s@, p@, i as int),
{
    let mut k: usize = 0;
    while k < p.len()
        invariant
            i + p.len() <= s.len(),
            k <= p@.len(),
            forall|m: int| 0 <= m < k ==> s@[i + m] == p@[m],
        decreases p@.len() - k,
    {
        if s[i + k] != p[k] {
            assert(s@.subrange(i as int, i + p@.len())[k as int] != p@[k as int]);
            return false;
        }
        k = k + 1;
    }
    assert(s@.subrange(i as int, i + p@.len()) =~= p@);
    true
}

/// Whether `p` occurs in `s`.
pub fn str_contains(s: &str, p: &str) -> (r: bool)
    ensures
        r == contains(s@, p@),
{
    let sv = chars_of(s);
    let pv = chars_of(p);
    if pv.len() > sv.len() {
        return false;
    }
    if pv.len() == 0 {
        assert(s@.subrange(0, 0) =~= p@);
        assert(occurs_at(s@, p@, 0));
        return true;
    }
    let last = sv.len() - pv.len();
    let mut i: usize = 0;
    while i <= last
        invariant
            last == sv@.len() - pv@.len(),
            last < sv.len(),
            i <= last + 1,
            sv@ == s@,
            pv@ == p@,
            forall|j: int| 0 <= j < i ==> !occurs_at(s@, p@, j),
        decreases last + 1 - i,
    {
        if occurs_at_exec(&sv, &pv, i) {
            return true;
        }
        i = i + 1;
    }
    assert forall|j: int| !occurs_at(s@, p@, j) by {
        if 0 <= j && j + p@.len() <= s@.len() {
            assert(j <= last);
        }
    }
    false
}

/// Whether `s` begins with `p`.
pub fn str_starts_with(s: &str, p: &str) -> (r: bool)
    ensures
        r == starts_with(s@, p@),
{
    let sv = chars_of(s);
    let pv = chars_of(p);
    if pv.len() > sv.len() {
        return false;
    }
    occurs_at_exec(&sv, &pv, 0)
}

/// `s@.subrange(i, j)` is one of the lines that `str::lines` yields: it starts
/// the text or follows a newline, runs up to a newline or the end, and is not
/// the empty remainder after a final newline. (A line's trailing `\r` is kept here.)
pub open spec fn is_line(s: Seq<char>, i: int, j: int) -> bool {
    &&& 0 <= i <= j <= s.len()
    &&& i < s.len()
    &&& (i == 0 || s[i - 1] == '\n')
    &&& (j == s.len() || s[j] == '\n')
    &&& forall|k: int| i <= k < j ==> s[k] != '\n'
}

/// The number of newlines in `s`.
pub open spec fn newline_count(s: Seq<char>) -> nat
    decreases s.len(),
{
    if s.len() == 0 {
        0
    } else {
        newline_count(s.drop_last()) + if s.last() == '\n' {
            1nat
        } else {
            0nat
        }
    }
}

/// How many lines `str::lines` yields for `s`.
pub open spec fn line_count(s: Seq<char>) -> nat {
    if s.len() == 0 {
        0
    } else {
        1 + newline_count(s.drop_last())
    }
}

/// Counts the lines of `s` as `str::lines().count()` does.
pub fn count_lines(s: &str) -> (r: usize)
    ensures
        r == line_count(s@),
{
    let v = chars_of(s);
    let n = v.len();
    if n == 0 {
        return 0;
    }
    let mut i: usize = 0;
    let mut count: usize = 1;
    while i < n - 1
        invariant
            n == v@.len(),
            n > 0,
            i <= n - 1,
            count == 1 + newline_count(v@.subrange(0, i as int)),
            count <= i + 1,
        decreases n - 1 - i,
    {
        assert(v@.subrange(0, i + 1).drop_last() =~= v@.subrange(0, i as int));
        if v[i] == '\n' {
            count = count + 1;
        }
        i = i + 1;
    }
    assert(v@.subrange(0, (n - 1) as int) =~= v@.drop_last());
    assert(v@ == s@);
    count
}

/// Whether some line of `s`, trimmed, equals `item`.
pub open spec fn has_trimmed_line(s: Seq<char>, item: Seq<char>) -> bool {
    exists|i: int, j: int| is_line(s, i, j) && trimmed(#[trigger] s.subrange(i, j)) == item
}

} // verus!
