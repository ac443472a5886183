//! Character-level text helpers: whitespace, prefixes, substrings, tokens and
//! the removal of terminal escape sequences.
use vstd::prelude::*;
use vstd::string::*;

verus! {

/// Unicode `White_Space` characters, the set that `char::is_whitespace` tests for.
pub open spec fn is_space(c: char) -> bool {
    let n = c as u32;
    (0x9 <= n && n <= 0xd) || n == 0x20 || n == 0x85 || n == 0xa0 || n == 0x1680 || (0x2000 <= n
        && n <= 0x200a) || n == 0x2028 || n == 0x2029 || n == 0x202f || n == 0x205f || n == 0x3000
}

/// `pre` stands at the start of `s`.
pub open spec fn starts_with(s: Seq<char>, pre: Seq<char>) -> bool {
    pre.len() <= s.len() && s.subrange(0, pre.len() as int) == pre
}

/// `pat` stands at position `k` of `s`.
pub open spec fn occurs_at(s: Seq<char>, pat: Seq<char>, k: int) -> bool {
    0 <= k && k + pat.len() <= s.len() && s.subrange(k, k + pat.len()) == pat
}

/// `pat` stands somewhere in `s`.
pub open spec fn contains(s: Seq<char>, pat: Seq<char>) -> bool {
    exists|k: int| occurs_at(s, pat, k)
}

/// The leading run of non-space characters of `s`.
pub open spec fn leading_word(s: Seq<char>) -> Seq<char>
    decreases s.len(),
{
    if s.len() == 0 || is_space(s[0]) {
        Seq::empty()
    } else {
        seq![s[0]] + leading_word(s.drop_first())
    }
}

/// The first whitespace-delimited token of `s`; empty when `s` holds only spaces.
pub open spec fn first_token(s: Seq<char>) -> Seq<char>
    decreases s.len(),
{
    if s.len() == 0 {
        Seq::empty()
    } else if is_space(s[0]) {
        first_token(s.drop_first())
    } else {
        leading_word(s)
    }
}

/// The two-state escape automaton run over `s`: the text kept so far, and whether
/// it ends inside an escape sequence. An escape starts at ESC and ends at `m`.
pub open spec fn ansi_scan(s: Seq<char>) -> (Seq<char>, bool)
    decreases s.len(),
{
    if s.len() == 0 {
        (Seq::empty(), false)
    } else {
        let (kept, in_escape) = ansi_scan(s.drop_last());
        let c = s.last();
        if c == '\x1b' {
            (kept, true)
        } else if in_escape {
            (kept, c != 'm')
        } else {
            (kept.push(c), false)
        }
    }
}

/// `s` with every escape sequence removed.
pub open spec fn strip_ansi(s: Seq<char>) -> Seq<char> {
    ansi_scan(s).0
}

/// Relies on `String::push`: appends one character.
#[verifier::external_body]
pub(crate) fn push_char(s: &mut String, c: char)
    ensures
        final(s)@ == old(s)@.push(c),
{
    s.push(c);
}

/// Relies on `String::pop`: removes the last character, if there is one.
#[verifier::external_body]
pub(crate) fn pop_char(s: &mut String) -> (r: Option<char>)
    ensures
        old(s)@.len() == 0 ==> r is None && final(s)@ == old(s)@,
        old(s)@.len() > 0 ==> r == Some(old(s)@.last()) && final(s)@ == old(s)@.drop_last(),
{
    s.pop()
}

/// Whether `c` is a Unicode whitespace character.
pub fn is_space_char(c: char) -> (r: bool)
    ensures
        r == is_space(c),
{
    let n = c as u32;
    (0x9 <= n && n <= 0xd) || n == 0x20 || n == 0x85 || n == 0xa0 || n == 0x1680 || (0x2000 <= n
        && n <= 0x200a) || n == 0x2028 || n == 0x2029 || n == 0x202f || n == 0x205f || n == 0x3000
}

/// Whether `pat` stands at position `k` of `s`.
pub fn occurs_at_exec(s: &str, pat: &str, k: usize) -> (r: bool)
    ensures
        r == occurs_at(s@, pat@, k as int),
{
    let n = s.unicode_len();
    let m = pat.unicode_len();
    if k > n || m > n - k {
        return false;
    }
    let mut j: usize = 0;
    while j < m
        invariant
            n == s@.len(),
            m == pat@.len(),
            k + m <= n,
            j <= m,
            forall|t: int| 0 <= t < j ==> s@[k + t] == pat@[t],
        decreases m - j,
    {
        if s.get_char(k + j) != pat.get_char(j) {
            assert(s@.subrange(k as int, k + m)[j as int] != pat@[j as int]);
            return false;
        }
        j = j + 1;
    }
    assert(s@.subrange(k as int, k + m) =~= pat@);
    true
}

/// Whether `s` starts with `name` followed by a dash.
pub fn starts_with_dashed(s: &str, name: &str) -> (r: bool)
    ensures
        r == starts_with(s@, name@.push('-')),
{
    let m = name.unicode_len();
    if !occurs_at_exec(s, name, 0) || m >= s.unicode_len() {
        proof {
            let p = name@.push('-');
            if starts_with(s@, p) {
                assert(s@.subrange(0, m as int) =~= p.subrange(0, m as int));
                assert(p.subrange(0, m as int) =~= name@);
            }
        }
        return false;
    }
    let c = s.get_char(m);
    proof {
        if c == '-' {
            assert(s@.subrange(0, m + 1) =~= name@.push('-'));
        } else if starts_with(s@, name@.push('-')) {
            assert(s@.subrange(0, m + 1)[m as int] == name@.push('-')[m as int]);
        }
    }
    c == '-'
}

/// Whether `pat` stands anywhere in `s`.
pub fn contains_exec(s: &str, pat: &str) -> (r: bool)
    ensures
        r == contains(s@, pat@),
{
    let n = s.unicode_len();
    let m = pat.unicode_len();
    if m > n {
        return false;
    }
    if m == 0 {
        assert(s@.subrange(0, 0) =~= pat@);
        assert(occurs_at(s@, pat@, 0));
        return true;
    }
    let mut k: usize = 0;
    while k <= n - m
        invariant
            n == s@.len(),
            m == pat@.len(),
            1 <= m <= n,
            k <= n - m + 1,
            forall|t: int| 0 <= t < k ==> !occurs_at(s@, pat@, t),
        decreases n - m + 1 - k,
    {
        if occurs_at_exec(s, pat, k) {
            return true;
        }
        k = k + 1;
    }
    false
}

/// The first whitespace-delimited token of `s`.
pub fn first_token_exec(s: &str) -> (r: String)
    ensures
        r@ == first_token(s@),
{
    let n = s.unicode_len();
    let mut i: usize = 0;
    assert(s@.subrange(0, n as int) =~= s@);
    while i < n && is_space_char(s.get_char(i))
        invariant
            n == s@.len(),
            i <= n,
            first_token(s@) == first_token(s@.subrange(i as int, n as int)),
        decreases n - i,
    {
        assert(s@.subrange(i + 1, n as int) =~= s@.subrange(i as int, n as int).drop_first());
        i = i + 1;
    }
    let ghost rest = s@.subrange(i as int, n as int);
    assert(first_token(rest) == leading_word(rest));
    let mut r = String::new();
    let mut j: usize = i;
    while j < n && !is_space_char(s.get_char(j))
        invariant
            n == s@.len(),
            i <= j <= n,
            rest == s@.subrange(i as int, n as int),
            leading_word(rest) == r@ + leading_word(s@.subrange(j as int, n as int)),
        decreases n - j,
    {
        let c = s.get_char(j);
        assert(s@.subrange(j + 1, n as int) =~= s@.subrange(j as int, n as int).drop_first());
        assert(r@.push(c) + leading_word(s@.subrange(j + 1, n as int)) =~= r@ + (seq![c]
            + leading_word(s@.subrange(j + 1, n as int))));
        push_char(&mut r, c);
        j = j + 1;
    }
    assert(leading_word(s@.subrange(j as int, n as int)) =~= Seq::<char>::empty());
    assert(r@ + Seq::<char>::empty() =~= r@);
    r
}

/// `s` with its terminal escape sequences (ESC up to and including `m`) removed.
pub fn strip_ansi_codes(s: &str) -> (r: String)
    ensures
        r@ == strip_ansi(s@),
{
    let n = s.unicode_len();
    let mut result = String::new();
    let mut in_escape = false;
    let mut i: usize = 0;
    while i < n
        invariant
            n == s@.len(),
            i <= n,
            (result@, in_escape) == ansi_scan(s@.take(i as int)),
        decreases n - i,
    {
        let ch = s.get_char(i);
        assert(s@.take(i + 1).drop_last() =~= s@.take(i as int));
        if ch == '\x1b' {
            in_escape = true;
        } else if in_escape {
            if ch == 'm' {
                in_escape = false;
            }
        } else {
            push_char(&mut result, ch);
        }
        i = i + 1;
    }
    assert(s@.take(n as int) =~= s@);
    result
}

} // verus!
