//! The session directory: reading the session manager's listing, and telling
//! conforming sessions from those to clean up.
use crate::text::{
    contains, contains_exec, first_token, first_token_exec, push_char, starts_with,
    starts_with_dashed, strip_ansi, strip_ansi_codes,
};
use vstd::prelude::*;
use vstd::string::*;

verus! {

/// A running session as the session manager lists it.
pub struct LiveSession {
    pub raw_name: String,
    pub is_exited: bool,
}

impl View for LiveSession {
    type V = (Seq<char>, bool);

    open spec fn view(&self) -> (Seq<char>, bool) {
        (self.raw_name@, self.is_exited)
    }
}

/// The views of a list of sessions.
pub open spec fn sessions_view(v: Seq<LiveSession>) -> Seq<(Seq<char>, bool)> {
    Seq::new(v.len(), |i: int| v[i]@)
}

/// The views of a list of strings.
pub open spec fn strings_view(v: Seq<String>) -> Seq<Seq<char>> {
    Seq::new(v.len(), |i: int| v[i]@)
}

/// Splitting `s` at newlines: the finished lines, and the line still open.
pub open spec fn line_scan(s: Seq<char>) -> (Seq<Seq<char>>, Seq<char>)
    decreases s.len(),
{
    if s.len() == 0 {
        (Seq::empty(), Seq::empty())
    } else {
        let (done, cur) = line_scan(s.drop_last());
        if s.last() == '\n' {
            (done.push(cur), Seq::empty())
        } else {
            (done, cur.push(s.last()))
        }
    }
}

/// The lines of `s`; a final line needs no newline, and no empty line follows
/// a final newline.
pub open spec fn lines_of(s: Seq<char>) -> Seq<Seq<char>> {
    let (done, cur) = line_scan(s);
    if cur.len() == 0 {
        done
    } else {
        done.push(cur)
    }
}

/// One listing line read as a session: its first token after escape
/// sequences are removed, and whether the line says `EXITED`. A blank line
/// holds no session.
pub open spec fn parse_line(line: Seq<char>) -> Option<(Seq<char>, bool)> {
    let clean = strip_ansi(line);
    let name = first_token(clean);
    if name.len() == 0 {
        None
    } else {
        Some((name, contains(clean, "EXITED"@)))
    }
}

/// The sessions that a sequence of listing lines holds, in order.
pub open spec fn sessions_of_lines(lines: Seq<Seq<char>>) -> Seq<(Seq<char>, bool)>
    decreases lines.len(),
{
    if lines.len() == 0 {
        Seq::empty()
    } else {
        let prev = sessions_of_lines(lines.drop_last());
        match parse_line(lines.last()) {
            Some(s) => prev.push(s),
            None => prev,
        }
    }
}

/// The sessions that a listing holds, in order.
pub open spec fn listing_sessions(text: Seq<char>) -> Seq<(Seq<char>, bool)> {
    sessions_of_lines(lines_of(text))
}

/// `name` belongs to some logical name of `scheme`: it starts with that name
/// and a dash.
pub open spec fn conforms(name: Seq<char>, scheme: Seq<Seq<char>>) -> bool {
    exists|j: int| 0 <= j < scheme.len() && starts_with(name, #[trigger] scheme[j].push('-'))
}

/// The names of the live sessions that do not conform to `scheme`, in order.
pub open spec fn cleanup_list(sessions: Seq<(Seq<char>, bool)>, scheme: Seq<Seq<char>>) -> Seq<
    Seq<char>,
>
    decreases sessions.len(),
{
    if sessions.len() == 0 {
        Seq::empty()
    } else {
        let prev = cleanup_list(sessions.drop_last(), scheme);
        let (name, exited) = sessions.last();
        if !exited && !conforms(name, scheme) {
            prev.push(name)
        } else {
            prev
        }
    }
}

/// Reads one listing line as a session; `None` for a blank line.
pub fn parse_session_line(line: &str) -> (r: Option<LiveSession>)
    ensures
        match r {
            Some(s) => parse_line(line@) == Some(s@),
            None => parse_line(line@) is None,
        },
{
    let clean = strip_ansi_codes(line);
    let name = first_token_exec(clean.as_str());
    if name.unicode_len() == 0 {
        None
    } else {
        let is_exited = contains_exec(clean.as_str(), "EXITED");
        Some(LiveSession { raw_name: name, is_exited })
    }
}

/// Reads the session manager's listing: one session per non-blank line.
pub fn parse_listing(text: &str) -> (r: Vec<LiveSession>)
    ensures
        sessions_view(r@) == listing_sessions(text@),
{
    let n = text.unicode_len();
    let mut out: Vec<LiveSession> = Vec::new();
    let mut cur = String::new();
    let ghost mut done: Seq<Seq<char>> = Seq::empty();
    let mut i: usize = 0;
    while i < n
        invariant
            n == text@.len(),
            i <= n,
            line_scan(text@.take(i as int)) == (done, cur@),
            sessions_view(out@) == sessions_of_lines(done),
        decreases n - i,
    {
        let c = text.get_char(i);
        assert(text@.take(i + 1).drop_last() =~= text@.take(i as int));
        if c == '\n' {
            let ghost prev_out = out@;
            proof {
                assert(done.push(cur@).drop_last() =~= done);
            }
            match parse_session_line(cur.as_str()) {
                Some(s) => {
                    out.push(s);
                    assert(sessions_view(out@) =~= sessions_view(prev_out).push(s@));
                },
                None => {},
            }
            proof {
                done = done.push(cur@);
            }
            cur = String::new();
        } else {
            push_char(&mut cur, c);
        }
        i = i + 1;
    }
    assert(text@.take(n as int) =~= text@);
    if cur.unicode_len() > 0 {
        let ghost prev_out = out@;
        proof {
            assert(done.push(cur@).drop_last() =~= done);
        }
        match parse_session_line(cur.as_str()) {
            Some(s) => {
                out.push(s);
                assert(sessions_view(out@) =~= sessions_view(prev_out).push(s@));
            },
            None => {},
        }
    }
    out
}

/// Whether `name` belongs to a logical name of `scheme`.
pub fn is_conforming(name: &str, scheme: &Vec<String>) -> (r: bool)
    ensures
        r == conforms(name@, strings_view(scheme@)),
{
    let ghost sv = strings_view(scheme@);
    for j in 0..scheme.len()
        invariant
            sv == strings_view(scheme@),
            forall|t: int| 0 <= t < j ==> !starts_with(name@, #[trigger] sv[t].push('-')),
    {
        if starts_with_dashed(name, scheme[j].as_str()) {
            assert(starts_with(name@, sv[j as int].push('-')));
            return true;
        }
    }
    false
}

/// The sessions to terminate before the picker is shown: those that are live
/// and conform to no logical name of `scheme`, in listing order.
pub fn cleanup_targets(sessions: &Vec<LiveSession>, scheme: &Vec<String>) -> (r: Vec<String>)
    ensures
        strings_view(r@) == cleanup_list(sessions_view(sessions@), strings_view(scheme@)),
{
    let ghost sv = sessions_view(sessions@);
    let ghost schv = strings_view(scheme@);
    let mut r: Vec<String> = Vec::new();
    for i in 0..sessions.len()
        invariant
            sv == sessions_view(sessions@),
            schv == strings_view(scheme@),
            strings_view(r@) == cleanup_list(sv.take(i as int), schv),
    {
        assert(sv.take(i + 1).drop_last() =~= sv.take(i as int));
        let s = &sessions[i];
        if !s.is_exited && !is_conforming(s.raw_name.as_str(), scheme) {
            let ghost prev = r@;
            r.push(s.raw_name.clone());
            assert(strings_view(r@) =~= strings_view(prev).push(s.raw_name@));
        }
    }
    assert(sv.take(sessions@.len() as int) =~= sv);
    r
}

} // verus!
