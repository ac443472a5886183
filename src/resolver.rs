//! The attach-or-create decision for a chosen logical name, and the argument
//! that hands it to the session manager.
use crate::directory::{sessions_view, LiveSession};
use crate::text::{push_char, starts_with, starts_with_dashed};
use vstd::prelude::*;
use vstd::string::*;

verus! {

/// What to launch: an existing session, or a new one made from a layout.
pub enum LaunchDirective {
    /// Attach to the running session of this name.
    Attach(String),
    /// Create the session named first, from the layout of the logical name
    /// second, and attach to it.
    CreateAndAttach(String, String),
}

/// The first live session, in listing order, that belongs to `logical`.
pub open spec fn first_live_match(sessions: Seq<(Seq<char>, bool)>, logical: Seq<char>) -> Option<
    Seq<char>,
>
    decreases sessions.len(),
{
    if sessions.len() == 0 {
        None
    } else if !sessions[0].1 && starts_with(sessions[0].0, logical.push('-')) {
        Some(sessions[0].0)
    } else {
        first_live_match(sessions.drop_first(), logical)
    }
}

/// The argument that hands a directive to the session manager.
pub open spec fn launch_arg(d: LaunchDirective) -> Seq<char> {
    match d {
        LaunchDirective::Attach(name) => "-s "@ + name@,
        LaunchDirective::CreateAndAttach(name, logical) => "-s "@ + name@ + " -l "@ + logical@,
    }
}

/// Appends the characters of `t` to `s`.
pub fn append_str(s: &mut String, t: &str)
    ensures
        final(s)@ == old(s)@ + t@,
{
    let n = t.unicode_len();
    for i in 0..n
        invariant
            n == t@.len(),
            s@ == old(s)@ + t@.take(i as int),
    {
        push_char(s, t.get_char(i));
        assert(old(s)@ + t@.take(i + 1) =~= (old(s)@ + t@.take(i as int)).push(t@[i as int]));
    }
    assert(t@.take(n as int) =~= t@);
}

/// Decides what to launch for `logical`: the first live session that belongs
/// to it if there is one, else a new session named `logical-timestamp`.
pub fn resolve(logical: &str, sessions: &Vec<LiveSession>, timestamp: &str) -> (r: LaunchDirective)
    ensures
        match first_live_match(sessions_view(sessions@), logical@) {
            Some(name) => r is Attach && r->Attach_0@ == name,
            None => r is CreateAndAttach && r->CreateAndAttach_0@ == logical@.push('-')
                + timestamp@ && r->CreateAndAttach_1@ == logical@,
        },
{
    let ghost sv = sessions_view(sessions@);
    let mut i: usize = 0;
    assert(sv.subrange(0, sv.len() as int) =~= sv);
    while i < sessions.len()
        invariant
            sv == sessions_view(sessions@),
            i <= sessions@.len(),
            first_live_match(sv, logical@) == first_live_match(sv.subrange(i as int, sv.len() as int), logical@),
        decreases sessions@.len() - i,
    {
        let s = &sessions[i];
        assert(sv.subrange(i + 1, sv.len() as int) =~= sv.subrange(i as int, sv.len() as int).drop_first());
        if !s.is_exited && starts_with_dashed(s.raw_name.as_str(), logical) {
            return LaunchDirective::Attach(s.raw_name.clone());
        }
        i = i + 1;
    }
    let mut name = logical.to_owned();
    push_char(&mut name, '-');
    append_str(&mut name, timestamp);
    LaunchDirective::CreateAndAttach(name, logical.to_owned())
}

/// Relies on chrono's `Local::now` formatted with `%Y%m%d-%H%M%S`: the local
/// time of this moment, to the second.
#[verifier::external_body]
fn local_timestamp() -> String {
    chrono::Local::now().format("%Y%m%d-%H%M%S").to_string()
}

/// Decides what to launch for `logical`, stamping a new session with the local
/// time now.
pub fn resolve_now(logical: &str, sessions: &Vec<LiveSession>) -> (r: LaunchDirective)
    ensures
        match first_live_match(sessions_view(sessions@), logical@) {
            Some(name) => r is Attach && r->Attach_0@ == name,
            None => r is CreateAndAttach && starts_with(r->CreateAndAttach_0@, logical@.push('-'))
                && r->CreateAndAttach_1@ == logical@,
        },
{
    let timestamp = local_timestamp();
    let r = resolve(logical, sessions, timestamp.as_str());
    proof {
        if first_live_match(sessions_view(sessions@), logical@) is None {
            let p = logical@.push('-');
            assert((p + timestamp@).subrange(0, p.len() as int) =~= p);
        }
    }
    r
}

/// The argument for the session manager's switch plugin: `-s name` to attach,
/// `-s name -l logical` to create from a layout.
pub fn session_arg(d: &LaunchDirective) -> (r: String)
    ensures
        r@ == launch_arg(*d),
{
    let mut r = "-s ".to_owned();
    match d {
        LaunchDirective::Attach(name) => {
            append_str(&mut r, name.as_str());
        },
        LaunchDirective::CreateAndAttach(name, logical) => {
            append_str(&mut r, name.as_str());
            append_str(&mut r, " -l ");
            append_str(&mut r, logical.as_str());
        },
    }
    r
}

} // verus!
