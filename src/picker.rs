//! The selection state machine: a query, the candidates it ranks, and a cursor.
use crate::catalog::{names_of, Session};
use crate::ranker::{identity, rank, ranked, scores_of, skim_score};
use crate::text::{pop_char, push_char};
use vstd::arithmetic::div_mod::{lemma_add_mod_noop_right, lemma_mod_add_multiples_vanish, lemma_small_mod};
use vstd::prelude::*;
use vstd::string::*;

verus! {

/// A key press, as the terminal reports it.
pub enum Key {
    Char(char),
    Up,
    Down,
    Enter,
    Esc,
    Backspace,
    Other,
}

/// What a key press means to the picker.
pub enum Event {
    MoveNext,
    MovePrevious,
    AppendChar(char),
    Backspace,
    ClearOrCancel,
    Cancel,
    Commit,
    Ignore,
}

/// The picker after one event: still browsing, or done.
pub enum Outcome {
    Browsing,
    Committed(String),
    Cancelled,
}

/// The event a key stands for. `q` quits on an empty query and is text
/// otherwise; `j`, `k` and the arrows always move the cursor.
pub open spec fn key_event(key: Key, query_empty: bool) -> Event {
    match key {
        Key::Char(c) => if c == 'q' {
            if query_empty {
                Event::Cancel
            } else {
                Event::AppendChar(c)
            }
        } else if c == 'j' {
            Event::MoveNext
        } else if c == 'k' {
            Event::MovePrevious
        } else {
            Event::AppendChar(c)
        },
        Key::Down => Event::MoveNext,
        Key::Up => Event::MovePrevious,
        Key::Enter => Event::Commit,
        Key::Esc => Event::ClearOrCancel,
        Key::Backspace => Event::Backspace,
        Key::Other => Event::Ignore,
    }
}

/// Maps a key press to its event, given whether the query is empty.
pub fn event_of_key(key: Key, query_empty: bool) -> (r: Event)
    ensures
        r == key_event(key, query_empty),
{
    match key {
        Key::Char(c) => if c == 'q' {
            if query_empty {
                Event::Cancel
            } else {
                Event::AppendChar(c)
            }
        } else if c == 'j' {
            Event::MoveNext
        } else if c == 'k' {
            Event::MovePrevious
        } else {
            Event::AppendChar(c)
        },
        Key::Down => Event::MoveNext,
        Key::Up => Event::MovePrevious,
        Key::Enter => Event::Commit,
        Key::Esc => Event::ClearOrCancel,
        Key::Backspace => Event::Backspace,
        Key::Other => Event::Ignore,
    }
}

/// The cursor after moving forward over `n` candidates, wrapping at the end.
pub open spec fn next_cursor(c: nat, n: nat) -> nat {
    if n > 0 {
        (c + 1) % n
    } else {
        c
    }
}

/// The cursor after moving back over `n` candidates, wrapping at the start.
pub open spec fn previous_cursor(c: nat, n: nat) -> nat {
    if n == 0 {
        c
    } else if c > 0 {
        (c - 1) as nat
    } else {
        (n - 1) as nat
    }
}

/// The cursor after `k` forward moves.
pub open spec fn next_times(c: nat, n: nat, k: nat) -> nat
    decreases k,
{
    if k == 0 {
        c
    } else {
        next_cursor(next_times(c, n, (k - 1) as nat), n)
    }
}

/// The picker's state over a fixed catalog.
pub struct App {
    pub sessions: Vec<Session>,
    pub selected: usize,
    pub minimal: bool,
    pub search_query: String,
    pub filtered_indices: Vec<usize>,
}

impl App {
    /// The candidates are the catalog ranked against the query, and the cursor
    /// points at one of them (or is 0 when there are none).
    pub open spec fn wf(&self) -> bool {
        &&& ranked(names_of(self.sessions@), self.search_query@, self.filtered_indices@)
        &&& forall|k: int|
            0 <= k < self.filtered_indices@.len() ==> #[trigger] self.filtered_indices@[k]
                < self.sessions@.len()
        &&& self.filtered_indices@.len() > 0 ==> self.selected < self.filtered_indices@.len()
        &&& self.filtered_indices@.len() == 0 ==> self.selected == 0
    }

    /// The name under the cursor; empty when there are no candidates.
    pub open spec fn selected_name(&self) -> Seq<char> {
        if self.filtered_indices@.len() > 0 {
            self.sessions@[self.filtered_indices@[self.selected as int] as int].name@
        } else {
            Seq::empty()
        }
    }

    /// `post` is `self` with the query replaced by `q`, re-ranked, cursor reset.
    pub open spec fn requeried(&self, post: App, q: Seq<char>) -> bool {
        &&& post.search_query@ == q
        &&& post.selected == 0
    }

    /// `post` has the same query, candidates and cursor as `self`.
    pub open spec fn same_view(&self, post: App) -> bool {
        &&& post.search_query@ == self.search_query@
        &&& post.filtered_indices@ == self.filtered_indices@
        &&& post.selected == self.selected
    }

    /// One transition: `self` becomes `post` on `ev`, with outcome `out`.
    pub open spec fn stepped(&self, post: App, ev: Event, out: Outcome) -> bool {
        let n = self.filtered_indices@.len();
        &&& post.sessions@ == self.sessions@
        &&& post.minimal == self.minimal
        &&& match ev {
            Event::MoveNext => out is Browsing && post.search_query@ == self.search_query@
                && post.filtered_indices@ == self.filtered_indices@ && post.selected as nat
                == next_cursor(self.selected as nat, n),
            Event::MovePrevious => out is Browsing && post.search_query@ == self.search_query@
                && post.filtered_indices@ == self.filtered_indices@ && post.selected as nat
                == previous_cursor(self.selected as nat, n),
            Event::AppendChar(c) => out is Browsing && self.requeried(
                post,
                self.search_query@.push(c),
            ),
            Event::Backspace => out is Browsing && if self.search_query@.len() == 0 {
                self.same_view(post)
            } else {
                self.requeried(post, self.search_query@.drop_last())
            },
            Event::ClearOrCancel => if self.search_query@.len() == 0 {
                out is Cancelled && self.same_view(post)
            } else {
                out is Browsing && self.requeried(post, Seq::empty())
            },
            Event::Cancel => out is Cancelled && self.same_view(post),
            Event::Commit => self.same_view(post) && if n > 0 {
                out is Committed && out->0@ == self.selected_name()
            } else {
                out is Browsing
            },
            Event::Ignore => out is Browsing && self.same_view(post),
        }
    }

    /// A picker over `sessions` with an empty query: every entry, in catalog
    /// order, the cursor on the first.
    pub fn new(sessions: Vec<Session>, minimal: bool) -> (r: App)
        ensures
            r.wf(),
            r.sessions@ == sessions@,
            r.minimal == minimal,
            r.search_query@.len() == 0,
            r.filtered_indices@ == identity(sessions@.len()),
            r.selected == 0,
    {
        let query = String::new();
        let filtered_indices = rank(&sessions, query.as_str());
        App { sessions, selected: 0, minimal, search_query: query, filtered_indices }
    }

    /// Moves the cursor forward, wrapping from the last candidate to the first.
    pub fn next(&mut self)
        requires
            old(self).wf(),
        ensures
            final(self).wf(),
            final(self).sessions@ == old(self).sessions@,
            final(self).minimal == old(self).minimal,
            final(self).search_query@ == old(self).search_query@,
            final(self).filtered_indices@ == old(self).filtered_indices@,
            final(self).selected as nat == next_cursor(
                old(self).selected as nat,
                old(self).filtered_indices@.len(),
            ),
    {
        if self.filtered_indices.len() > 0 {
            self.selected = (self.selected + 1) % self.filtered_indices.len();
        }
    }

    /// Moves the cursor back, wrapping from the first candidate to the last.
    pub fn previous(&mut self)
        requires
            old(self).wf(),
        ensures
            final(self).wf(),
            final(self).sessions@ == old(self).sessions@,
            final(self).minimal == old(self).minimal,
            final(self).search_query@ == old(self).search_query@,
            final(self).filtered_indices@ == old(self).filtered_indices@,
            final(self).selected as nat == previous_cursor(
                old(self).selected as nat,
                old(self).filtered_indices@.len(),
            ),
    {
        if self.filtered_indices.len() > 0 {
            if self.selected > 0 {
                self.selected = self.selected - 1;
            } else {
                self.selected = self.filtered_indices.len() - 1;
            }
        }
    }

    /// The name of the entry under the cursor, or the empty string when no
    /// entry matches.
    pub fn get_selected_session(&self) -> (r: &str)
        requires
            self.wf(),
        ensures
            r@ == self.selected_name(),
    {
        if self.filtered_indices.len() > 0 {
            let actual_idx = self.filtered_indices[self.selected];
            self.sessions[actual_idx].name.as_str()
        } else {
            proof {
                reveal_strlit("");
            }
            ""
        }
    }

    /// Replaces the query, re-ranks the catalog and puts the cursor on the
    /// first candidate.
    pub fn update_search(&mut self, query: String)
        requires
            old(self).wf(),
        ensures
            final(self).wf(),
            final(self).sessions@ == old(self).sessions@,
            final(self).minimal == old(self).minimal,
            final(self).search_query@ == query@,
            final(self).selected == 0,
    {
        self.search_query = query;
        self.update_filtered_indices();
        self.selected = 0;
    }

    /// Re-ranks the catalog against the current query.
    pub fn update_filtered_indices(&mut self)
        ensures
            ranked(
                names_of(final(self).sessions@),
                final(self).search_query@,
                final(self).filtered_indices@,
            ),
            forall|k: int|
                0 <= k < final(self).filtered_indices@.len() ==> #[trigger] final(self).filtered_indices@[k]
                    < final(self).sessions@.len(),
            final(self).sessions@ == old(self).sessions@,
            final(self).minimal == old(self).minimal,
            final(self).search_query@ == old(self).search_query@,
            final(self).selected == old(self).selected,
    {
        self.filtered_indices = rank(&self.sessions, self.search_query.as_str());
    }

    /// Applies one event.
    pub fn step(&mut self, ev: Event) -> (r: Outcome)
        requires
            old(self).wf(),
        ensures
            final(self).wf(),
            old(self).stepped(*final(self), ev, r),
    {
        match ev {
            Event::MoveNext => {
                self.next();
                Outcome::Browsing
            },
            Event::MovePrevious => {
                self.previous();
                Outcome::Browsing
            },
            Event::AppendChar(c) => {
                let mut q = self.search_query.clone();
                push_char(&mut q, c);
                self.update_search(q);
                Outcome::Browsing
            },
            Event::Backspace => {
                if self.search_query.unicode_len() > 0 {
                    let mut q = self.search_query.clone();
                    pop_char(&mut q);
                    self.update_search(q);
                }
                Outcome::Browsing
            },
            Event::ClearOrCancel => {
                if self.search_query.unicode_len() == 0 {
                    Outcome::Cancelled
                } else {
                    self.update_search(String::new());
                    Outcome::Browsing
                }
            },
            Event::Cancel => Outcome::Cancelled,
            Event::Commit => {
                if self.filtered_indices.len() > 0 {
                    Outcome::Committed(self.get_selected_session().to_owned())
                } else {
                    Outcome::Browsing
                }
            },
            Event::Ignore => Outcome::Browsing,
        }
    }

    /// Applies one key press.
    pub fn handle_key(&mut self, key: Key) -> (r: Outcome)
        requires
            old(self).wf(),
        ensures
            final(self).wf(),
            old(self).stepped(*final(self), key_event(key, old(self).search_query@.len() == 0), r),
    {
        let ev = event_of_key(key, self.search_query.unicode_len() == 0);
        self.step(ev)
    }
}

/// After `k` forward moves from `c` over `n > 0` candidates the cursor is at
/// `(c + k) % n`.
pub proof fn next_times_is_mod(c: nat, n: nat, k: nat)
    requires
        c < n,
    ensures
        next_times(c, n, k) == (c + k) % n,
    decreases k,
{
    if k == 0 {
        lemma_small_mod(c, n);
    } else {
        next_times_is_mod(c, n, (k - 1) as nat);
        lemma_add_mod_noop_right(1, (c + k - 1) as int, n as int);
    }
}

/// Moving the cursor forward once per candidate brings it back to where it
/// started.
pub proof fn next_cycles(c: nat, n: nat)
    requires
        n > 0 ==> c < n,
    ensures
        next_times(c, n, n) == c,
{
    if n > 0 {
        next_times_is_mod(c, n, n);
        lemma_mod_add_multiples_vanish(c as int, n as int);
        lemma_small_mod(c, n);
    } else {
        assert(next_times(c, n, 0) == c);
    }
}

/// Typing `q` cancels the picker when the query is empty; otherwise `q` is
/// added to the query and the picker keeps browsing.
pub proof fn q_quits_only_on_empty_query(pre: App, post: App, out: Outcome)
    requires
        pre.wf(),
        pre.stepped(post, key_event(Key::Char('q'), pre.search_query@.len() == 0), out),
    ensures
        pre.search_query@.len() == 0 ==> out is Cancelled,
        pre.search_query@.len() > 0 ==> out is Browsing && post.search_query@
            == pre.search_query@.push('q'),
{
}

/// Backspace leaves an empty query, its candidates and the cursor as they are;
/// on a non-empty query it removes exactly the last character and re-ranks.
pub proof fn backspace_removes_one_char(pre: App, post: App, out: Outcome)
    requires
        pre.wf(),
        post.wf(),
        pre.stepped(post, Event::Backspace, out),
    ensures
        out is Browsing,
        pre.search_query@.len() == 0 ==> pre.same_view(post),
        pre.search_query@.len() > 0 ==> {
            &&& post.search_query@.len() == pre.search_query@.len() - 1
            &&& post.search_query@ == pre.search_query@.take(pre.search_query@.len() - 1)
            &&& ranked(names_of(post.sessions@), post.search_query@, post.filtered_indices@)
        },
{
}

/// Under a non-empty query every candidate's name has a fuzzy score against
/// the query, and every catalog entry whose name has one is a candidate.
pub proof fn candidates_are_the_matches(app: App)
    requires
        app.wf(),
        app.search_query@.len() > 0,
    ensures
        forall|k: int|
            0 <= k < app.filtered_indices@.len() ==> skim_score(
                #[trigger] app.sessions@[app.filtered_indices@[k] as int].name@,
                app.search_query@,
            ) is Some,
        forall|i: int|
            0 <= i < app.sessions@.len() && skim_score(
                #[trigger] app.sessions@[i].name@,
                app.search_query@,
            ) is Some ==> exists|k: int|
                0 <= k < app.filtered_indices@.len() && app.filtered_indices@[k] == i,
{
    let sc = scores_of(names_of(app.sessions@), app.search_query@);
    assert forall|k: int| 0 <= k < app.filtered_indices@.len() implies skim_score(
        #[trigger] app.sessions@[app.filtered_indices@[k] as int].name@,
        app.search_query@,
    ) is Some by {
        assert(sc[app.filtered_indices@[k] as int] is Some);
    }
    assert forall|i: int|
        0 <= i < app.sessions@.len() && skim_score(
            #[trigger] app.sessions@[i].name@,
            app.search_query@,
        ) is Some implies exists|k: int|
        0 <= k < app.filtered_indices@.len() && app.filtered_indices@[k] == i by {
        assert(sc[i] is Some);
    }
}

/// Under an empty query the candidates are the whole catalog, in catalog order.
pub proof fn empty_query_lists_catalog(app: App)
    requires
        app.wf(),
        app.search_query@.len() == 0,
    ensures
        app.filtered_indices@ == identity(app.sessions@.len()),
{
}

} // verus!
