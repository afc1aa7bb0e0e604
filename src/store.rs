use vstd::prelude::*;
use std::collections::HashMap;
use crate::feed::Page;
use crate::session::{lemma_session_fetches_own_team, GameStates, SessionView, Step};
use crate::stream::Listing;

verus! {

broadcast use vstd::std_specs::hash::group_hash_axioms;

/// Every session is well formed and filed under its own team.
pub open spec fn sessions_wf(m: Map<u128, SessionView>) -> bool {
    forall|k: u128| #[trigger] m.contains_key(k) ==> m[k].wf() && m[k].team == k
}

/// The session that a call for `key` works on: the stored one, or a fresh one.
pub open spec fn session_for(m: Map<u128, SessionView>, key: u128) -> SessionView {
    if m.contains_key(key) {
        m[key]
    } else {
        SessionView::fresh(key)
    }
}

/// Per-key isolation: a call for `k1` leaves the session of any other key `k2`
/// as it was, and asks for no page of `k2`'s game listing.
pub proof fn lemma_per_key_isolation(m: Map<u128, SessionView>, k1: u128, k2: u128)
    requires
        sessions_wf(m),
        k1 != k2,
    ensures
        ({
            let (r, s) = session_for(m, k1).run();
            &&& m.insert(k1, s).contains_key(k2) == m.contains_key(k2)
            &&& m.contains_key(k2) ==> m.insert(k1, s)[k2] == m[k2]
            &&& (r matches Step::Fetch(q) ==> (q.listing == Listing::TeamGames ==> q.key != k2))
        }),
{
    let v = session_for(m, k1);
    if !m.contains_key(k1) {
        assert(v.wf()) by {
            assert(v.stream.pull_step().0 is Fetch);
        }
    }
    lemma_session_fetches_own_team(v);
}

/// The sessions of all teams seen so far, one per team, created on first use
/// and kept for the store's lifetime. Callers that share a store serialize
/// their calls, which orders the calls of each team.
pub struct SessionStore {
    sessions: HashMap<u128, GameStates>,
}

impl View for SessionStore {
    type V = Map<u128, SessionView>;

    closed spec fn view(&self) -> Map<u128, SessionView> {
        self.sessions@.map_values(|s: GameStates| s@)
    }
}

impl SessionStore {
    /// A store without sessions.
    pub fn new() -> (r: SessionStore)
        ensures
            r@ == Map::<u128, SessionView>::empty(),
            sessions_wf(r@),
    {
        let r = SessionStore { sessions: HashMap::new() };
        assert(r@ =~= Map::<u128, SessionView>::empty());
        r
    }

    /// Starts a call for `key` on its session, created first if `key` is new.
    /// Only that session changes.
    pub fn advance(&mut self, key: u128) -> (r: Step)
        requires
            sessions_wf(old(self)@),
        ensures
            sessions_wf(final(self)@),
            final(self)@.contains_key(key),
            (r, final(self)@[key]) == session_for(old(self)@, key).run(),
            final(self)@ == old(self)@.insert(key, final(self)@[key]),
    {
        let mut s = match self.sessions.remove(&key) {
            Some(s) => s,
            None => GameStates::new(key),
        };
        let ghost before = s@;
        assert(before == session_for(old(self)@, key));
        let r = s.next();
        self.sessions.insert(key, s);
        assert(self@ =~= old(self)@.insert(key, s@));
        r
    }

    /// True when the session of `key` exists and waits for this kind of page.
    pub fn accepts(&self, key: u128, page: &Page) -> (r: bool)
        ensures
            r == (self@.contains_key(key) && self@[key].stream.accepts(*page)),
    {
        match self.sessions.get(&key) {
            Some(s) => s.accepts(page),
            None => false,
        }
    }

    /// Goes on with the call for `key` once the page it asked for has been
    /// fetched. Only that session changes.
    pub fn supply(&mut self, key: u128, page: Page) -> (r: Step)
        requires
            sessions_wf(old(self)@),
            old(self)@.contains_key(key),
            old(self)@[key].stream.accepts(page),
        ensures
            sessions_wf(final(self)@),
            final(self)@.contains_key(key),
            (r, final(self)@[key]) == old(self)@[key].with_page(page).run(),
            final(self)@ == old(self)@.insert(key, final(self)@[key]),
    {
        let mut s = match self.sessions.remove(&key) {
            Some(s) => s,
            None => GameStates::new(key),
        };
        let r = s.supply(page);
        self.sessions.insert(key, s);
        assert(self@ =~= old(self)@.insert(key, s@));
        r
    }
}

} // verus!
