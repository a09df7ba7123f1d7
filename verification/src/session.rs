//! The session store: per-client todo lists keyed by an opaque numeric
//! token, held in process memory only. Tokens are minted from a counter
//! that never repeats a value, so a discarded token is never recognized
//! again. A request checks its session out of the store, works on it, and
//! either saves it back or discards it.

use std::collections::HashMap;

use vstd::prelude::*;

verus! {

broadcast use vstd::std_specs::hash::group_hash_axioms;

/// The per-client state: an ordered list of todo items.
pub struct Session {
    pub todo_list: Vec<String>,
}

impl View for Session {
    type V = Seq<Seq<char>>;

    open spec fn view(&self) -> Seq<Seq<char>> {
        self.todo_list.deep_view()
    }
}

impl Session {
    /// A session with no items.
    pub fn empty() -> (s: Session)
        ensures
            s@ == Seq::<Seq<char>>::empty(),
    {
        let s = Session { todo_list: Vec::new() };
        proof {
            assert(s@ =~= Seq::<Seq<char>>::empty());
        }
        s
    }
}

/// The mathematical content of a store: the next token to mint, and the
/// map from live tokens to their lists.
#[verifier::ext_equal]
pub ghost struct StoreModel {
    pub next: u64,
    pub sessions: Map<u64, Seq<Seq<char>>>,
}

/// Every live token was minted earlier than the counter's current value.
pub open spec fn model_wf(m: StoreModel) -> bool {
    forall|k: u64| #[trigger] m.sessions.contains_key(k) ==> k < m.next
}

/// Whether a presented token is currently live in the store.
pub open spec fn recognized(m: StoreModel, presented: Option<u64>) -> bool {
    match presented {
        Some(t) => m.sessions.contains_key(t),
        None => false,
    }
}

/// The in-memory session store.
pub struct SessionStore {
    next_id: u64,
    sessions: HashMap<u64, Session>,
}

impl View for SessionStore {
    type V = StoreModel;

    closed spec fn view(&self) -> StoreModel {
        StoreModel { next: self.next_id, sessions: self.sessions@.map_values(|s: Session| s@) }
    }
}

impl SessionStore {
    pub open spec fn wf(&self) -> bool {
        model_wf(self@)
    }

    /// A store with no sessions; the first minted token is zero.
    pub fn new() -> (s: SessionStore)
        ensures
            s.wf(),
            s@.next == 0,
            s@.sessions == Map::<u64, Seq<Seq<char>>>::empty(),
    {
        let s = SessionStore { next_id: 0, sessions: HashMap::new() };
        proof {
            assert(s@.sessions =~= Map::<u64, Seq<Seq<char>>>::empty());
        }
        s
    }

    /// Whether the counter can still mint a token. Serving a request needs
    /// this; a process would have to serve one request per nanosecond for
    /// centuries to exhaust it.
    pub fn has_capacity(&self) -> (r: bool)
        ensures
            r == (self@.next < u64::MAX),
    {
        self.next_id < u64::MAX
    }

    /// Checks a session out of the store. A recognized token takes its own
    /// session out; anything else mints a fresh token, never seen before,
    /// and an empty session. The caller gives the session back through
    /// `save` or drops it through `discard`. Never fails.
    pub fn get_or_create(&mut self, presented: Option<u64>) -> (r: (u64, Session))
        requires
            old(self).wf(),
            old(self)@.next < u64::MAX,
        ensures
            final(self).wf(),
            r.0 < final(self)@.next,
            recognized(old(self)@, presented) ==> {
                &&& presented == Some(r.0)
                &&& r.1@ == old(self)@.sessions[r.0]
                &&& final(self)@.next == old(self)@.next
                &&& final(self)@.sessions == old(self)@.sessions.remove(r.0)
            },
            !recognized(old(self)@, presented) ==> {
                &&& r.0 == old(self)@.next
                &&& r.1@ == Seq::<Seq<char>>::empty()
                &&& !old(self)@.sessions.contains_key(r.0)
                &&& final(self)@.next == old(self)@.next + 1
                &&& final(self)@.sessions == old(self)@.sessions
            },
    {
        if let Some(t) = presented {
            let taken = self.sessions.remove(&t);
            proof {
                assert(self@.sessions =~= old(self)@.sessions.remove(t));
            }
            if let Some(sess) = taken {
                return (t, sess);
            }
            proof {
                assert(self@.sessions =~= old(self)@.sessions);
            }
        }
        let token = self.next_id;
        self.next_id = self.next_id + 1;
        proof {
            assert(!old(self)@.sessions.contains_key(token));
        }
        (token, Session::empty())
    }

    /// Writes a session back under its token, overwriting whatever the
    /// store holds there.
    pub fn save(&mut self, token: u64, session: Session)
        requires
            old(self).wf(),
            token < old(self)@.next,
        ensures
            final(self).wf(),
            final(self)@.next == old(self)@.next,
            final(self)@.sessions == old(self)@.sessions.insert(token, session@),
    {
        self.sessions.insert(token, session);
        proof {
            assert(self@.sessions =~= old(self)@.sessions.insert(token, session@));
        }
    }

    /// Removes a token's session outright. A later `get_or_create` with
    /// the same token behaves as not-found.
    pub fn discard(&mut self, token: u64)
        requires
            old(self).wf(),
        ensures
            final(self).wf(),
            final(self)@.next == old(self)@.next,
            final(self)@.sessions == old(self)@.sessions.remove(token),
    {
        self.sessions.remove(&token);
        proof {
            assert(self@.sessions =~= old(self)@.sessions.remove(token));
        }
    }
}

} // verus!
