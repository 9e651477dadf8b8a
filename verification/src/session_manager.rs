//! Server-side session state tracking.
//!
//! The registry is the single authority on session existence. Time enters
//! only as a caller-supplied monotonic timestamp in milliseconds, so the
//! idle-reaping sweep is plain logic: after `reap_idle(now, max_idle)` every
//! live session satisfies `now - last_activity <= max_idle`.

use vstd::prelude::*;

use crate::backend::{ResetTarget, SessionProperty};
use crate::error::GqlError;
use crate::registry::{
    find_index, lemma_lookup_absent, lemma_lookup_at, lemma_push_entry, lemma_remove_entry,
    lemma_update_entry, spec_distinct_keys, spec_has_key, spec_lookup,
};
use crate::value::Value;

verus! {

broadcast use vstd::std_specs::vec::group_vec_axioms;

/// Tracks the mutable state for a single session.
#[derive(Debug, PartialEq)]
pub struct SessionState {
    /// Current schema.
    pub schema: Option<String>,
    /// Current graph.
    pub graph: Option<String>,
    /// Timezone offset in minutes.
    pub time_zone_offset_minutes: i32,
    /// Session parameters, as name/value entries with distinct names.
    pub parameters: Vec<(String, Value)>,
    /// Active transaction ID, if any.
    pub active_transaction: Option<String>,
    /// Timestamp of last activity (milliseconds) for idle detection.
    pub last_activity: u64,
}

impl SessionState {
    /// Whether this is the default state for a session registered at `now`.
    pub open spec fn is_default(&self, now: u64) -> bool {
        &&& self.schema is None
        &&& self.graph is None
        &&& self.time_zone_offset_minutes == 0
        &&& self.parameters@ == Seq::<(String, Value)>::empty()
        &&& self.active_transaction is None
        &&& self.last_activity == now
    }
}

/// Whether a session has sat idle longer than `max_idle` at time `now`.
pub open spec fn spec_session_expired(st: SessionState, now: u64, max_idle: u64) -> bool {
    st.last_activity + max_idle < now
}

/// The entries that survive a sweep at time `now`.
pub open spec fn spec_keep(entries: Seq<(String, SessionState)>, now: u64, max_idle: u64) -> Seq<
    (String, SessionState),
>
    decreases entries.len(),
{
    if entries.len() == 0 {
        Seq::empty()
    } else if spec_session_expired(entries[0].1, now, max_idle) {
        spec_keep(entries.drop_first(), now, max_idle)
    } else {
        seq![entries[0]] + spec_keep(entries.drop_first(), now, max_idle)
    }
}

/// The ids of the entries a sweep at time `now` removes, in order.
pub open spec fn spec_reaped(entries: Seq<(String, SessionState)>, now: u64, max_idle: u64) -> Seq<
    String,
>
    decreases entries.len(),
{
    if entries.len() == 0 {
        Seq::empty()
    } else if spec_session_expired(entries[0].1, now, max_idle) {
        seq![entries[0].0] + spec_reaped(entries.drop_first(), now, max_idle)
    } else {
        spec_reaped(entries.drop_first(), now, max_idle)
    }
}

/// A sweep commutes with appending an entry.
proof fn lemma_keep_push(
    entries: Seq<(String, SessionState)>,
    p: (String, SessionState),
    now: u64,
    max_idle: u64,
)
    ensures
        spec_keep(entries.push(p), now, max_idle) == if spec_session_expired(p.1, now, max_idle) {
            spec_keep(entries, now, max_idle)
        } else {
            spec_keep(entries, now, max_idle).push(p)
        },
        spec_reaped(entries.push(p), now, max_idle) == if spec_session_expired(
            p.1,
            now,
            max_idle,
        ) {
            spec_reaped(entries, now, max_idle).push(p.0)
        } else {
            spec_reaped(entries, now, max_idle)
        },
    decreases entries.len(),
{
    if entries.len() == 0 {
        assert(entries.push(p)[0] == p);
        assert(entries.push(p).drop_first() =~= Seq::<(String, SessionState)>::empty());
        assert(spec_keep(entries.push(p).drop_first(), now, max_idle) =~= Seq::<
            (String, SessionState),
        >::empty());
        assert(spec_reaped(entries.push(p).drop_first(), now, max_idle) =~= Seq::<String>::empty());
        if spec_session_expired(p.1, now, max_idle) {
            assert(spec_reaped(entries.push(p), now, max_idle) =~= spec_reaped(
                entries,
                now,
                max_idle,
            ).push(p.0));
        } else {
            assert(spec_keep(entries.push(p), now, max_idle) =~= spec_keep(
                entries,
                now,
                max_idle,
            ).push(p));
        }
    } else {
        lemma_keep_push(entries.drop_first(), p, now, max_idle);
        assert(entries.push(p).drop_first() =~= entries.drop_first().push(p));
        assert(entries.push(p)[0] == entries[0]);
        if !spec_session_expired(entries[0].1, now, max_idle) && !spec_session_expired(
            p.1,
            now,
            max_idle,
        ) {
            assert(seq![entries[0]] + spec_keep(entries.drop_first(), now, max_idle).push(p) =~= (
            seq![entries[0]] + spec_keep(entries.drop_first(), now, max_idle)).push(p));
        }
        if spec_session_expired(entries[0].1, now, max_idle) && spec_session_expired(
            p.1,
            now,
            max_idle,
        ) {
            assert(seq![entries[0].0] + spec_reaped(entries.drop_first(), now, max_idle).push(p.0)
                =~= (seq![entries[0].0] + spec_reaped(entries.drop_first(), now, max_idle)).push(
                p.0,
            ));
        }
    }
}

/// Every entry a sweep keeps is an entry of the input, and is live.
proof fn lemma_keep_sound(entries: Seq<(String, SessionState)>, now: u64, max_idle: u64)
    ensures
        forall|j: int|
            0 <= j < spec_keep(entries, now, max_idle).len() ==> !spec_session_expired(
                (#[trigger] spec_keep(entries, now, max_idle)[j]).1,
                now,
                max_idle,
            ) && exists|i: int|
                0 <= i < entries.len() && entries[i] == spec_keep(entries, now, max_idle)[j],
    decreases entries.len(),
{
    if entries.len() > 0 {
        lemma_keep_sound(entries.drop_first(), now, max_idle);
        let kept = spec_keep(entries, now, max_idle);
        let sub = spec_keep(entries.drop_first(), now, max_idle);
        assert forall|j: int|
            0 <= j < kept.len() implies !spec_session_expired(
            (#[trigger] kept[j]).1,
            now,
            max_idle,
        ) && exists|i: int| 0 <= i < entries.len() && entries[i] == kept[j] by {
            if spec_session_expired(entries[0].1, now, max_idle) {
                assert(kept[j] == sub[j]);
                let i0 = choose|i0: int|
                    0 <= i0 < entries.drop_first().len() && entries.drop_first()[i0] == sub[j];
                assert(entries[i0 + 1] == kept[j]);
            } else {
                if j == 0 {
                    assert(kept[0] == entries[0]);
                } else {
                    assert(kept[j] == sub[j - 1]);
                    let i0 = choose|i0: int|
                        0 <= i0 < entries.drop_first().len() && entries.drop_first()[i0] == sub[j
                            - 1];
                    assert(entries[i0 + 1] == kept[j]);
                }
            }
        }
    }
}

/// A sweep keeps keys distinct, and binds each key to its old state when
/// that state is live, to nothing when it expired.
proof fn lemma_keep_lookup(entries: Seq<(String, SessionState)>, now: u64, max_idle: u64)
    requires
        spec_distinct_keys(entries),
    ensures
        spec_distinct_keys(spec_keep(entries, now, max_idle)),
        forall|k: Seq<char>|
            #[trigger] spec_lookup(spec_keep(entries, now, max_idle), k) == match spec_lookup(
                entries,
                k,
            ) {
                Some(st) => if spec_session_expired(st, now, max_idle) {
                    None::<SessionState>
                } else {
                    Some(st)
                },
                None => None::<SessionState>,
            },
    decreases entries.len(),
{
    let kept = spec_keep(entries, now, max_idle);
    if entries.len() > 0 {
        assert forall|a: int, b: int|
            0 <= a < b < entries.drop_first().len() implies (#[trigger] entries.drop_first()[
        a]).0@ != (#[trigger] entries.drop_first()[b]).0@ by {
            assert(entries.drop_first()[a] == entries[a + 1]);
            assert(entries.drop_first()[b] == entries[b + 1]);
        }
        lemma_keep_lookup(entries.drop_first(), now, max_idle);
        lemma_keep_sound(entries.drop_first(), now, max_idle);
        let sub = spec_keep(entries.drop_first(), now, max_idle);
        if spec_session_expired(entries[0].1, now, max_idle) {
            assert(kept == sub);
            assert forall|k: Seq<char>|
                #[trigger] spec_lookup(kept, k) == (match spec_lookup(entries, k) {
                    Some(st) => if spec_session_expired(st, now, max_idle) {
                        None::<SessionState>
                    } else {
                        Some(st)
                    },
                    None => None::<SessionState>,
                }) by {
                if k == entries[0].0@ {
                    // the head's key is bound nowhere in the tail, so the
                    // swept tail does not bind it either
                    assert forall|j: int|
                        0 <= j < entries.drop_first().len() implies (
                    #[trigger] entries.drop_first()[j]).0@ != k by {
                        assert(entries.drop_first()[j] == entries[j + 1]);
                    }
                    lemma_lookup_absent(entries.drop_first(), k);
                }
            }
        } else {
            assert(kept == seq![entries[0]] + sub);
            assert(kept[0] == entries[0]);
            assert(kept.drop_first() =~= sub);
            assert forall|a: int, b: int|
                0 <= a < b < kept.len() implies (#[trigger] kept[a]).0@ != (
            #[trigger] kept[b]).0@ by {
                if a == 0 {
                    let i0 = choose|i0: int|
                        0 <= i0 < entries.drop_first().len() && entries.drop_first()[i0] == sub[b
                            - 1];
                    assert(entries[i0 + 1] == kept[b]);
                } else {
                    assert(kept[a] == sub[a - 1]);
                    assert(kept[b] == sub[b - 1]);
                }
            }
            assert forall|k: Seq<char>|
                #[trigger] spec_lookup(kept, k) == (match spec_lookup(entries, k) {
                    Some(st) => if spec_session_expired(st, now, max_idle) {
                        None::<SessionState>
                    } else {
                        Some(st)
                    },
                    None => None::<SessionState>,
                }) by {
                if k == entries[0].0@ {
                    assert(spec_lookup(kept, k) == Some(entries[0].1));
                } else {
                    assert(spec_lookup(kept, k) == spec_lookup(sub, k));
                    assert(spec_lookup(entries, k) == spec_lookup(entries.drop_first(), k));
                }
            }
        }
    }
}

/// After a sweep at time `now`, no surviving session has been idle longer
/// than `max_idle`: for every kept entry,
/// `now - last_activity <= max_idle`. (That `last_activity <= now` at all
/// is the caller's monotonic clock.)
pub proof fn lemma_swept_sessions_fresh(
    entries: Seq<(String, SessionState)>,
    now: u64,
    max_idle: u64,
)
    ensures
        forall|j: int|
            0 <= j < spec_keep(entries, now, max_idle).len() ==> now - (
            #[trigger] spec_keep(entries, now, max_idle)[j]).1.last_activity <= max_idle,
{
    lemma_keep_sound(entries, now, max_idle);
}

/// Manages session state for all active sessions.
#[derive(Debug)]
pub struct SessionManager {
    sessions: Vec<(String, SessionState)>,
    max_sessions: Option<usize>,
}

impl SessionManager {
    /// The entries of the registry, in insertion order.
    pub closed spec fn entries(&self) -> Seq<(String, SessionState)> {
        self.sessions@
    }

    /// The configured session limit.
    pub closed spec fn capacity(&self) -> Option<usize> {
        self.max_sessions
    }

    /// Well-formedness: session ids are pairwise distinct.
    pub open spec fn wf(&self) -> bool {
        spec_distinct_keys(self.entries())
    }

    /// Create a new session manager with no capacity limit.
    pub fn new() -> (r: SessionManager)
        ensures
            r.wf(),
            r.entries() =~= Seq::<(String, SessionState)>::empty(),
            r.capacity() is None,
    {
        SessionManager { sessions: Vec::new(), max_sessions: None }
    }

    /// Create a session manager with a maximum number of concurrent
    /// sessions.
    pub fn with_capacity(max_sessions: usize) -> (r: SessionManager)
        ensures
            r.wf(),
            r.entries() =~= Seq::<(String, SessionState)>::empty(),
            r.capacity() == Some(max_sessions),
    {
        SessionManager { sessions: Vec::new(), max_sessions: Some(max_sessions) }
    }

    /// Register a new session with default state at time `now`.
    ///
    /// Fails exactly when the session limit is configured and already
    /// reached; the registry is then unchanged.
    pub fn register(&mut self, session_id: &str, now: u64) -> (r: Result<(), GqlError>)
        requires
            old(self).wf(),
        ensures
            final(self).wf(),
            final(self).capacity() == old(self).capacity(),
            match r {
                Ok(()) => {
                    &&& (old(self).capacity() matches Some(max) ==> old(self).entries().len()
                        < max)
                    &&& spec_lookup(final(self).entries(), session_id@) matches Some(st) && st.is_default(
                        now,
                    )
                    &&& forall|k2: Seq<char>|
                        k2 != session_id@ ==> #[trigger] spec_lookup(final(self).entries(), k2)
                            == spec_lookup(old(self).entries(), k2)
                },
                Err(e) => {
                    &&& old(self).capacity() matches Some(max) && old(self).entries().len() >= max
                    &&& final(self).entries() == old(self).entries()
                    &&& e matches GqlError::Session(m) && m@ == "session limit reached"@
                },
            },
    {
        match self.max_sessions {
            Some(max) => {
                if self.sessions.len() >= max {
                    return Err(GqlError::Session("session limit reached".to_owned()));
                }
            },
            None => {},
        }
        let st = SessionState {
            schema: None,
            graph: None,
            time_zone_offset_minutes: 0,
            parameters: Vec::new(),
            active_transaction: None,
            last_activity: now,
        };
        let key = session_id.to_owned();
        proof {
            assert(st.parameters@ =~= Seq::<(String, Value)>::empty());
        }
        match find_index(&self.sessions, session_id) {
            Some(i) => {
                proof {
                    lemma_update_entry(self.sessions@, i as int, (key, st));
                }
                self.sessions.set(i, (key, st));
            },
            None => {
                proof {
                    lemma_push_entry(self.sessions@, (key, st));
                }
                self.sessions.push((key, st));
            },
        }
        Ok(())
    }

    /// Remove a session; reports whether it was present.
    pub fn remove(&mut self, session_id: &str) -> (r: bool)
        requires
            old(self).wf(),
        ensures
            final(self).wf(),
            final(self).capacity() == old(self).capacity(),
            r == spec_has_key(old(self).entries(), session_id@),
            spec_lookup(final(self).entries(), session_id@) is None,
            forall|k2: Seq<char>|
                k2 != session_id@ ==> #[trigger] spec_lookup(final(self).entries(), k2) == spec_lookup(
                    old(self).entries(),
                    k2,
                ),
    {
        match find_index(&self.sessions, session_id) {
            Some(i) => {
                proof {
                    lemma_remove_entry(self.sessions@, i as int);
                }
                self.sessions.remove(i);
                true
            },
            None => {
                proof {
                    lemma_lookup_absent(self.sessions@, session_id@);
                }
                false
            },
        }
    }

    /// Check if a session exists.
    pub fn contains(&self, session_id: &str) -> (r: bool)
        ensures
            r == spec_has_key(self.entries(), session_id@),
    {
        match find_index(&self.sessions, session_id) {
            Some(i) => true,
            None => false,
        }
    }

    /// Update the last-activity timestamp for a session; a silent no-op
    /// when the session is missing.
    pub fn touch(&mut self, session_id: &str, now: u64)
        requires
            old(self).wf(),
        ensures
            final(self).wf(),
            final(self).capacity() == old(self).capacity(),
            match spec_lookup(old(self).entries(), session_id@) {
                Some(st) => spec_lookup(final(self).entries(), session_id@) == Some(
                    SessionState { last_activity: now, ..st },
                ),
                None => final(self).entries() == old(self).entries(),
            },
            forall|k2: Seq<char>|
                k2 != session_id@ ==> #[trigger] spec_lookup(final(self).entries(), k2) == spec_lookup(
                    old(self).entries(),
                    k2,
                ),
    {
        match find_index(&self.sessions, session_id) {
            Some(i) => {
                proof {
                    lemma_lookup_at(self.sessions@, session_id@, i as int);
                }
                let ghost oldseq = self.sessions@;
                let entry = self.sessions.remove(i);
                let key = entry.0;
                let mut st = entry.1;
                st.last_activity = now;
                proof {
                    lemma_update_entry(oldseq, i as int, (key, st));
                }
                self.sessions.insert(i, (key, st));
                proof {
                    assert(self.sessions@ =~= oldseq.update(i as int, (key, st)));
                }
            },
            None => {
                proof {
                    lemma_lookup_absent(self.sessions@, session_id@);
                }
            },
        }
    }

    /// Apply a session property.
    ///
    /// Fails exactly when the session does not exist.
    pub fn configure(&mut self, session_id: &str, property: SessionProperty) -> (r: Result<
        (),
        GqlError,
    >)
        requires
            old(self).wf(),
        ensures
            final(self).wf(),
            final(self).capacity() == old(self).capacity(),
            forall|k2: Seq<char>|
                k2 != session_id@ ==> #[trigger] spec_lookup(final(self).entries(), k2) == spec_lookup(
                    old(self).entries(),
                    k2,
                ),
            match r {
                Ok(()) => {
                    &&& spec_lookup(old(self).entries(), session_id@) matches Some(st)
                    &&& spec_lookup(final(self).entries(), session_id@) matches Some(st2)
                        && spec_property_applied(st, property, st2)
                },
                Err(e) => {
                    &&& spec_lookup(old(self).entries(), session_id@) is None
                    &&& final(self).entries() == old(self).entries()
                    &&& e matches GqlError::Session(m) && m@ == "session "@ + session_id@
                        + " not found"@
                },
            },
    {
        match find_index(&self.sessions, session_id) {
            Some(i) => {
                proof {
                    lemma_lookup_at(self.sessions@, session_id@, i as int);
                }
                let ghost oldseq = self.sessions@;
                let entry = self.sessions.remove(i);
                let key = entry.0;
                let mut st = entry.1;
                match property {
                    SessionProperty::Schema(sch) => {
                        st.schema = Some(sch);
                    },
                    SessionProperty::Graph(g) => {
                        st.graph = Some(g);
                    },
                    SessionProperty::TimeZone(offset) => {
                        st.time_zone_offset_minutes = offset;
                    },
                    SessionProperty::Parameter { name, value } => {
                        let ghost oldparams = st.parameters@;
                        match find_index(&st.parameters, name.as_str()) {
                            Some(pi) => {
                                proof {
                                    crate::registry::lemma_lookup_update(
                                        oldparams,
                                        pi as int,
                                        (name, value),
                                    );
                                }
                                st.parameters.set(pi, (name, value));
                            },
                            None => {
                                proof {
                                    crate::registry::lemma_lookup_push(oldparams, (name, value));
                                }
                                st.parameters.push((name, value));
                            },
                        }
                    },
                }
                proof {
                    lemma_update_entry(oldseq, i as int, (key, st));
                }
                self.sessions.insert(i, (key, st));
                proof {
                    assert(self.sessions@ =~= oldseq.update(i as int, (key, st)));
                }
                Ok(())
            },
            None => {
                proof {
                    lemma_lookup_absent(self.sessions@, session_id@);
                }
                Err(GqlError::Session(not_found_message(session_id)))
            },
        }
    }

    /// Reset session state.
    ///
    /// Fails exactly when the session does not exist. Resetting everything
    /// restores the default state registered at `now`.
    pub fn reset(&mut self, session_id: &str, target: ResetTarget, now: u64) -> (r: Result<
        (),
        GqlError,
    >)
        requires
            old(self).wf(),
        ensures
            final(self).wf(),
            final(self).capacity() == old(self).capacity(),
            forall|k2: Seq<char>|
                k2 != session_id@ ==> #[trigger] spec_lookup(final(self).entries(), k2) == spec_lookup(
                    old(self).entries(),
                    k2,
                ),
            match r {
                Ok(()) => {
                    &&& spec_lookup(old(self).entries(), session_id@) matches Some(st)
                    &&& spec_lookup(final(self).entries(), session_id@) matches Some(st2)
                        && spec_reset_applied(st, target, now, st2)
                },
                Err(e) => {
                    &&& spec_lookup(old(self).entries(), session_id@) is None
                    &&& final(self).entries() == old(self).entries()
                    &&& e matches GqlError::Session(m) && m@ == "session "@ + session_id@
                        + " not found"@
                },
            },
    {
        match find_index(&self.sessions, session_id) {
            Some(i) => {
                proof {
                    lemma_lookup_at(self.sessions@, session_id@, i as int);
                }
                let ghost oldseq = self.sessions@;
                let entry = self.sessions.remove(i);
                let key = entry.0;
                let mut st = entry.1;
                match target {
                    ResetTarget::All => {
                        st = SessionState {
                            schema: None,
                            graph: None,
                            time_zone_offset_minutes: 0,
                            parameters: Vec::new(),
                            active_transaction: None,
                            last_activity: now,
                        };
                        proof {
                            assert(st.parameters@ =~= Seq::<(String, Value)>::empty());
                        }
                    },
                    ResetTarget::Schema => {
                        st.schema = None;
                    },
                    ResetTarget::Graph => {
                        st.graph = None;
                    },
                    ResetTarget::TimeZone => {
                        st.time_zone_offset_minutes = 0;
                    },
                    ResetTarget::Parameters => {
                        st.parameters = Vec::new();
                    },
                }
                proof {
                    lemma_update_entry(oldseq, i as int, (key, st));
                }
                self.sessions.insert(i, (key, st));
                proof {
                    assert(self.sessions@ =~= oldseq.update(i as int, (key, st)));
                }
                Ok(())
            },
            None => {
                proof {
                    lemma_lookup_absent(self.sessions@, session_id@);
                }
                Err(GqlError::Session(not_found_message(session_id)))
            },
        }
    }

    /// Get the active transaction for a session.
    pub fn active_transaction(&self, session_id: &str) -> (r: Option<String>)
        ensures
            r == match spec_lookup(self.entries(), session_id@) {
                Some(st) => st.active_transaction,
                None => None::<String>,
            },
    {
        match find_index(&self.sessions, session_id) {
            Some(i) => {
                proof {
                    lemma_lookup_at(self.sessions@, session_id@, i as int);
                }
                match &self.sessions[i].1.active_transaction {
                    Some(tx) => Some(tx.clone()),
                    None => None,
                }
            },
            None => {
                proof {
                    lemma_lookup_absent(self.sessions@, session_id@);
                }
                None
            },
        }
    }

    /// Set the active transaction for a session.
    ///
    /// Fails exactly when the session does not exist.
    pub fn set_active_transaction(&mut self, session_id: &str, transaction_id: Option<String>) -> (
    r: Result<(), GqlError>)
        requires
            old(self).wf(),
        ensures
            final(self).wf(),
            final(self).capacity() == old(self).capacity(),
            forall|k2: Seq<char>|
                k2 != session_id@ ==> #[trigger] spec_lookup(final(self).entries(), k2) == spec_lookup(
                    old(self).entries(),
                    k2,
                ),
            match r {
                Ok(()) => {
                    &&& spec_lookup(old(self).entries(), session_id@) matches Some(st)
                    &&& spec_lookup(final(self).entries(), session_id@) == Some(
                        SessionState { active_transaction: transaction_id, ..st },
                    )
                },
                Err(e) => {
                    &&& spec_lookup(old(self).entries(), session_id@) is None
                    &&& final(self).entries() == old(self).entries()
                    &&& e matches GqlError::Session(m) && m@ == "session "@ + session_id@
                        + " not found"@
                },
            },
    {
        match find_index(&self.sessions, session_id) {
            Some(i) => {
                proof {
                    lemma_lookup_at(self.sessions@, session_id@, i as int);
                }
                let ghost oldseq = self.sessions@;
                let entry = self.sessions.remove(i);
                let key = entry.0;
                let mut st = entry.1;
                st.active_transaction = transaction_id;
                proof {
                    lemma_update_entry(oldseq, i as int, (key, st));
                }
                self.sessions.insert(i, (key, st));
                proof {
                    assert(self.sessions@ =~= oldseq.update(i as int, (key, st)));
                }
                Ok(())
            },
            None => {
                proof {
                    lemma_lookup_absent(self.sessions@, session_id@);
                }
                Err(GqlError::Session(not_found_message(session_id)))
            },
        }
    }

    /// Remove sessions that have been idle longer than `max_idle` at time
    /// `now`, and return their ids.
    ///
    /// Afterwards every surviving session satisfies
    /// `now - last_activity <= max_idle`: with a monotonic clock, no live
    /// session is older than the idle timeout.
    pub fn reap_idle(&mut self, now: u64, max_idle: u64) -> (r: Vec<String>)
        requires
            old(self).wf(),
        ensures
            final(self).wf(),
            final(self).capacity() == old(self).capacity(),
            final(self).entries() == spec_keep(old(self).entries(), now, max_idle),
            r@ == spec_reaped(old(self).entries(), now, max_idle),
            forall|j: int|
                0 <= j < final(self).entries().len() ==> now - (
                #[trigger] final(self).entries()[j]).1.last_activity <= max_idle,
            forall|k: Seq<char>|
                #[trigger] spec_lookup(final(self).entries(), k) == match spec_lookup(
                    old(self).entries(),
                    k,
                ) {
                    Some(st) => if spec_session_expired(st, now, max_idle) {
                        None::<SessionState>
                    } else {
                        Some(st)
                    },
                    None => None::<SessionState>,
                },
    {
        let ghost orig = self.sessions@;
        let n0 = self.sessions.len();
        let mut kept: Vec<(String, SessionState)> = Vec::new();
        let mut reaped: Vec<String> = Vec::new();
        let mut i: usize = 0;
        #[verifier::loop_isolation(false)]
        while self.sessions.len() > 0
            invariant
                self.max_sessions == old(self).capacity(),
                i + self.sessions@.len() == orig.len(),
                orig.len() == n0,
                self.sessions@ =~= orig.subrange(i as int, orig.len() as int),
                kept@ == spec_keep(orig.take(i as int), now, max_idle),
                reaped@ == spec_reaped(orig.take(i as int), now, max_idle),
            decreases self.sessions@.len(),
        {
            let entry = self.sessions.remove(0);
            proof {
                assert(entry == orig[i as int]);
                assert(orig.take(i as int + 1) =~= orig.take(i as int).push(orig[i as int]));
                lemma_keep_push(orig.take(i as int), orig[i as int], now, max_idle);
            }
            let expired = now > max_idle && entry.1.last_activity < now - max_idle;
            proof {
                assert(expired == spec_session_expired(entry.1, now, max_idle));
            }
            if expired {
                reaped.push(entry.0);
            } else {
                kept.push(entry);
            }
            i = i + 1;
            proof {
                assert(self.sessions@ =~= orig.subrange(i as int, orig.len() as int));
            }
        }
        proof {
            assert(orig.take(i as int) =~= orig);
        }
        self.sessions = kept;
        proof {
            lemma_keep_lookup(orig, now, max_idle);
            lemma_swept_sessions_fresh(orig, now, max_idle);
        }
        reaped
    }
}

/// Whether `st2` is `st` with `property` applied: the named field set, a
/// parameter bound, everything else untouched.
pub open spec fn spec_property_applied(
    st: SessionState,
    property: SessionProperty,
    st2: SessionState,
) -> bool {
    match property {
        SessionProperty::Schema(sch) => st2 == SessionState { schema: Some(sch), ..st },
        SessionProperty::Graph(g) => st2 == SessionState { graph: Some(g), ..st },
        SessionProperty::TimeZone(offset) => st2 == SessionState {
            time_zone_offset_minutes: offset,
            ..st
        },
        SessionProperty::Parameter { name, value } => {
            &&& st2.schema == st.schema
            &&& st2.graph == st.graph
            &&& st2.time_zone_offset_minutes == st.time_zone_offset_minutes
            &&& st2.active_transaction == st.active_transaction
            &&& st2.last_activity == st.last_activity
            &&& spec_lookup(st2.parameters@, name@) == Some(value)
            &&& forall|n2: Seq<char>|
                n2 != name@ ==> #[trigger] spec_lookup(st2.parameters@, n2) == spec_lookup(
                    st.parameters@,
                    n2,
                )
        },
    }
}

/// Whether `st2` is `st` with `target` reset at time `now`.
pub open spec fn spec_reset_applied(
    st: SessionState,
    target: ResetTarget,
    now: u64,
    st2: SessionState,
) -> bool {
    match target {
        ResetTarget::All => st2.is_default(now),
        ResetTarget::Schema => st2 == SessionState { schema: None, ..st },
        ResetTarget::Graph => st2 == SessionState { graph: None, ..st },
        ResetTarget::TimeZone => st2 == SessionState { time_zone_offset_minutes: 0, ..st },
        ResetTarget::Parameters => {
            &&& st2.schema == st.schema
            &&& st2.graph == st.graph
            &&& st2.time_zone_offset_minutes == st.time_zone_offset_minutes
            &&& st2.active_transaction == st.active_transaction
            &&& st2.last_activity == st.last_activity
            &&& st2.parameters@ =~= Seq::<(String, Value)>::empty()
        },
    }
}

/// Build the message of a missing-session error.
fn not_found_message(session_id: &str) -> (r: String)
    ensures
        r@ == "session "@ + session_id@ + " not found"@,
{
    let mut s = "session ".to_owned();
    s.append(session_id);
    s.append(" not found");
    s
}

} // verus!
