//! Transaction state tracking and lifecycle management.
//!
//! Enforces the GQL constraint that at most one transaction can be active
//! per session: registration checks the owning session and inserts under
//! the same well-formedness invariant, so the constraint holds of the
//! registry at every instant (`lemma_single_active_per_session`).

use vstd::prelude::*;

use crate::backend::TransactionMode;
use crate::error::GqlError;
use crate::registry::{
    find_index, lemma_lookup_absent, lemma_lookup_at, lemma_push_entry, lemma_remove_entry,
    lemma_update_entry, spec_distinct_keys, spec_lookup,
};

verus! {

broadcast use vstd::std_specs::vec::group_vec_axioms;

/// State of an active transaction.
#[derive(Debug, PartialEq)]
pub struct TransactionState {
    /// Session that owns this transaction.
    pub session_id: String,
    /// Transaction access mode.
    pub mode: TransactionMode,
}

/// Whether some entry's transaction belongs to session `sid`.
pub open spec fn spec_session_active(entries: Seq<(String, TransactionState)>, sid: Seq<char>) -> bool {
    exists|i: int| 0 <= i < entries.len() && (#[trigger] entries[i]).1.session_id@ == sid
}

/// Manages transaction state across all sessions.
///
/// Enforces the GQL constraint that at most one transaction
/// can be active per session.
#[derive(Debug)]
pub struct TransactionManager {
    transactions: Vec<(String, TransactionState)>,
}

impl TransactionManager {
    /// The entries of the registry, in insertion order.
    pub closed spec fn entries(&self) -> Seq<(String, TransactionState)> {
        self.transactions@
    }

    /// Well-formedness: transaction ids are pairwise distinct, and so are
    /// the owning sessions.
    pub open spec fn wf(&self) -> bool {
        &&& spec_distinct_keys(self.entries())
        &&& forall|i: int, j: int|
            0 <= i < j < self.entries().len() ==> (#[trigger] self.entries()[i]).1.session_id@ != (
            #[trigger] self.entries()[j]).1.session_id@
    }

    /// At most one transaction per session exists in the registry at any
    /// instant: two entries owned by the same session are the same entry.
    pub proof fn lemma_single_active_per_session(&self, sid: Seq<char>)
        requires
            self.wf(),
        ensures
            forall|i: int, j: int|
                0 <= i < self.entries().len() && 0 <= j < self.entries().len() && (
                #[trigger] self.entries()[i]).1.session_id@ == sid && (
                #[trigger] self.entries()[j]).1.session_id@ == sid ==> i == j,
    {
    }

    /// Create a new transaction manager.
    pub fn new() -> (r: TransactionManager)
        ensures
            r.wf(),
            r.entries() =~= Seq::<(String, TransactionState)>::empty(),
    {
        TransactionManager { transactions: Vec::new() }
    }

    /// Register a new transaction for a session.
    ///
    /// Fails exactly when the session already has an active transaction;
    /// the check and the insert happen against the same state.
    pub fn register(
        &mut self,
        transaction_id: &str,
        session_id: &str,
        mode: TransactionMode,
    ) -> (r: Result<(), GqlError>)
        requires
            old(self).wf(),
        ensures
            final(self).wf(),
            match r {
                Ok(()) => {
                    &&& !spec_session_active(old(self).entries(), session_id@)
                    &&& spec_lookup(final(self).entries(), transaction_id@) matches Some(st)
                        && st.session_id@ == session_id@ && st.mode == mode
                    &&& spec_session_active(final(self).entries(), session_id@)
                    &&& forall|k2: Seq<char>|
                        k2 != transaction_id@ ==> #[trigger] spec_lookup(
                            final(self).entries(),
                            k2,
                        ) == spec_lookup(old(self).entries(), k2)
                },
                Err(e) => {
                    &&& spec_session_active(old(self).entries(), session_id@)
                    &&& final(self).entries() == old(self).entries()
                    &&& e matches GqlError::Transaction(m) && m@
                        == "session already has an active transaction"@
                },
            },
    {
        let mut i: usize = 0;
        #[verifier::loop_isolation(false)]
        while i < self.transactions.len()
            invariant
                self.transactions@ == old(self).entries(),
                i <= self.transactions@.len(),
                forall|j: int|
                    0 <= j < i ==> (#[trigger] self.transactions@[j]).1.session_id@ != session_id@,
            decreases self.transactions@.len() - i,
        {
            if crate::util::str_eq(self.transactions[i].1.session_id.as_str(), session_id) {
                return Err(
                    GqlError::Transaction("session already has an active transaction".to_owned()),
                );
            }
            i = i + 1;
        }
        let st = TransactionState { session_id: session_id.to_owned(), mode };
        let key = transaction_id.to_owned();
        let ghost oldseq = self.transactions@;
        match find_index(&self.transactions, transaction_id) {
            Some(ti) => {
                proof {
                    lemma_update_entry(oldseq, ti as int, (key, st));
                }
                self.transactions.set(ti, (key, st));
                proof {
                    assert(self.transactions@[ti as int] == (key, st));
                    assert(spec_session_active(self.transactions@, session_id@));
                    assert forall|a: int, b: int|
                        0 <= a < b < self.transactions@.len() implies (
                    #[trigger] self.transactions@[a]).1.session_id@ != (
                    #[trigger] self.transactions@[b]).1.session_id@ by {
                        if a != ti {
                            assert(self.transactions@[a] == oldseq[a]);
                        }
                        if b != ti {
                            assert(self.transactions@[b] == oldseq[b]);
                        }
                    }
                }
            },
            None => {
                proof {
                    lemma_push_entry(oldseq, (key, st));
                }
                self.transactions.push((key, st));
                proof {
                    let n = self.transactions@.len();
                    assert(self.transactions@[n - 1] == (key, st));
                    assert(spec_session_active(self.transactions@, session_id@));
                    assert forall|a: int, b: int|
                        0 <= a < b < self.transactions@.len() implies (
                    #[trigger] self.transactions@[a]).1.session_id@ != (
                    #[trigger] self.transactions@[b]).1.session_id@ by {
                        assert(self.transactions@[a] == oldseq[a]);
                        if b < oldseq.len() {
                            assert(self.transactions@[b] == oldseq[b]);
                        }
                    }
                }
            },
        }
        Ok(())
    }

    /// Remove a transaction (on commit or rollback).
    ///
    /// Fails exactly when the transaction is not registered.
    pub fn remove(&mut self, transaction_id: &str) -> (r: Result<TransactionState, GqlError>)
        requires
            old(self).wf(),
        ensures
            final(self).wf(),
            match r {
                Ok(st) => {
                    &&& spec_lookup(old(self).entries(), transaction_id@) == Some(st)
                    &&& spec_lookup(final(self).entries(), transaction_id@) is None
                    &&& forall|k2: Seq<char>|
                        k2 != transaction_id@ ==> #[trigger] spec_lookup(
                            final(self).entries(),
                            k2,
                        ) == spec_lookup(old(self).entries(), k2)
                },
                Err(e) => {
                    &&& spec_lookup(old(self).entries(), transaction_id@) is None
                    &&& final(self).entries() == old(self).entries()
                    &&& e matches GqlError::Transaction(m) && m@ == "transaction "@
                        + transaction_id@ + " not found"@
                },
            },
    {
        let ghost oldseq = self.transactions@;
        match find_index(&self.transactions, transaction_id) {
            Some(i) => {
                proof {
                    lemma_lookup_at(oldseq, transaction_id@, i as int);
                    lemma_remove_entry(oldseq, i as int);
                }
                let entry = self.transactions.remove(i);
                proof {
                    assert forall|a: int, b: int|
                        0 <= a < b < self.transactions@.len() implies (
                    #[trigger] self.transactions@[a]).1.session_id@ != (
                    #[trigger] self.transactions@[b]).1.session_id@ by {
                        if a < i {
                            assert(self.transactions@[a] == oldseq[a]);
                        } else {
                            assert(self.transactions@[a] == oldseq[a + 1]);
                        }
                        if b < i {
                            assert(self.transactions@[b] == oldseq[b]);
                        } else {
                            assert(self.transactions@[b] == oldseq[b + 1]);
                        }
                    }
                }
                Ok(entry.1)
            },
            None => {
                proof {
                    lemma_lookup_absent(oldseq, transaction_id@);
                }
                Err(GqlError::Transaction(tx_not_found_message(transaction_id)))
            },
        }
    }

    /// Validate that a transaction exists and belongs to the given session.
    pub fn validate(&self, transaction_id: &str, session_id: &str) -> (r: Result<(), GqlError>)
        ensures
            match r {
                Ok(()) => spec_lookup(self.entries(), transaction_id@) matches Some(st)
                    && st.session_id@ == session_id@,
                Err(e) => match spec_lookup(self.entries(), transaction_id@) {
                    Some(st) => st.session_id@ != session_id@ && (e matches GqlError::Transaction(
                        m,
                    ) && m@ == "transaction does not belong to this session"@),
                    None => e matches GqlError::Transaction(m) && m@ == "transaction "@
                        + transaction_id@ + " not found"@,
                },
            },
    {
        match find_index(&self.transactions, transaction_id) {
            Some(i) => {
                proof {
                    lemma_lookup_at(self.transactions@, transaction_id@, i as int);
                }
                if crate::util::str_eq(self.transactions[i].1.session_id.as_str(), session_id) {
                    Ok(())
                } else {
                    Err(
                        GqlError::Transaction(
                            "transaction does not belong to this session".to_owned(),
                        ),
                    )
                }
            },
            None => {
                proof {
                    lemma_lookup_absent(self.transactions@, transaction_id@);
                }
                Err(GqlError::Transaction(tx_not_found_message(transaction_id)))
            },
        }
    }

    /// Remove all transactions for a session (on session close), and return
    /// their ids. Under the single-active invariant that is at most one.
    pub fn remove_for_session(&mut self, session_id: &str) -> (r: Vec<String>)
        requires
            old(self).wf(),
        ensures
            final(self).wf(),
            !spec_session_active(final(self).entries(), session_id@),
            spec_session_active(old(self).entries(), session_id@) ==> r@.len() == 1 && (
            spec_lookup(old(self).entries(), r@[0]@) matches Some(st) && st.session_id@
                == session_id@) && spec_lookup(final(self).entries(), r@[0]@) is None,
            !spec_session_active(old(self).entries(), session_id@) ==> r@.len() == 0
                && final(self).entries() == old(self).entries(),
            forall|k2: Seq<char>|
                (match spec_lookup(old(self).entries(), k2) {
                    Some(st) => st.session_id@ != session_id@,
                    None => true,
                }) ==> #[trigger] spec_lookup(final(self).entries(), k2) == spec_lookup(
                    old(self).entries(),
                    k2,
                ),
    {
        let ghost oldseq = self.transactions@;
        let mut i: usize = 0;
        #[verifier::loop_isolation(false)]
        while i < self.transactions.len()
            invariant
                self.transactions@ == oldseq,
                i <= oldseq.len(),
                forall|j: int|
                    0 <= j < i ==> (#[trigger] oldseq[j]).1.session_id@ != session_id@,
            decreases oldseq.len() - i,
        {
            if crate::util::str_eq(self.transactions[i].1.session_id.as_str(), session_id) {
                proof {
                    lemma_lookup_at(oldseq, oldseq[i as int].0@, i as int);
                    lemma_remove_entry(oldseq, i as int);
                }
                let entry = self.transactions.remove(i);
                proof {
                    assert forall|a: int, b: int|
                        0 <= a < b < self.transactions@.len() implies (
                    #[trigger] self.transactions@[a]).1.session_id@ != (
                    #[trigger] self.transactions@[b]).1.session_id@ by {
                        if a < i {
                            assert(self.transactions@[a] == oldseq[a]);
                        } else {
                            assert(self.transactions@[a] == oldseq[a + 1]);
                        }
                        if b < i {
                            assert(self.transactions@[b] == oldseq[b]);
                        } else {
                            assert(self.transactions@[b] == oldseq[b + 1]);
                        }
                    }
                    assert forall|j: int|
                        0 <= j < self.transactions@.len() implies (
                    #[trigger] self.transactions@[j]).1.session_id@ != session_id@ by {
                        if j < i {
                            assert(self.transactions@[j] == oldseq[j]);
                        } else {
                            assert(self.transactions@[j] == oldseq[j + 1]);
                            assert(oldseq[j + 1].1.session_id@ != oldseq[i as int].1.session_id@);
                        }
                    }
                    assert(spec_session_active(oldseq, session_id@));
                }
                let mut out: Vec<String> = Vec::new();
                out.push(entry.0);
                return out;
            }
            i = i + 1;
        }
        proof {
            assert(!spec_session_active(oldseq, session_id@));
        }
        Vec::new()
    }
}

/// Build the message of a missing-transaction error.
fn tx_not_found_message(transaction_id: &str) -> (r: String)
    ensures
        r@ == "transaction "@ + transaction_id@ + " not found"@,
{
    let mut s = "transaction ".to_owned();
    s.append(transaction_id);
    s.append(" not found");
    s
}

} // verus!
