//! Decision logic of the GQL service: the data plane.
//!
//! All GQL-domain errors are returned as GQLSTATUS codes in the response
//! payload; the transport status stays OK unless the session is missing or
//! the request is structurally invalid. The backend calls themselves happen
//! outside; the functions here make every decision before and after them,
//! and the pump turns the backend's frame stream into the wire stream,
//! injecting a terminal summary when the backend fails.

use vstd::prelude::*;

use crate::backend::{
    ResultFrame, ResultSummary, SessionHandle, TransactionHandle, TransactionMode,
};
use crate::error::{spec_error_text, GqlError, TransportCode, TransportStatus};
use crate::messages::{
    BeginRequest, BeginResponse, CommitResponse, ExecuteRequest, ExecuteResponse, RollbackResponse,
};
use crate::registry::{spec_has_key, spec_lookup};
use crate::session_manager::{SessionManager, SessionState};
use crate::status::GqlStatus;
use crate::transaction_manager::{spec_session_active, TransactionManager};
use crate::value::{view_prop_seq, Value};
use crate::wire::{props_from_wire, view_wire_prop_seq};

verus! {

broadcast use vstd::std_specs::vec::group_vec_axioms;

/// Validate that a session exists, returning a transport error if not.
pub fn validate_session(sessions: &SessionManager, session_id: &str) -> (r: Result<
    (),
    TransportStatus,
>)
    ensures
        match r {
            Ok(()) => spec_has_key(sessions.entries(), session_id@),
            Err(t) => !spec_has_key(sessions.entries(), session_id@) && t.code
                == TransportCode::NotFound && t.message@ == "session "@ + session_id@
                + " not found"@,
        },
{
    if sessions.contains(session_id) {
        Ok(())
    } else {
        let mut m = "session ".to_owned();
        m.append(session_id);
        m.append(" not found");
        Err(TransportStatus { code: TransportCode::NotFound, message: m })
    }
}

/// What the runtime hands the backend for one execute call.
#[derive(Debug, PartialEq)]
pub struct ExecutePlan {
    /// The session handle.
    pub session: SessionHandle,
    /// The validated transaction handle, if the request named one.
    pub transaction: Option<TransactionHandle>,
    /// The statement parameters, decoded.
    pub parameters: Vec<(String, Value)>,
}

/// Validate an execute request against the registries: the session must
/// exist (it is touched), and a named transaction must belong to it.
/// Decodes the parameters.
pub fn execute_preflight(
    sessions: &mut SessionManager,
    transactions: &TransactionManager,
    req: &ExecuteRequest,
    now: u64,
) -> (r: Result<ExecutePlan, TransportStatus>)
    requires
        old(sessions).wf(),
    ensures
        final(sessions).wf(),
        final(sessions).capacity() == old(sessions).capacity(),
        forall|k2: Seq<char>|
            k2 != req.session_id@ ==> #[trigger] spec_lookup(final(sessions).entries(), k2)
                == spec_lookup(old(sessions).entries(), k2),
        match r {
            Ok(plan) => {
                &&& spec_has_key(old(sessions).entries(), req.session_id@)
                &&& spec_lookup(old(sessions).entries(), req.session_id@) matches Some(st)
                    && spec_lookup(final(sessions).entries(), req.session_id@) == Some(
                    SessionState { last_activity: now, ..st },
                )
                &&& plan.session.0@ == req.session_id@
                &&& match req.transaction_id {
                    Some(tid) => (spec_lookup(transactions.entries(), tid@) matches Some(ts)
                        && ts.session_id@ == req.session_id@) && (plan.transaction matches Some(h)
                        && h.0@ == tid@),
                    None => plan.transaction is None,
                }
                &&& view_prop_seq(plan.parameters@) == view_wire_prop_seq(req.parameters@)
            },
            Err(t) => {
                &&& t.code == TransportCode::NotFound ==> !spec_has_key(
                    old(sessions).entries(),
                    req.session_id@,
                )
                &&& t.code == TransportCode::FailedPrecondition ==> spec_has_key(
                    old(sessions).entries(),
                    req.session_id@,
                ) && (req.transaction_id matches Some(tid) && match spec_lookup(
                    transactions.entries(),
                    tid@,
                ) {
                    Some(ts) => ts.session_id@ != req.session_id@,
                    None => true,
                })
                &&& (t.code == TransportCode::NotFound || t.code
                    == TransportCode::FailedPrecondition)
            },
        },
{
    if let Err(t) = validate_session(sessions, req.session_id.as_str()) {
        return Err(t);
    }
    sessions.touch(req.session_id.as_str(), now);
    proof {
        crate::registry::lemma_has_key_lookup(old(sessions).entries(), req.session_id@);
    }
    let transaction = match &req.transaction_id {
        Some(tid) => {
            match transactions.validate(tid.as_str(), req.session_id.as_str()) {
                Ok(()) => Some(TransactionHandle(tid.clone())),
                Err(e) => {
                    let t = e.to_grpc_status();
                    proof {
                        assert(t.code == TransportCode::FailedPrecondition);
                    }
                    return Err(t);
                },
            }
        },
        None => None,
    };
    let parameters = props_from_wire(&req.parameters);
    Ok(
        ExecutePlan {
            session: SessionHandle(req.session_id.clone()),
            transaction,
            parameters,
        },
    )
}

/// Wrap a result frame in its wire message.
pub fn frame_to_response(frame: ResultFrame) -> (r: ExecuteResponse)
    ensures
        r.frame == Some(frame),
{
    ExecuteResponse { frame: Some(frame) }
}

/// Whether `resp` is the terminal summary the pump emits for error `e`:
/// the error's own GQLSTATUS when it carries one, else a data-exception
/// status whose message is the error's display text.
pub open spec fn spec_is_error_summary(resp: ExecuteResponse, e: GqlError) -> bool {
    &&& resp.frame matches Some(ResultFrame::Summary(s))
    &&& (resp.frame matches Some(ResultFrame::Summary(s)) ==> {
        &&& s.warnings@ == Seq::<GqlStatus>::empty()
        &&& s.rows_affected == 0
        &&& s.counters@ == Seq::<(String, i64)>::empty()
        &&& match e {
            GqlError::Status { status } => s.status == Some(status),
            _ => s.status matches Some(st) && st.code@ == "22000"@ && st.message@
                == spec_error_text(e) && st.diagnostic is None && st.cause is None,
        }
    })
}

/// Build the terminal summary frame for a failed execute: the error's
/// GQLSTATUS when it carries one, else a data-exception status with the
/// error's display text.
pub fn error_summary_response(err: GqlError) -> (r: ExecuteResponse)
    ensures
        spec_is_error_summary(r, err),
{
    let status = match err {
        GqlError::Status { status } => status,
        other => {
            let text = other.display_string();
            crate::status::error_message("22000", text)
        },
    };
    ExecuteResponse {
        frame: Some(
            ResultFrame::Summary(
                ResultSummary {
                    status: Some(status),
                    warnings: Vec::new(),
                    rows_affected: 0,
                    counters: Vec::new(),
                },
            ),
        ),
    }
}

/// The index of the first backend error in the item stream, or the length
/// when every item is a frame.
pub open spec fn spec_first_err(items: Seq<Result<ResultFrame, GqlError>>) -> int
    decreases items.len(),
{
    if items.len() == 0 {
        0
    } else if items[0] is Err {
        0
    } else {
        1 + spec_first_err(items.drop_first())
    }
}

/// The first error index is at most the length, frames precede it, and it
/// points at an error when it is in range.
pub proof fn lemma_first_err(items: Seq<Result<ResultFrame, GqlError>>)
    ensures
        0 <= spec_first_err(items) <= items.len(),
        forall|j: int| 0 <= j < spec_first_err(items) ==> (#[trigger] items[j]) is Ok,
        spec_first_err(items) < items.len() ==> items[spec_first_err(items)] is Err,
    decreases items.len(),
{
    if items.len() > 0 && !(items[0] is Err) {
        lemma_first_err(items.drop_first());
        assert forall|j: int| 0 <= j < spec_first_err(items) implies (#[trigger] items[j])
            is Ok by {
            if j > 0 {
                assert(items.drop_first()[j - 1] == items[j]);
            }
        }
        if spec_first_err(items) < items.len() {
            assert(items.drop_first()[spec_first_err(items) - 1] == items[spec_first_err(items)]);
        }
    }
}

/// Adapt the backend's item stream into the wire stream: each frame is
/// wrapped in order; the first error becomes a terminal summary frame and
/// ends the stream.
pub fn pump(items: Vec<Result<ResultFrame, GqlError>>) -> (r: Vec<ExecuteResponse>)
    ensures
        ({
            let k = spec_first_err(items@);
            &&& (k == items@.len() ==> r@.len() == k)
            &&& (k < items@.len() ==> r@.len() == k + 1)
            &&& forall|j: int|
                0 <= j < k ==> (#[trigger] r@[j]).frame == Some(items@[j]->Ok_0)
            &&& (k < items@.len() ==> spec_is_error_summary(r@[k], items@[k]->Err_0))
        }),
{
    proof {
        lemma_first_err(items@);
    }
    let ghost all = items@;
    let mut src = items;
    let n0 = src.len();
    let mut out: Vec<ExecuteResponse> = Vec::new();
    let mut i: usize = 0;
    #[verifier::loop_isolation(false)]
    while src.len() > 0
        invariant
            all.len() == n0,
            i + src@.len() == all.len(),
            src@ =~= all.subrange(i as int, all.len() as int),
            i <= spec_first_err(all),
            out@.len() == i as int,
            forall|j: int| 0 <= j < i ==> (#[trigger] out@[j]).frame == Some(all[j]->Ok_0),
        decreases src@.len(),
    {
        let item = src.remove(0);
        proof {
            assert(item == all[i as int]);
        }
        match item {
            Ok(frame) => {
                proof {
                    if i as int == spec_first_err(all) {
                        assert(spec_first_err(all) < all.len());
                        assert(all[spec_first_err(all)] is Err);
                    }
                }
                out.push(frame_to_response(frame));
            },
            Err(e) => {
                proof {
                    assert(i as int == spec_first_err(all));
                }
                out.push(error_summary_response(e));
                return out;
            },
        }
        i = i + 1;
        proof {
            assert(src@ =~= all.subrange(i as int, all.len() as int));
        }
    }
    proof {
        assert(spec_first_err(all) == all.len());
    }
    out
}

// ============================================================================
// Stream shape
// ============================================================================

/// Whether a frame sequence is well formed: exactly one header (first),
/// exactly one summary (last), and row batches in between.
pub open spec fn spec_well_formed_frames(frames: Seq<ResultFrame>) -> bool {
    &&& frames.len() >= 2
    &&& frames[0] is Header
    &&& frames[frames.len() - 1] is Summary
    &&& forall|j: int| 0 < j < frames.len() - 1 ==> (#[trigger] frames[j]) is Batch
}

/// Whether a response stream is well formed: every message carries a frame,
/// the first a header, the last a summary, row batches in between.
pub open spec fn spec_well_formed_responses(rs: Seq<ExecuteResponse>) -> bool {
    &&& rs.len() >= 2
    &&& rs[0].frame matches Some(f) && f is Header
    &&& rs[rs.len() - 1].frame matches Some(f) && f is Summary
    &&& forall|j: int|
        0 < j < rs.len() - 1 ==> ((#[trigger] rs[j]).frame matches Some(f) && f is Batch)
}

/// The execute stream law: when the backend yields a well-formed frame
/// sequence and no error, the wire stream the pump produces matches
/// `Header (Batch)* Summary` - exactly one header first, exactly one
/// summary last, batches in between.
pub proof fn lemma_execute_stream_shape(
    items: Seq<Result<ResultFrame, GqlError>>,
    rs: Seq<ExecuteResponse>,
)
    requires
        forall|j: int| 0 <= j < items.len() ==> (#[trigger] items[j]) is Ok,
        spec_well_formed_frames(Seq::new(items.len(), |j: int| items[j]->Ok_0)),
        rs.len() == items.len(),
        forall|j: int| 0 <= j < rs.len() ==> (#[trigger] rs[j]).frame == Some(items[j]->Ok_0),
    ensures
        spec_well_formed_responses(rs),
{
    let frames = Seq::new(items.len(), |j: int| items[j]->Ok_0);
    assert(rs[0].frame == Some(frames[0]));
    assert(rs[rs.len() - 1].frame == Some(frames[frames.len() - 1]));
    assert forall|j: int|
        0 < j < rs.len() - 1 implies (#[trigger] rs[j]).frame matches Some(f) && f is Batch by {
        assert(rs[j].frame == Some(frames[j]));
    }
}

// ============================================================================
// Begin / commit / rollback
// ============================================================================

/// Validate a begin request: the session must exist (it is touched); the
/// wire mode is decoded, unknown codes falling back to read-write.
pub fn begin_preflight(sessions: &mut SessionManager, req: &BeginRequest, now: u64) -> (r: Result<
    TransactionMode,
    TransportStatus,
>)
    requires
        old(sessions).wf(),
    ensures
        final(sessions).wf(),
        final(sessions).capacity() == old(sessions).capacity(),
        forall|k2: Seq<char>|
            k2 != req.session_id@ ==> #[trigger] spec_lookup(final(sessions).entries(), k2)
                == spec_lookup(old(sessions).entries(), k2),
        match r {
            Ok(mode) => {
                &&& spec_has_key(old(sessions).entries(), req.session_id@)
                &&& (req.mode == 1 ==> mode is ReadOnly)
                &&& (req.mode != 1 ==> mode is ReadWrite)
            },
            Err(t) => !spec_has_key(old(sessions).entries(), req.session_id@) && t.code
                == TransportCode::NotFound && final(sessions).entries() == old(sessions).entries(),
        },
{
    if let Err(t) = validate_session(sessions, req.session_id.as_str()) {
        return Err(t);
    }
    sessions.touch(req.session_id.as_str(), now);
    Ok(TransactionMode::from_wire_code(req.mode))
}

/// Finish a begin after the backend answered.
///
/// On a backend handle, registration is attempted: if the session already
/// holds a transaction, the response carries an in-payload `25G01` status
/// with an empty transaction id and the handle is returned so the caller
/// can roll it back on the backend; otherwise the transaction is registered,
/// the session's active pointer set, and the response carries the new id
/// with a success status. On a backend error, the response carries the
/// error's GQLSTATUS when it has one, else a synthesized `25G01`.
pub fn begin_complete(
    sessions: &mut SessionManager,
    transactions: &mut TransactionManager,
    session_id: &str,
    mode: TransactionMode,
    outcome: Result<TransactionHandle, GqlError>,
) -> (r: (BeginResponse, Option<TransactionHandle>))
    requires
        old(sessions).wf(),
        old(transactions).wf(),
    ensures
        final(sessions).wf(),
        final(sessions).capacity() == old(sessions).capacity(),
        final(transactions).wf(),
        match outcome {
            Ok(handle) => {
                if spec_session_active(old(transactions).entries(), session_id@) {
                    &&& final(transactions).entries() == old(transactions).entries()
                    &&& final(sessions).entries() == old(sessions).entries()
                    &&& r.0.transaction_id@ == Seq::<char>::empty()
                    &&& (r.0.status matches Some(st) && st.code@ == "25G01"@ && st.message@
                        == "transaction error: session already has an active transaction"@)
                    &&& r.1 == Some(handle)
                } else {
                    &&& spec_lookup(final(transactions).entries(), handle.0@) matches Some(ts)
                        && ts.session_id@ == session_id@ && ts.mode == mode
                    &&& forall|k2: Seq<char>|
                        k2 != handle.0@ ==> #[trigger] spec_lookup(final(transactions).entries(), k2)
                            == spec_lookup(old(transactions).entries(), k2)
                    &&& (spec_has_key(old(sessions).entries(), session_id@) ==> (spec_lookup(
                        final(sessions).entries(),
                        session_id@,
                    ) matches Some(st2) && (st2.active_transaction matches Some(a) && a@
                        == handle.0@)))
                    &&& r.0.transaction_id@ == handle.0@
                    &&& (r.0.status matches Some(st) && st.code@ == "00000"@)
                    &&& r.1 is None
                }
            },
            Err(e) => {
                &&& final(transactions).entries() == old(transactions).entries()
                &&& final(sessions).entries() == old(sessions).entries()
                &&& r.0.transaction_id@ == Seq::<char>::empty()
                &&& (match e {
                    GqlError::Status { status } => r.0.status == Some(status),
                    _ => r.0.status matches Some(st) && st.code@ == "25G01"@ && st.message@
                        == spec_error_text(e),
                })
                &&& r.1 is None
            },
        },
{
    match outcome {
        Ok(handle) => {
            let tx_id = handle.0.as_str();
            match transactions.register(tx_id, session_id, mode) {
                Ok(()) => {
                    let active = handle.0.clone();
                    let set_res = sessions.set_active_transaction(session_id, Some(active));
                    proof {
                        if spec_has_key(old(sessions).entries(), session_id@) {
                            crate::registry::lemma_has_key_lookup(
                                old(sessions).entries(),
                                session_id@,
                            );
                        }
                    }
                    let resp = BeginResponse {
                        transaction_id: handle.0,
                        status: Some(crate::status::success()),
                    };
                    (resp, None)
                },
                Err(e) => {
                    let text = e.display_string();
                    proof {
                        reveal_strlit("transaction error: ");
                        reveal_strlit("session already has an active transaction");
                        reveal_strlit("transaction error: session already has an active transaction");
                        assert(text@ =~= "transaction error: session already has an active transaction"@);
                    }
                    let resp = BeginResponse {
                        transaction_id: String::new(),
                        status: Some(crate::status::error_message("25G01", text)),
                    };
                    (resp, Some(handle))
                },
            }
        },
        Err(e) => {
            let status = match e {
                GqlError::Status { status } => status,
                other => {
                    let text = other.display_string();
                    crate::status::error_message("25G01", text)
                },
            };
            (BeginResponse { transaction_id: String::new(), status: Some(status) }, None)
        },
    }
}

/// Validate a commit or rollback request against the transaction registry:
/// the session must exist (checked by the caller first and touched here);
/// a missing transaction or one owned by another session yields an
/// in-payload `25000` status.
pub fn finish_preflight(
    sessions: &mut SessionManager,
    transactions: &TransactionManager,
    session_id: &str,
    transaction_id: &str,
    now: u64,
) -> (r: Result<(), GqlStatus>)
    requires
        old(sessions).wf(),
    ensures
        final(sessions).wf(),
        final(sessions).capacity() == old(sessions).capacity(),
        forall|k2: Seq<char>|
            k2 != session_id@ ==> #[trigger] spec_lookup(final(sessions).entries(), k2)
                == spec_lookup(old(sessions).entries(), k2),
        match r {
            Ok(()) => spec_lookup(transactions.entries(), transaction_id@) matches Some(ts)
                && ts.session_id@ == session_id@,
            Err(st) => {
                &&& (match spec_lookup(transactions.entries(), transaction_id@) {
                    Some(ts) => ts.session_id@ != session_id@,
                    None => true,
                })
                &&& st.code@ == "25000"@
            },
        },
{
    sessions.touch(session_id, now);
    match transactions.validate(transaction_id, session_id) {
        Ok(()) => Ok(()),
        Err(e) => {
            let text = e.display_string();
            Err(crate::status::error_message("25000", text))
        },
    }
}

/// The terminal GQLSTATUS of a commit or rollback: success on a backend
/// success, the error's GQLSTATUS when it carries one, else a synthesized
/// `40000` (transaction rollback) with the error's display text.
pub open spec fn spec_terminal_status_ok(outcome: Result<(), GqlError>, st: GqlStatus) -> bool {
    match outcome {
        Ok(()) => st.code@ == "00000"@,
        Err(e) => match e {
            GqlError::Status { status } => st == status,
            _ => st.code@ == "40000"@ && st.message@ == spec_error_text(e),
        },
    }
}

/// Finish a commit or rollback after the backend answered: on any terminal
/// response the transaction leaves the registry and the session's active
/// pointer is cleared.
pub fn finish_complete(
    sessions: &mut SessionManager,
    transactions: &mut TransactionManager,
    session_id: &str,
    transaction_id: &str,
    outcome: Result<(), GqlError>,
) -> (r: GqlStatus)
    requires
        old(sessions).wf(),
        old(transactions).wf(),
    ensures
        final(sessions).wf(),
        final(sessions).capacity() == old(sessions).capacity(),
        final(transactions).wf(),
        spec_lookup(final(transactions).entries(), transaction_id@) is None,
        forall|k2: Seq<char>|
            k2 != transaction_id@ ==> #[trigger] spec_lookup(final(transactions).entries(), k2)
                == spec_lookup(old(transactions).entries(), k2),
        spec_has_key(old(sessions).entries(), session_id@) ==> (spec_lookup(
            final(sessions).entries(),
            session_id@,
        ) matches Some(st2) && st2.active_transaction is None),
        forall|k2: Seq<char>|
            k2 != session_id@ ==> #[trigger] spec_lookup(final(sessions).entries(), k2)
                == spec_lookup(old(sessions).entries(), k2),
        spec_terminal_status_ok(outcome, r),
{
    let removed = transactions.remove(transaction_id);
    proof {
        if spec_lookup(old(transactions).entries(), transaction_id@) is None {
            crate::registry::lemma_has_key_lookup(old(transactions).entries(), transaction_id@);
        }
        if spec_has_key(old(sessions).entries(), session_id@) {
            crate::registry::lemma_has_key_lookup(old(sessions).entries(), session_id@);
        }
    }
    let cleared = sessions.set_active_transaction(session_id, None);
    match outcome {
        Ok(()) => crate::status::success(),
        Err(e) => {
            match e {
                GqlError::Status { status } => status,
                other => {
                    let text = other.display_string();
                    crate::status::error_message("40000", text)
                },
            }
        },
    }
}

/// Assemble a commit response.
pub fn commit_response(status: GqlStatus) -> (r: CommitResponse)
    ensures
        r.status == Some(status),
{
    CommitResponse { status: Some(status) }
}

/// Assemble a rollback response.
pub fn rollback_response(status: GqlStatus) -> (r: RollbackResponse)
    ensures
        r.status == Some(status),
{
    RollbackResponse { status: Some(status) }
}

} // verus!
