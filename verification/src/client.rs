//! Client-side primitives: the cursor over a streamed execute response, the
//! transaction bookkeeping with its rollback-on-drop obligation, and the
//! request builders that encode the protocol.
//!
//! The transport delivers the response messages; the cursor works over the
//! messages received, and yields the rows in exactly the order the server
//! emitted them across all batches - never reordered, never dropped.

use vstd::prelude::*;

use crate::backend::{ResultFrame, ResultHeader, ResultSummary, Row};
use crate::error::GqlError;
use crate::messages::{
    BeginRequest, BeginResponse, CloseRequest, CommitRequest, ConfigureProperty, ConfigureRequest,
    ExecuteRequest, ExecuteResponse, HandshakeRequest, PingRequest, ResetRequest, RollbackRequest,
};
use crate::status::GqlStatus;
use crate::wire::WireValue;

verus! {

broadcast use vstd::std_specs::vec::group_vec_axioms;

// ============================================================================
// Cursor
// ============================================================================

/// The rows of a response stream: the rows of every batch frame,
/// concatenated in stream order.
pub open spec fn spec_stream_rows(resps: Seq<ExecuteResponse>) -> Seq<Row>
    decreases resps.len(),
{
    if resps.len() == 0 {
        Seq::empty()
    } else {
        (match resps[0].frame {
            Some(ResultFrame::Batch(b)) => b.rows@,
            _ => Seq::empty(),
        }) + spec_stream_rows(resps.drop_first())
    }
}

/// The first header frame of a response stream, if any.
pub open spec fn spec_stream_header(resps: Seq<ExecuteResponse>) -> Option<ResultHeader>
    decreases resps.len(),
{
    if resps.len() == 0 {
        None
    } else {
        match resps[0].frame {
            Some(ResultFrame::Header(h)) => Some(h),
            _ => spec_stream_header(resps.drop_first()),
        }
    }
}

/// The first summary frame of a response stream, if any.
pub open spec fn spec_stream_summary(resps: Seq<ExecuteResponse>) -> Option<ResultSummary>
    decreases resps.len(),
{
    if resps.len() == 0 {
        None
    } else {
        match resps[0].frame {
            Some(ResultFrame::Summary(s)) => Some(s),
            _ => spec_stream_summary(resps.drop_first()),
        }
    }
}

/// A cursor over the streamed results from a GQL statement.
///
/// Built from the messages of one execute stream; provides access to the
/// column metadata, the rows in exact stream order, and the final summary.
pub struct ResultCursor {
    header: Option<ResultHeader>,
    summary: Option<ResultSummary>,
    rows: Vec<Row>,
    taken: Ghost<Seq<Row>>,
}

impl ResultCursor {
    /// The rows of the stream, in order: those already handed out followed
    /// by those still buffered.
    pub closed spec fn all_rows(&self) -> Seq<Row> {
        self.taken@ + self.rows@
    }

    /// How many rows have been handed out.
    pub closed spec fn delivered(&self) -> int {
        self.taken@.len() as int
    }

    /// The stream's header frame.
    pub closed spec fn spec_header(&self) -> Option<ResultHeader> {
        self.header
    }

    /// The stream's summary frame.
    pub closed spec fn spec_summary(&self) -> Option<ResultSummary> {
        self.summary
    }

    /// Build a cursor from the messages of one execute stream.
    ///
    /// The cursor's rows are the rows of every batch, concatenated in
    /// stream order; the header and summary are the stream's first of each.
    pub fn new(responses: Vec<ExecuteResponse>) -> (r: ResultCursor)
        ensures
            r.all_rows() == spec_stream_rows(responses@),
            r.delivered() == 0,
            r.spec_header() == spec_stream_header(responses@),
            r.spec_summary() == spec_stream_summary(responses@),
    {
        let ghost all = responses@;
        let mut src = responses;
        let n0 = src.len();
        let mut header: Option<ResultHeader> = None;
        let mut summary: Option<ResultSummary> = None;
        let mut rows: Vec<Row> = Vec::new();
        let mut i: usize = 0;
        #[verifier::loop_isolation(false)]
        while src.len() > 0
            invariant
                all.len() == n0,
                i + src@.len() == all.len(),
                src@ =~= all.subrange(i as int, all.len() as int),
                rows@ + spec_stream_rows(src@) =~= spec_stream_rows(all),
                spec_stream_header(all) == match header {
                    Some(h) => Some(h),
                    None => spec_stream_header(src@),
                },
                spec_stream_summary(all) == match summary {
                    Some(s) => Some(s),
                    None => spec_stream_summary(src@),
                },
            decreases src@.len(),
        {
            let ghost before = src@;
            let resp = src.remove(0);
            proof {
                assert(resp == before[0]);
                assert(src@ =~= before.drop_first());
            }
            match resp.frame {
                Some(ResultFrame::Header(h)) => {
                    if header.is_none() {
                        header = Some(h);
                    }
                },
                Some(ResultFrame::Batch(b)) => {
                    let mut batch_rows = b.rows;
                    let ghost rows_before = rows@;
                    let ghost batch_seq = batch_rows@;
                    let mut j: usize = 0;
                    let m0 = batch_rows.len();
                    while batch_rows.len() > 0
                        invariant
                            batch_seq.len() == m0,
                            j + batch_rows@.len() == batch_seq.len(),
                            batch_rows@ =~= batch_seq.subrange(
                                j as int,
                                batch_seq.len() as int,
                            ),
                            rows@ =~= rows_before + batch_seq.take(j as int),
                        decreases batch_rows@.len(),
                    {
                        let ghost brows = batch_rows@;
                        let row = batch_rows.remove(0);
                        proof {
                            assert(row == batch_seq[j as int]);
                            assert(batch_rows@ =~= brows.drop_first());
                        }
                        rows.push(row);
                        j = j + 1;
                        proof {
                            assert(batch_seq.take(j as int) =~= batch_seq.take(j as int - 1).push(
                                batch_seq[j as int - 1],
                            ));
                        }
                    }
                    proof {
                        assert(batch_seq.take(j as int) =~= batch_seq);
                        assert(rows@ =~= rows_before + batch_seq);
                    }
                },
                Some(ResultFrame::Summary(s)) => {
                    if summary.is_none() {
                        summary = Some(s);
                    }
                },
                None => {},
            }
            i = i + 1;
        }
        proof {
            assert(spec_stream_rows(src@) =~= Seq::<Row>::empty());
            assert(rows@ =~= spec_stream_rows(all));
        }
        let r = ResultCursor { header, summary, rows, taken: Ghost(Seq::empty()) };
        proof {
            assert(r.all_rows() =~= spec_stream_rows(all));
        }
        r
    }

    /// Get the result header (column metadata), or `None` when the stream
    /// carried no header.
    pub fn header(&self) -> (r: Option<&ResultHeader>)
        ensures
            match r {
                Some(h) => self.spec_header() == Some(*h),
                None => self.spec_header() is None,
            },
    {
        match &self.header {
            Some(h) => Some(h),
            None => None,
        }
    }

    /// Get the column names from the result header; empty without a header.
    pub fn column_names(&self) -> (r: Vec<String>)
        ensures
            match self.spec_header() {
                Some(h) => r@.len() == h.columns@.len() && forall|i: int|
                    0 <= i < h.columns@.len() ==> r@[i]@ == h.columns@[i].name@,
                None => r@.len() == 0,
            },
    {
        match &self.header {
            Some(h) => {
                let mut names: Vec<String> = Vec::new();
                let mut i: usize = 0;
                while i < h.columns.len()
                    invariant
                        i <= h.columns@.len(),
                        names@.len() == i as int,
                        forall|j: int| 0 <= j < i ==> names@[j]@ == h.columns@[j].name@,
                    decreases h.columns@.len() - i,
                {
                    names.push(h.columns[i].name.clone());
                    i = i + 1;
                }
                names
            },
            None => Vec::new(),
        }
    }

    /// Get the next row of results, in exact stream order.
    ///
    /// Returns `None` when all rows have been consumed.
    pub fn next_row(&mut self) -> (r: Option<Row>)
        ensures
            final(self).all_rows() == old(self).all_rows(),
            final(self).spec_header() == old(self).spec_header(),
            final(self).spec_summary() == old(self).spec_summary(),
            match r {
                Some(row) => old(self).delivered() < old(self).all_rows().len() && row == old(self).all_rows()[old(self).delivered()] && final(self).delivered() == old(self).delivered() + 1,
                None => old(self).delivered() == old(self).all_rows().len() && final(self).delivered() == old(self).delivered(),
            },
    {
        if self.rows.len() > 0 {
            let ghost new_taken = self.taken@.push(self.rows@[0]);
            let row = self.rows.remove(0);
            self.taken = Ghost(new_taken);
            proof {
                assert(final(self).all_rows() =~= old(self).all_rows());
            }
            Some(row)
        } else {
            None
        }
    }

    /// Collect all remaining rows into a vector, in exact stream order.
    pub fn collect_rows(&mut self) -> (r: Vec<Row>)
        ensures
            final(self).all_rows() == old(self).all_rows(),
            final(self).spec_header() == old(self).spec_header(),
            final(self).spec_summary() == old(self).spec_summary(),
            final(self).delivered() == old(self).all_rows().len(),
            r@ == old(self).all_rows().subrange(
                old(self).delivered(),
                old(self).all_rows().len() as int,
            ),
    {
        let mut out: Vec<Row> = Vec::new();
        #[verifier::loop_isolation(false)]
        while self.rows.len() > 0
            invariant
                self.taken@ + self.rows@ =~= old(self).all_rows(),
                self.header == old(self).spec_header(),
                self.summary == old(self).spec_summary(),
                old(self).delivered() <= self.taken@.len(),
                out@ =~= old(self).all_rows().subrange(
                    old(self).delivered(),
                    self.taken@.len() as int,
                ),
            decreases self.rows@.len(),
        {
            let ghost new_taken = self.taken@.push(self.rows@[0]);
            let row = self.rows.remove(0);
            self.taken = Ghost(new_taken);
            out.push(row);
        }
        proof {
            assert(final(self).all_rows() =~= old(self).all_rows());
            assert(out@ =~= old(self).all_rows().subrange(
                old(self).delivered(),
                old(self).all_rows().len() as int,
            ));
        }
        out
    }

    /// Get the result summary, or `None` when the stream carried none.
    pub fn summary(&self) -> (r: Option<&ResultSummary>)
        ensures
            match r {
                Some(s) => self.spec_summary() == Some(*s),
                None => self.spec_summary() is None,
            },
    {
        match &self.summary {
            Some(s) => Some(s),
            None => None,
        }
    }

    /// Check if the result completed successfully: the summary's status is
    /// of class 00.
    pub fn is_success(&self) -> (r: bool)
        ensures
            r == (self.spec_summary() matches Some(s) && (s.status matches Some(st)
                && crate::status::spec_is_success(st.code@))),
    {
        match &self.summary {
            Some(s) => match &s.status {
                Some(st) => crate::status::is_success(st.code.as_str()),
                None => false,
            },
            None => false,
        }
    }

    /// Get the number of rows affected (for DML operations); zero without a
    /// summary.
    pub fn rows_affected(&self) -> (r: i64)
        ensures
            r == match self.spec_summary() {
                Some(s) => s.rows_affected,
                None => 0,
            },
    {
        match &self.summary {
            Some(s) => s.rows_affected,
            None => 0,
        }
    }
}

// ============================================================================
// Client-side transaction bookkeeping
// ============================================================================

/// An active transaction within a session, as the client tracks it.
///
/// Carries the owning session and transaction ids and two flags. The
/// invariant for safe use: when neither flag is set by the time the value
/// goes away, its holder owes the server a best-effort rollback
/// (`needs_rollback`).
#[derive(Debug)]
pub struct Transaction {
    session_id: String,
    id: String,
    committed: bool,
    rolled_back: bool,
}

impl Transaction {
    /// The owning session id.
    pub closed spec fn spec_session_id(&self) -> Seq<char> {
        self.session_id@
    }

    /// The transaction id.
    pub closed spec fn spec_id(&self) -> Seq<char> {
        self.id@
    }

    /// Whether a commit response was applied.
    pub closed spec fn spec_committed(&self) -> bool {
        self.committed
    }

    /// Whether a rollback response was applied.
    pub closed spec fn spec_rolled_back(&self) -> bool {
        self.rolled_back
    }

    /// Adopt a begin response: an exception-class status fails, an empty
    /// transaction id fails, anything else yields a live transaction with
    /// neither flag set.
    pub fn from_begin_response(session_id: String, resp: BeginResponse) -> (r: Result<
        Transaction,
        GqlError,
    >)
        ensures
            match r {
                Ok(tx) => {
                    &&& tx.spec_session_id() == session_id@
                    &&& tx.spec_id() == resp.transaction_id@
                    &&& resp.transaction_id@.len() > 0
                    &&& !tx.spec_committed()
                    &&& !tx.spec_rolled_back()
                    &&& (resp.status matches Some(st) ==> !crate::status::spec_is_exception(
                        st.code@,
                    ))
                },
                Err(e) => match e {
                    GqlError::Status { status } => resp.status == Some(status)
                        && crate::status::spec_is_exception(status.code@),
                    GqlError::Transaction(m) => {
                        &&& (resp.status matches Some(st) ==> !crate::status::spec_is_exception(
                            st.code@,
                        ))
                        &&& resp.transaction_id@.len() == 0
                        &&& m@ == "server returned empty transaction ID"@
                    },
                    _ => false,
                },
            },
    {
        match resp.status {
            Some(st) => {
                if crate::status::is_exception(st.code.as_str()) {
                    return Err(GqlError::Status { status: st });
                }
            },
            None => {},
        }
        if resp.transaction_id.as_str().is_empty() {
            return Err(GqlError::Transaction("server returned empty transaction ID".to_owned()));
        }
        Ok(
            Transaction {
                session_id,
                id: resp.transaction_id,
                committed: false,
                rolled_back: false,
            },
        )
    }

    /// Get the transaction ID.
    pub fn transaction_id(&self) -> (r: &str)
        ensures
            r@ == self.spec_id(),
    {
        self.id.as_str()
    }

    /// Build the request that runs a statement under this transaction.
    pub fn execute_request(&self, statement: &str, parameters: Vec<(String, WireValue)>) -> (r:
        ExecuteRequest)
        ensures
            r.session_id@ == self.spec_session_id(),
            r.statement@ == statement@,
            r.parameters == parameters,
            r.transaction_id matches Some(t) && t@ == self.spec_id(),
    {
        ExecuteRequest {
            session_id: self.session_id.clone(),
            statement: statement.to_owned(),
            parameters,
            transaction_id: Some(self.id.clone()),
        }
    }

    /// Build the commit request for this transaction.
    pub fn commit_request(&self) -> (r: CommitRequest)
        ensures
            r.session_id@ == self.spec_session_id(),
            r.transaction_id@ == self.spec_id(),
    {
        CommitRequest {
            session_id: self.session_id.clone(),
            transaction_id: self.id.clone(),
        }
    }

    /// Build the rollback request for this transaction.
    pub fn rollback_request(&self) -> (r: RollbackRequest)
        ensures
            r.session_id@ == self.spec_session_id(),
            r.transaction_id@ == self.spec_id(),
    {
        RollbackRequest {
            session_id: self.session_id.clone(),
            transaction_id: self.id.clone(),
        }
    }

    /// Record the commit's terminal response: the transaction counts as
    /// committed whatever the status says; an exception-class status still
    /// fails the call.
    pub fn apply_commit_response(&mut self, status: Option<GqlStatus>) -> (r: Result<(), GqlError>)
        ensures
            final(self).spec_session_id() == old(self).spec_session_id(),
            final(self).spec_id() == old(self).spec_id(),
            final(self).spec_committed(),
            final(self).spec_rolled_back() == old(self).spec_rolled_back(),
            match r {
                Ok(()) => status matches Some(st) ==> !crate::status::spec_is_exception(st.code@),
                Err(e) => e matches GqlError::Status { status: st } && status == Some(st)
                    && crate::status::spec_is_exception(st.code@),
            },
    {
        self.committed = true;
        match status {
            Some(st) => {
                if crate::status::is_exception(st.code.as_str()) {
                    return Err(GqlError::Status { status: st });
                }
                Ok(())
            },
            None => Ok(()),
        }
    }

    /// Record the rollback's terminal response: the transaction counts as
    /// rolled back whatever the status says; an exception-class status
    /// still fails the call.
    pub fn apply_rollback_response(&mut self, status: Option<GqlStatus>) -> (r: Result<
        (),
        GqlError,
    >)
        ensures
            final(self).spec_session_id() == old(self).spec_session_id(),
            final(self).spec_id() == old(self).spec_id(),
            final(self).spec_committed() == old(self).spec_committed(),
            final(self).spec_rolled_back(),
            match r {
                Ok(()) => status matches Some(st) ==> !crate::status::spec_is_exception(st.code@),
                Err(e) => e matches GqlError::Status { status: st } && status == Some(st)
                    && crate::status::spec_is_exception(st.code@),
            },
    {
        self.rolled_back = true;
        match status {
            Some(st) => {
                if crate::status::is_exception(st.code.as_str()) {
                    return Err(GqlError::Status { status: st });
                }
                Ok(())
            },
            None => Ok(()),
        }
    }

    /// Whether the holder owes the server a rollback when this value goes
    /// away: neither a commit nor a rollback was recorded.
    pub fn needs_rollback(&self) -> (r: bool)
        ensures
            r == (!self.spec_committed() && !self.spec_rolled_back()),
    {
        !self.committed && !self.rolled_back
    }
}

// ============================================================================
// Request builders
// ============================================================================

/// Build the default handshake request: protocol version 1, no credentials,
/// no client metadata.
pub fn handshake_request() -> (r: HandshakeRequest)
    ensures
        r.protocol_version == 1,
        r.credentials is None,
        r.client_info@ == Seq::<(String, String)>::empty(),
{
    HandshakeRequest { protocol_version: 1, credentials: None, client_info: Vec::new() }
}

/// Build the request that runs a statement outside any explicit
/// transaction.
pub fn execute_request(session_id: &str, statement: &str, parameters: Vec<(String, WireValue)>)
    -> (r: ExecuteRequest)
    ensures
        r.session_id@ == session_id@,
        r.statement@ == statement@,
        r.parameters == parameters,
        r.transaction_id is None,
{
    ExecuteRequest {
        session_id: session_id.to_owned(),
        statement: statement.to_owned(),
        parameters,
        transaction_id: None,
    }
}

/// Build the request that begins a transaction.
pub fn begin_request(session_id: &str, mode: crate::backend::TransactionMode) -> (r: BeginRequest)
    ensures
        r.session_id@ == session_id@,
        mode is ReadWrite ==> r.mode == 0,
        mode is ReadOnly ==> r.mode == 1,
{
    BeginRequest { session_id: session_id.to_owned(), mode: mode.wire_code() }
}

/// Build the request that sets the current graph.
pub fn set_graph_request(session_id: &str, graph: &str) -> (r: ConfigureRequest)
    ensures
        r.session_id@ == session_id@,
        r.property matches Some(p) && (p matches ConfigureProperty::Graph(g) && g@ == graph@),
{
    ConfigureRequest {
        session_id: session_id.to_owned(),
        property: Some(ConfigureProperty::Graph(graph.to_owned())),
    }
}

/// Build the request that sets the current schema.
pub fn set_schema_request(session_id: &str, schema: &str) -> (r: ConfigureRequest)
    ensures
        r.session_id@ == session_id@,
        r.property matches Some(p) && (p matches ConfigureProperty::Schema(g) && g@ == schema@),
{
    ConfigureRequest {
        session_id: session_id.to_owned(),
        property: Some(ConfigureProperty::Schema(schema.to_owned())),
    }
}

/// Build the request that sets the session timezone.
pub fn set_time_zone_request(session_id: &str, offset_minutes: i32) -> (r: ConfigureRequest)
    ensures
        r.session_id@ == session_id@,
        r.property == Some(ConfigureProperty::TimeZoneOffsetMinutes(offset_minutes)),
{
    ConfigureRequest {
        session_id: session_id.to_owned(),
        property: Some(ConfigureProperty::TimeZoneOffsetMinutes(offset_minutes)),
    }
}

/// Build the request that resets all session state.
pub fn reset_request(session_id: &str) -> (r: ResetRequest)
    ensures
        r.session_id@ == session_id@,
        r.target == 0,
{
    ResetRequest { session_id: session_id.to_owned(), target: 0 }
}

/// Build a ping request.
pub fn ping_request(session_id: &str) -> (r: PingRequest)
    ensures
        r.session_id@ == session_id@,
{
    PingRequest { session_id: session_id.to_owned() }
}

/// Build a close request.
pub fn close_request(session_id: &str) -> (r: CloseRequest)
    ensures
        r.session_id@ == session_id@,
{
    CloseRequest { session_id: session_id.to_owned() }
}

} // verus!
