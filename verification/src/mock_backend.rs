//! Mock backend for exercising the wire protocol runtime.
//!
//! Tracks counters for session and transaction handles. For `execute`, it
//! classifies the statement text by its leading keyword and returns canned
//! frame sequences: a binding table for queries, a row count for DML, an
//! omitted result for DDL, and a syntax error for statements that begin
//! with "ERROR".

use vstd::prelude::*;

use crate::backend::{
    ColumnDescriptor, CreateDatabaseConfig, DatabaseInfo, GqlType, ResultFrame, ResultHeader,
    ResultSummary, ResultType, Row, RowBatch, SessionConfig, SessionHandle, TransactionHandle,
    TypeDescriptor,
};
use crate::error::GqlError;
use crate::status::GqlStatus;
use crate::util::{spec_dec, u64_to_string};
use crate::wire::{WireKind, WireValue};

verus! {

broadcast use vstd::std_specs::vec::group_vec_axioms;

// ============================================================================
// Statement classification
// ============================================================================

/// The canned behaviours of the mock backend.
#[derive(Debug, Clone, Copy, PartialEq, Eq, Structural)]
pub enum StatementClass {
    /// A reading query: a binding table comes back.
    Query,
    /// A data manipulation statement: a row count comes back.
    Dml,
    /// A definition statement: an omitted result comes back.
    Ddl,
    /// A statement that simulates a backend failure.
    Fault,
    /// Anything else: treated like DDL.
    Other,
}

/// Whether a character is ASCII whitespace.
pub open spec fn spec_is_ws(c: char) -> bool {
    c == ' ' || c == '\t' || c == '\n' || c == '\r'
}

/// The statement with its leading whitespace dropped.
pub open spec fn spec_trim_start(s: Seq<char>) -> Seq<char>
    decreases s.len(),
{
    if s.len() == 0 {
        s
    } else if spec_is_ws(s[0]) {
        spec_trim_start(s.drop_first())
    } else {
        s
    }
}

/// Whether `c` reads as the ASCII upper-case letter `k`, ignoring case.
pub open spec fn spec_char_matches_upper(c: char, k: char) -> bool {
    (c as u32) == (k as u32) || (c as u32) == (k as u32) + 32
}

/// Whether `s` starts with the upper-case keyword `kw`, ignoring case.
pub open spec fn spec_starts_with_keyword(s: Seq<char>, kw: Seq<char>) -> bool {
    s.len() >= kw.len() && forall|i: int|
        0 <= i < kw.len() ==> spec_char_matches_upper(s[i], #[trigger] kw[i])
}

/// The canned behaviour a statement selects, by its leading keyword.
pub open spec fn spec_stmt_class(s: Seq<char>) -> StatementClass {
    let t = spec_trim_start(s);
    if spec_starts_with_keyword(t, "MATCH"@) || spec_starts_with_keyword(t, "RETURN"@) {
        StatementClass::Query
    } else if spec_starts_with_keyword(t, "INSERT"@) || spec_starts_with_keyword(t, "DELETE"@)
        || spec_starts_with_keyword(t, "SET"@) {
        StatementClass::Dml
    } else if spec_starts_with_keyword(t, "CREATE"@) || spec_starts_with_keyword(t, "DROP"@) {
        StatementClass::Ddl
    } else if spec_starts_with_keyword(t, "ERROR"@) {
        StatementClass::Fault
    } else {
        StatementClass::Other
    }
}

/// Find the first non-whitespace position of `s`.
fn trim_start_index(s: &str) -> (r: usize)
    ensures
        r <= s@.len(),
        spec_trim_start(s@) == s@.subrange(r as int, s@.len() as int),
{
    let n = s.unicode_len();
    proof {
        assert(s@.subrange(0, n as int) =~= s@);
    }
    let mut i: usize = 0;
    while i < n
        invariant
            n == s@.len(),
            i <= n,
            spec_trim_start(s@) == spec_trim_start(s@.subrange(i as int, n as int)),
        decreases n - i,
    {
        let c = s.get_char(i);
        if !(c == ' ' || c == '\t' || c == '\n' || c == '\r') {
            proof {
                assert(s@.subrange(i as int, n as int)[0] == s@[i as int]);
            }
            return i;
        }
        proof {
            assert(s@.subrange(i as int, n as int)[0] == s@[i as int]);
            assert(s@.subrange(i as int, n as int).drop_first() =~= s@.subrange(
                i as int + 1,
                n as int,
            ));
        }
        i = i + 1;
    }
    proof {
        assert(s@.subrange(i as int, n as int) =~= Seq::<char>::empty());
    }
    i
}

/// Whether `s`, from position `from`, starts with the upper-case keyword
/// `kw`, ignoring case.
fn starts_with_keyword(s: &str, from: usize, kw: &str) -> (r: bool)
    requires
        from <= s@.len(),
    ensures
        r == spec_starts_with_keyword(s@.subrange(from as int, s@.len() as int), kw@),
{
    let n = s.unicode_len();
    let m = kw.unicode_len();
    if n - from < m {
        return false;
    }
    let mut i: usize = 0;
    while i < m
        invariant
            n == s@.len(),
            m == kw@.len(),
            from <= n,
            m <= n - from,
            i <= m,
            forall|j: int|
                0 <= j < i ==> spec_char_matches_upper(
                    s@.subrange(from as int, s@.len() as int)[j],
                    #[trigger] kw@[j],
                ),
        decreases m - i,
    {
        let c = s.get_char(from + i);
        let k = kw.get_char(i);
        let cv = c as u32;
        let kv = k as u32;
        proof {
            assert(s@.subrange(from as int, s@.len() as int)[i as int] == s@[from + i]);
        }
        if !(cv == kv || cv == kv + 32) {
            return false;
        }
        i = i + 1;
    }
    true
}

/// Classify a statement by its leading keyword, ignoring case and leading
/// whitespace.
pub fn classify_statement(statement: &str) -> (r: StatementClass)
    ensures
        r == spec_stmt_class(statement@),
{
    let from = trim_start_index(statement);
    proof {
        reveal_strlit("MATCH");
        reveal_strlit("RETURN");
        reveal_strlit("INSERT");
        reveal_strlit("DELETE");
        reveal_strlit("SET");
        reveal_strlit("CREATE");
        reveal_strlit("DROP");
        reveal_strlit("ERROR");
    }
    if starts_with_keyword(statement, from, "MATCH") || starts_with_keyword(
        statement,
        from,
        "RETURN",
    ) {
        StatementClass::Query
    } else if starts_with_keyword(statement, from, "INSERT") || starts_with_keyword(
        statement,
        from,
        "DELETE",
    ) || starts_with_keyword(statement, from, "SET") {
        StatementClass::Dml
    } else if starts_with_keyword(statement, from, "CREATE") || starts_with_keyword(
        statement,
        from,
        "DROP",
    ) {
        StatementClass::Ddl
    } else if starts_with_keyword(statement, from, "ERROR") {
        StatementClass::Fault
    } else {
        StatementClass::Other
    }
}

// ============================================================================
// Canned frame streams
// ============================================================================

/// Whether `frames` is the canned binding table: a two-column header, one
/// batch with the rows ("Alice", 30) and ("Bob", 25), and a successful
/// summary reporting two rows.
pub open spec fn spec_binding_table_frames(frames: Seq<ResultFrame>) -> bool {
    &&& frames.len() == 3
    &&& (frames[0] matches ResultFrame::Header(h) && {
        &&& h.result_type is BindingTable
        &&& h.columns@.len() == 2
        &&& h.columns@[0].name@ == "name"@
        &&& h.columns@[0].type_desc == Some(
            TypeDescriptor { gql_type: GqlType::TypeString, nullable: false },
        )
        &&& h.columns@[1].name@ == "age"@
        &&& h.columns@[1].type_desc == Some(
            TypeDescriptor { gql_type: GqlType::TypeInt64, nullable: false },
        )
    })
    &&& (frames[1] matches ResultFrame::Batch(b) && {
        &&& b.rows@.len() == 2
        &&& b.rows@[0].values@.len() == 2
        &&& b.rows@[0].values@[0]@ == crate::value::ValV::Text("Alice"@)
        &&& b.rows@[0].values@[1]@ == crate::value::ValV::Integer(30)
        &&& b.rows@[1].values@.len() == 2
        &&& b.rows@[1].values@[0]@ == crate::value::ValV::Text("Bob"@)
        &&& b.rows@[1].values@[1]@ == crate::value::ValV::Integer(25)
    })
    &&& (frames[2] matches ResultFrame::Summary(s) && {
        &&& (s.status matches Some(st) && st.code@ == "00000"@)
        &&& s.warnings@ == Seq::<GqlStatus>::empty()
        &&& s.rows_affected == 2
        &&& s.counters@ == Seq::<(String, i64)>::empty()
    })
}

/// Whether `frames` is a canned DML result: an omitted header and a
/// successful summary reporting `rows_affected` rows.
pub open spec fn spec_dml_frames(frames: Seq<ResultFrame>, rows_affected: i64) -> bool {
    &&& frames.len() == 2
    &&& (frames[0] matches ResultFrame::Header(h) && h.result_type is Omitted && h.columns@
        == Seq::<ColumnDescriptor>::empty())
    &&& (frames[1] matches ResultFrame::Summary(s) && {
        &&& (s.status matches Some(st) && st.code@ == "00000"@)
        &&& s.rows_affected == rows_affected
    })
}

/// Whether `frames` is the canned DDL result: an omitted header and an
/// omitted-result summary.
pub open spec fn spec_ddl_frames(frames: Seq<ResultFrame>) -> bool {
    &&& frames.len() == 2
    &&& (frames[0] matches ResultFrame::Header(h) && h.result_type is Omitted && h.columns@
        == Seq::<ColumnDescriptor>::empty())
    &&& (frames[1] matches ResultFrame::Summary(s) && {
        &&& (s.status matches Some(st) && st.code@ == "00001"@)
        &&& s.rows_affected == 0
    })
}

/// A pre-built sequence of result frames.
#[derive(Debug, PartialEq)]
pub struct MockResultStream {
    /// The frames, in the order they are yielded.
    pub frames: Vec<ResultFrame>,
}

impl MockResultStream {
    /// A binding table with two columns and two rows.
    pub fn binding_table() -> (r: MockResultStream)
        ensures
            spec_binding_table_frames(r.frames@),
    {
        let header = ResultFrame::Header(
            ResultHeader {
                result_type: ResultType::BindingTable,
                columns: vec![
                    ColumnDescriptor {
                        name: "name".to_owned(),
                        type_desc: Some(
                            TypeDescriptor { gql_type: GqlType::TypeString, nullable: false },
                        ),
                    },
                    ColumnDescriptor {
                        name: "age".to_owned(),
                        type_desc: Some(
                            TypeDescriptor { gql_type: GqlType::TypeInt64, nullable: false },
                        ),
                    },
                ],
            },
        );
        let batch = ResultFrame::Batch(
            RowBatch {
                rows: vec![
                    Row {
                        values: vec![
                            WireValue { kind: Some(WireKind::StringValue("Alice".to_owned())) },
                            WireValue { kind: Some(WireKind::IntegerValue(30)) },
                        ],
                    },
                    Row {
                        values: vec![
                            WireValue { kind: Some(WireKind::StringValue("Bob".to_owned())) },
                            WireValue { kind: Some(WireKind::IntegerValue(25)) },
                        ],
                    },
                ],
            },
        );
        let summary = ResultFrame::Summary(
            ResultSummary {
                status: Some(crate::status::success()),
                warnings: Vec::new(),
                rows_affected: 2,
                counters: Vec::new(),
            },
        );
        MockResultStream { frames: vec![header, batch, summary] }
    }

    /// A DML result affecting `rows_affected` rows.
    pub fn dml(rows_affected: i64) -> (r: MockResultStream)
        ensures
            spec_dml_frames(r.frames@, rows_affected),
    {
        let header = ResultFrame::Header(
            ResultHeader { result_type: ResultType::Omitted, columns: Vec::new() },
        );
        let summary = ResultFrame::Summary(
            ResultSummary {
                status: Some(crate::status::success()),
                warnings: Vec::new(),
                rows_affected,
                counters: Vec::new(),
            },
        );
        MockResultStream { frames: vec![header, summary] }
    }

    /// A DDL result: omitted, nothing affected.
    pub fn ddl() -> (r: MockResultStream)
        ensures
            spec_ddl_frames(r.frames@),
    {
        let header = ResultFrame::Header(
            ResultHeader { result_type: ResultType::Omitted, columns: Vec::new() },
        );
        let summary = ResultFrame::Summary(
            ResultSummary {
                status: Some(crate::status::omitted()),
                warnings: Vec::new(),
                rows_affected: 0,
                counters: Vec::new(),
            },
        );
        MockResultStream { frames: vec![header, summary] }
    }
}


/// Every canned stream of the mock is well formed: exactly one header
/// first, exactly one summary last, batches in between.
pub proof fn lemma_mock_streams_well_formed(frames: Seq<ResultFrame>)
    requires
        spec_binding_table_frames(frames) || spec_dml_frames(frames, 3) || spec_ddl_frames(frames),
    ensures
        crate::gql_service::spec_well_formed_frames(frames),
{
}

// ============================================================================
// The backend
// ============================================================================

/// A simple in-memory backend.
///
/// Hands out numbered session and transaction handles, and returns canned
/// results based on the statement text.
#[derive(Debug)]
pub struct MockBackend {
    session_counter: u64,
    transaction_counter: u64,
}

impl MockBackend {
    /// The next session number.
    pub closed spec fn session_count(&self) -> u64 {
        self.session_counter
    }

    /// The next transaction number.
    pub closed spec fn transaction_count(&self) -> u64 {
        self.transaction_counter
    }

    /// Create a new mock backend.
    pub fn new() -> (r: MockBackend)
        ensures
            r.session_count() == 1,
            r.transaction_count() == 1,
    {
        MockBackend { session_counter: 1, transaction_counter: 1 }
    }

    /// Create a session: hands out "mock-session-N" for the current count;
    /// the configuration is accepted as given.
    pub fn create_session(&mut self, config: &SessionConfig) -> (r: Result<SessionHandle, GqlError>)
        ensures
            final(self).session_count() == if old(self).session_count() == u64::MAX {
                1u64
            } else {
                (old(self).session_count() + 1) as u64
            },
            final(self).transaction_count() == old(self).transaction_count(),
            r matches Ok(h) && h.0@ == "mock-session-"@ + spec_dec(
                old(self).session_count() as nat,
            ),
    {
        let mut id = "mock-session-".to_owned();
        let digits = u64_to_string(self.session_counter);
        id.append(digits.as_str());
        self.session_counter = if self.session_counter == u64::MAX {
            1
        } else {
            self.session_counter + 1
        };
        Ok(SessionHandle(id))
    }

    /// Close a session: the mock holds no per-session resources.
    pub fn close_session(&self, session: &SessionHandle) -> (r: Result<(), GqlError>)
        ensures
            r is Ok,
    {
        Ok(())
    }

    /// Execute a statement: canned frames, selected by the leading keyword.
    /// A statement starting with "ERROR" fails with an invalid-syntax
    /// status.
    pub fn execute(&self, statement: &str) -> (r: Result<MockResultStream, GqlError>)
        ensures
            match spec_stmt_class(statement@) {
                StatementClass::Query => r matches Ok(s) && spec_binding_table_frames(s.frames@),
                StatementClass::Dml => r matches Ok(s) && spec_dml_frames(s.frames@, 3),
                StatementClass::Ddl => r matches Ok(s) && spec_ddl_frames(s.frames@),
                StatementClass::Other => r matches Ok(s) && spec_ddl_frames(s.frames@),
                StatementClass::Fault => r matches Err(e) && (e matches GqlError::Status { status }
                    && status.code@ == "42001"@ && status.message@ == "mock syntax error"@),
            },
    {
        match classify_statement(statement) {
            StatementClass::Query => Ok(MockResultStream::binding_table()),
            StatementClass::Dml => Ok(MockResultStream::dml(3)),
            StatementClass::Ddl => Ok(MockResultStream::ddl()),
            StatementClass::Other => Ok(MockResultStream::ddl()),
            StatementClass::Fault => Err(GqlError::status("42001", "mock syntax error")),
        }
    }

    /// Begin a transaction: hands out "mock-tx-N" for the current count.
    pub fn begin_transaction(&mut self) -> (r: Result<TransactionHandle, GqlError>)
        ensures
            final(self).transaction_count() == if old(self).transaction_count() == u64::MAX {
                1u64
            } else {
                (old(self).transaction_count() + 1) as u64
            },
            final(self).session_count() == old(self).session_count(),
            r matches Ok(h) && h.0@ == "mock-tx-"@ + spec_dec(
                old(self).transaction_count() as nat,
            ),
    {
        let mut id = "mock-tx-".to_owned();
        let digits = u64_to_string(self.transaction_counter);
        id.append(digits.as_str());
        self.transaction_counter = if self.transaction_counter == u64::MAX {
            1
        } else {
            self.transaction_counter + 1
        };
        Ok(TransactionHandle(id))
    }

    /// Commit a transaction: the mock accepts every commit.
    pub fn commit(&self, session: &SessionHandle, transaction: &TransactionHandle) -> (r: Result<
        (),
        GqlError,
    >)
        ensures
            r is Ok,
    {
        Ok(())
    }

    /// Roll back a transaction: the mock accepts every rollback.
    pub fn rollback(&self, session: &SessionHandle, transaction: &TransactionHandle) -> (r: Result<
        (),
        GqlError,
    >)
        ensures
            r is Ok,
    {
        Ok(())
    }
}

// ============================================================================
// Database management on the mock
// ============================================================================

impl MockBackend {
    /// List the canned databases "default" and "test".
    pub fn list_databases(&self) -> (r: Result<Vec<DatabaseInfo>, GqlError>)
        ensures
            r matches Ok(dbs) && dbs@.len() == 2 && dbs@[0].name@ == "default"@ && dbs@[0].node_count
                == 100 && dbs@[0].edge_count == 50 && dbs@[1].name@ == "test"@
                && dbs@[1].node_count == 10 && dbs@[1].edge_count == 5,
    {
        let mut dbs: Vec<DatabaseInfo> = Vec::new();
        dbs.push(
            DatabaseInfo {
                name: "default".to_owned(),
                node_count: 100,
                edge_count: 50,
                persistent: false,
                database_type: "Lpg".to_owned(),
                storage_mode: "InMemory".to_owned(),
                memory_limit_bytes: None,
                backward_edges: Some(false),
                threads: None,
            },
        );
        dbs.push(
            DatabaseInfo {
                name: "test".to_owned(),
                node_count: 10,
                edge_count: 5,
                persistent: false,
                database_type: "Lpg".to_owned(),
                storage_mode: "InMemory".to_owned(),
                memory_limit_bytes: None,
                backward_edges: None,
                threads: None,
            },
        );
        Ok(dbs)
    }

    /// Create a database: "default" already exists, anything else is
    /// reported fresh, persistent when its storage mode says so.
    pub fn create_database(&self, config: CreateDatabaseConfig) -> (r: Result<
        DatabaseInfo,
        GqlError,
    >)
        ensures
            config.name@ == "default"@ ==> (r matches Err(e) && (e matches GqlError::Session(m)
                && m@ == "database 'default' already exists"@)),
            config.name@ != "default"@ ==> (r matches Ok(info) && {
                &&& info.name == config.name
                &&& info.node_count == 0
                &&& info.edge_count == 0
                &&& info.persistent == (config.storage_mode@ == "Persistent"@)
                &&& info.database_type == config.database_type
                &&& info.storage_mode == config.storage_mode
                &&& info.memory_limit_bytes == config.memory_limit_bytes
                &&& info.backward_edges == config.backward_edges
                &&& info.threads == config.threads
            }),
    {
        if crate::util::str_eq(config.name.as_str(), "default") {
            return Err(GqlError::Session("database 'default' already exists".to_owned()));
        }
        let persistent = crate::util::str_eq(config.storage_mode.as_str(), "Persistent");
        Ok(
            DatabaseInfo {
                name: config.name,
                node_count: 0,
                edge_count: 0,
                persistent,
                database_type: config.database_type,
                storage_mode: config.storage_mode,
                memory_limit_bytes: config.memory_limit_bytes,
                backward_edges: config.backward_edges,
                threads: config.threads,
            },
        )
    }

    /// Delete a database: the default database cannot be deleted.
    pub fn delete_database(&self, name: &str) -> (r: Result<String, GqlError>)
        ensures
            name@ == "default"@ ==> (r matches Err(e) && (e matches GqlError::Session(m) && m@
                == "cannot delete the default database"@)),
            name@ != "default"@ ==> (r matches Ok(deleted) && deleted@ == name@),
    {
        if crate::util::str_eq(name, "default") {
            return Err(GqlError::Session("cannot delete the default database".to_owned()));
        }
        Ok(name.to_owned())
    }

    /// Get info for a canned database; an unknown name is not found.
    pub fn get_database_info(&self, name: &str) -> (r: Result<DatabaseInfo, GqlError>)
        ensures
            name@ == "default"@ ==> (r matches Ok(info) && info.name@ == "default"@
                && info.node_count == 100 && info.edge_count == 50),
            name@ == "test"@ ==> (r matches Ok(info) && info.name@ == "test"@ && info.node_count
                == 10 && info.edge_count == 5),
            name@ != "default"@ && name@ != "test"@ ==> (r matches Err(e) && (
            e matches GqlError::Session(m) && m@ == "database '"@ + name@ + "' not found"@)),
    {
        proof {
            reveal_strlit("default");
            reveal_strlit("test");
        }
        if crate::util::str_eq(name, "default") {
            Ok(
                DatabaseInfo {
                    name: "default".to_owned(),
                    node_count: 100,
                    edge_count: 50,
                    persistent: false,
                    database_type: "Lpg".to_owned(),
                    storage_mode: "InMemory".to_owned(),
                    memory_limit_bytes: None,
                    backward_edges: Some(false),
                    threads: None,
                },
            )
        } else if crate::util::str_eq(name, "test") {
            Ok(
                DatabaseInfo {
                    name: "test".to_owned(),
                    node_count: 10,
                    edge_count: 5,
                    persistent: false,
                    database_type: "Lpg".to_owned(),
                    storage_mode: "InMemory".to_owned(),
                    memory_limit_bytes: None,
                    backward_edges: None,
                    threads: None,
                },
            )
        } else {
            let mut m = "database '".to_owned();
            m.append(name);
            m.append("' not found");
            Err(GqlError::Session(m))
        }
    }
}

} // verus!
