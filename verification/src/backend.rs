//! Data types of the pluggable backend capability: the contract a storage
//! engine must satisfy.
//!
//! The backend itself performs I/O and lives outside this crate; these are
//! the plain values that cross that boundary, together with the frame type
//! of the execute stream.

use vstd::prelude::*;

use crate::status::GqlStatus;
use crate::value::Value;
use crate::wire::WireValue;

verus! {

/// Opaque session identifier issued at handshake.
#[derive(Debug, PartialEq)]
pub struct SessionHandle(pub String);

/// Opaque transaction identifier issued at begin.
#[derive(Debug, PartialEq)]
pub struct TransactionHandle(pub String);

/// Configuration for a new session, derived from the handshake request.
#[derive(Debug, PartialEq)]
pub struct SessionConfig {
    /// Protocol version requested by the client.
    pub protocol_version: u32,
    /// Client metadata (driver name, version, platform).
    pub client_info: Vec<(String, String)>,
}

/// A session property to configure.
#[derive(Debug, PartialEq)]
pub enum SessionProperty {
    /// Set the current schema.
    Schema(String),
    /// Set the current graph.
    Graph(String),
    /// Set the session timezone (UTC offset in minutes).
    TimeZone(i32),
    /// Set a named session parameter.
    Parameter {
        /// Parameter name.
        name: String,
        /// Parameter value.
        value: Value,
    },
}

/// What to reset on a session.
#[derive(Debug, Clone, Copy, PartialEq, Eq, Structural)]
pub enum ResetTarget {
    /// Reset all session state to defaults.
    All,
    /// Reset current schema.
    Schema,
    /// Reset current graph.
    Graph,
    /// Reset timezone.
    TimeZone,
    /// Reset all parameters.
    Parameters,
}

/// Transaction access mode.
#[derive(Debug, Clone, Copy, PartialEq, Eq, Structural)]
pub enum TransactionMode {
    /// Reads and writes allowed.
    ReadWrite,
    /// Reads only.
    ReadOnly,
}

impl TransactionMode {
    /// The wire code of this mode.
    pub fn wire_code(self) -> (r: i32)
        ensures
            self is ReadWrite ==> r == 0,
            self is ReadOnly ==> r == 1,
    {
        match self {
            TransactionMode::ReadWrite => 0,
            TransactionMode::ReadOnly => 1,
        }
    }

    /// The mode a wire code denotes; an unknown code falls back to
    /// read-write.
    pub fn from_wire_code(code: i32) -> (r: TransactionMode)
        ensures
            code == 1 ==> r is ReadOnly,
            code != 1 ==> r is ReadWrite,
    {
        if code == 1 {
            TransactionMode::ReadOnly
        } else {
            TransactionMode::ReadWrite
        }
    }
}

/// Result type of an execute stream header.
#[derive(Debug, Clone, Copy, PartialEq, Eq, Structural)]
pub enum ResultType {
    /// A binding table with columns and rows.
    BindingTable,
    /// No result (DDL, session commands).
    Omitted,
}

/// The GQL type of a column.
#[derive(Debug, Clone, Copy, PartialEq, Eq, Structural)]
pub enum GqlType {
    /// Unspecified type.
    TypeUnspecified,
    /// Boolean.
    TypeBool,
    /// 64-bit signed integer.
    TypeInt64,
    /// 64-bit unsigned integer.
    TypeUint64,
    /// 64-bit float.
    TypeFloat64,
    /// String.
    TypeString,
    /// Byte string.
    TypeBytes,
    /// Calendar date.
    TypeDate,
    /// Datetime.
    TypeDatetime,
    /// Duration.
    TypeDuration,
    /// List.
    TypeList,
    /// Record.
    TypeRecord,
    /// Node.
    TypeNode,
    /// Edge.
    TypeEdge,
    /// Path.
    TypePath,
}

/// Descriptor of a column's type.
#[derive(Debug, Clone, Copy, PartialEq, Eq, Structural)]
pub struct TypeDescriptor {
    /// The GQL type.
    pub gql_type: GqlType,
    /// Whether NULL may appear.
    pub nullable: bool,
}

/// Descriptor of one column of a binding table.
#[derive(Debug, PartialEq)]
pub struct ColumnDescriptor {
    /// Column name.
    pub name: String,
    /// Column type, if declared.
    pub type_desc: Option<TypeDescriptor>,
}

/// Column metadata and result type. Always the first frame.
#[derive(Debug, PartialEq)]
pub struct ResultHeader {
    /// The kind of result that follows.
    pub result_type: ResultType,
    /// Column descriptors, in order.
    pub columns: Vec<ColumnDescriptor>,
}

/// One row of a binding table, in wire form.
#[derive(Debug, PartialEq)]
pub struct Row {
    /// The values, one per column.
    pub values: Vec<WireValue>,
}

/// A batch of rows.
#[derive(Debug, PartialEq)]
pub struct RowBatch {
    /// The rows, in order.
    pub rows: Vec<Row>,
}

/// Completion status and statistics. Always the last frame.
#[derive(Debug, PartialEq)]
pub struct ResultSummary {
    /// Terminal GQLSTATUS.
    pub status: Option<GqlStatus>,
    /// Warnings raised during execution.
    pub warnings: Vec<GqlStatus>,
    /// Number of rows affected (DML).
    pub rows_affected: i64,
    /// Named counters.
    pub counters: Vec<(String, i64)>,
}

/// A single frame in the result stream from executing a GQL statement.
#[derive(Debug, PartialEq)]
pub enum ResultFrame {
    /// Column metadata and result type. Always the first frame.
    Header(ResultHeader),
    /// A batch of rows.
    Batch(RowBatch),
    /// Completion status and statistics. Always the last frame.
    Summary(ResultSummary),
}

/// Configuration for creating a new database.
#[derive(Debug, PartialEq)]
pub struct CreateDatabaseConfig {
    /// Database name.
    pub name: String,
    /// Database type (e.g. "Lpg", "Rdf").
    pub database_type: String,
    /// Storage mode (e.g. `InMemory`, `Persistent`).
    pub storage_mode: String,
    /// Optional memory limit in bytes.
    pub memory_limit_bytes: Option<u64>,
    /// Whether to maintain backward edges.
    pub backward_edges: Option<bool>,
    /// Number of worker threads.
    pub threads: Option<u32>,
    /// Whether write-ahead logging is enabled.
    pub wal_enabled: Option<bool>,
    /// WAL durability mode.
    pub wal_durability: Option<String>,
}

/// Summary information about a database.
#[derive(Debug, PartialEq)]
pub struct DatabaseInfo {
    /// Database name.
    pub name: String,
    /// Number of nodes in the database.
    pub node_count: u64,
    /// Number of edges in the database.
    pub edge_count: u64,
    /// Whether the database is persistent.
    pub persistent: bool,
    /// Database type (e.g. "Lpg", "Rdf").
    pub database_type: String,
    /// Storage mode (e.g. `InMemory`, `Persistent`).
    pub storage_mode: String,
    /// Memory limit in bytes, if configured.
    pub memory_limit_bytes: Option<u64>,
    /// Whether backward edges are maintained.
    pub backward_edges: Option<bool>,
    /// Number of worker threads.
    pub threads: Option<u32>,
}

/// Detailed database statistics.
#[derive(Debug, PartialEq)]
pub struct AdminStats {
    /// Number of nodes.
    pub node_count: u64,
    /// Number of edges.
    pub edge_count: u64,
    /// Number of distinct labels.
    pub label_count: u64,
    /// Number of distinct edge types.
    pub edge_type_count: u64,
    /// Number of distinct property keys.
    pub property_key_count: u64,
    /// Number of indexes.
    pub index_count: u64,
    /// Memory usage in bytes.
    pub memory_bytes: u64,
    /// Disk usage in bytes (if persistent).
    pub disk_bytes: Option<u64>,
}

/// WAL status information.
#[derive(Debug, PartialEq)]
pub struct AdminWalStatus {
    /// Whether WAL is enabled.
    pub enabled: bool,
    /// WAL file path.
    pub path: Option<String>,
    /// WAL size in bytes.
    pub size_bytes: u64,
    /// Number of WAL records.
    pub record_count: u64,
    /// Last checkpoint timestamp.
    pub last_checkpoint: Option<u64>,
    /// Current epoch.
    pub current_epoch: u64,
}

/// A single validation diagnostic (error or warning).
#[derive(Debug, PartialEq)]
pub struct ValidationDiagnostic {
    /// Diagnostic code.
    pub code: String,
    /// Human-readable message.
    pub message: String,
    /// Optional context (e.g. the affected element or property).
    pub context: Option<String>,
}

/// Validation result.
#[derive(Debug, PartialEq)]
pub struct AdminValidationResult {
    /// Whether validation passed (no errors).
    pub valid: bool,
    /// Validation errors.
    pub errors: Vec<ValidationDiagnostic>,
    /// Validation warnings.
    pub warnings: Vec<ValidationDiagnostic>,
}

/// Index definition for create/drop operations.
#[derive(Debug, PartialEq)]
pub enum IndexDefinition {
    /// Property hash index.
    Property {
        /// Property name.
        property: String,
    },
    /// Vector similarity index (HNSW).
    Vector {
        /// Node label.
        label: String,
        /// Property name.
        property: String,
        /// Expected dimensions.
        dimensions: Option<u32>,
        /// Distance metric.
        metric: Option<String>,
        /// HNSW links per node.
        m: Option<u32>,
        /// Construction beam width.
        ef_construction: Option<u32>,
    },
    /// Full-text index (BM25).
    Text {
        /// Node label.
        label: String,
        /// Property name.
        property: String,
    },
}

/// Vector search parameters; the query vector carries IEEE-754 bit
/// patterns of 32-bit values.
#[derive(Debug, PartialEq)]
pub struct VectorSearchParams {
    /// Database name.
    pub database: String,
    /// Node label.
    pub label: String,
    /// Property name.
    pub property: String,
    /// Query vector, as 32-bit float bit patterns.
    pub query_vector_bits: Vec<u32>,
    /// Number of results.
    pub k: u32,
    /// Search beam width.
    pub ef: Option<u32>,
    /// Property filters.
    pub filters: Vec<(String, Value)>,
}

/// Hybrid search parameters; the query vector carries IEEE-754 bit
/// patterns of 32-bit values.
#[derive(Debug, PartialEq)]
pub struct HybridSearchParams {
    /// Database name.
    pub database: String,
    /// Node label.
    pub label: String,
    /// Text property name.
    pub text_property: String,
    /// Vector property name.
    pub vector_property: String,
    /// Text query.
    pub query_text: String,
    /// Optional query vector, as 32-bit float bit patterns.
    pub query_vector_bits: Vec<u32>,
    /// Number of results.
    pub k: u32,
}

/// Text search parameters.
#[derive(Debug, PartialEq)]
pub struct TextSearchParams {
    /// Database name.
    pub database: String,
    /// Node label.
    pub label: String,
    /// Property name.
    pub property: String,
    /// Search query text.
    pub query: String,
    /// Number of results.
    pub k: u32,
}

/// A single search result hit.
///
/// Search results use a numeric `node_id` (uint64) rather than the opaque
/// `bytes` element ID from the GQL type system; the relevance score is
/// carried as the IEEE-754 bit pattern of the 64-bit value.
#[derive(Debug, PartialEq)]
pub struct SearchHit {
    /// Internal numeric node identifier (not the opaque GQL element ID).
    pub node_id: u64,
    /// Relevance score (distance for vector, BM25 for text), as the
    /// IEEE-754 bit pattern of the 64-bit value.
    pub score_bits: u64,
    /// Node properties.
    pub properties: Vec<(String, Value)>,
}

} // verus!
