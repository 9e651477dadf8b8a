//! The wire messages of the RPC surface: requests and responses of the
//! session service, the GQL service and the database service.

use vstd::prelude::*;

use crate::backend::ResultFrame;
use crate::status::GqlStatus;
use crate::wire::WireValue;

verus! {

/// Opaque client credentials, validated by the configured auth hook.
#[derive(Debug, PartialEq)]
pub struct AuthCredentials {
    /// The credential material; opaque to the runtime.
    pub token: String,
}

/// Handshake request: opens a session.
#[derive(Debug, PartialEq)]
pub struct HandshakeRequest {
    /// Protocol version the client speaks.
    pub protocol_version: u32,
    /// Credentials, when the server requires them.
    pub credentials: Option<AuthCredentials>,
    /// Client metadata (driver name, version, platform).
    pub client_info: Vec<(String, String)>,
}

/// Server identity returned by the handshake.
#[derive(Debug, PartialEq)]
pub struct ServerInfo {
    /// Server name.
    pub name: String,
    /// Server version.
    pub version: String,
    /// Feature tags.
    pub features: Vec<String>,
}

/// Handshake response: the session was opened.
#[derive(Debug, PartialEq)]
pub struct HandshakeResponse {
    /// Protocol version the server speaks.
    pub protocol_version: u32,
    /// The server-assigned session identifier.
    pub session_id: String,
    /// Server identity.
    pub server_info: Option<ServerInfo>,
    /// Named limits the server enforces.
    pub limits: Vec<(String, u64)>,
}

/// The property a configure request sets; exactly one is given.
#[derive(Debug, PartialEq)]
pub enum ConfigureProperty {
    /// Set the current schema.
    Schema(String),
    /// Set the current graph.
    Graph(String),
    /// Set the session timezone (UTC offset in minutes).
    TimeZoneOffsetMinutes(i32),
    /// Set a named session parameter.
    Parameter {
        /// Parameter name.
        name: String,
        /// Parameter value; absent denotes NULL.
        value: Option<WireValue>,
    },
}

/// Configure request: sets one session property.
#[derive(Debug, PartialEq)]
pub struct ConfigureRequest {
    /// The session to configure.
    pub session_id: String,
    /// The property to set; a missing property is rejected.
    pub property: Option<ConfigureProperty>,
}

/// Reset request: restores session state to defaults.
#[derive(Debug, PartialEq)]
pub struct ResetRequest {
    /// The session to reset.
    pub session_id: String,
    /// Wire code of the reset target.
    pub target: i32,
}

/// Ping request.
#[derive(Debug, PartialEq)]
pub struct PingRequest {
    /// The session to ping.
    pub session_id: String,
}

/// Pong response.
#[derive(Debug, PartialEq)]
pub struct PongResponse {
    /// Server wall-clock milliseconds.
    pub timestamp: i64,
}

/// Close request: ends a session.
#[derive(Debug, PartialEq)]
pub struct CloseRequest {
    /// The session to close.
    pub session_id: String,
}

/// Execute request: runs one GQL statement.
#[derive(Debug, PartialEq)]
pub struct ExecuteRequest {
    /// The session to run under.
    pub session_id: String,
    /// The GQL statement text.
    pub statement: String,
    /// Statement parameters, in wire form.
    pub parameters: Vec<(String, WireValue)>,
    /// The explicit transaction to run under, if any.
    pub transaction_id: Option<String>,
}

/// One message of the execute response stream: a single frame.
#[derive(Debug, PartialEq)]
pub struct ExecuteResponse {
    /// The frame this message carries.
    pub frame: Option<ResultFrame>,
}

/// Begin request: opens an explicit transaction.
#[derive(Debug, PartialEq)]
pub struct BeginRequest {
    /// The owning session.
    pub session_id: String,
    /// Wire code of the transaction mode.
    pub mode: i32,
}

/// Begin response.
#[derive(Debug, PartialEq)]
pub struct BeginResponse {
    /// The server-assigned transaction id; empty when the begin failed.
    pub transaction_id: String,
    /// The GQLSTATUS of the operation.
    pub status: Option<GqlStatus>,
}

/// Commit request.
#[derive(Debug, PartialEq)]
pub struct CommitRequest {
    /// The owning session.
    pub session_id: String,
    /// The transaction to commit.
    pub transaction_id: String,
}

/// Commit response.
#[derive(Debug, PartialEq)]
pub struct CommitResponse {
    /// The GQLSTATUS of the operation.
    pub status: Option<GqlStatus>,
}

/// Rollback request.
#[derive(Debug, PartialEq)]
pub struct RollbackRequest {
    /// The owning session.
    pub session_id: String,
    /// The transaction to roll back.
    pub transaction_id: String,
}

/// Rollback response.
#[derive(Debug, PartialEq)]
pub struct RollbackResponse {
    /// The GQLSTATUS of the operation.
    pub status: Option<GqlStatus>,
}

/// Summary of one database, as the list and create responses carry it.
#[derive(Debug, PartialEq)]
pub struct DatabaseSummary {
    /// Database name.
    pub name: String,
    /// Number of nodes.
    pub node_count: u64,
    /// Number of edges.
    pub edge_count: u64,
    /// Whether the database is persistent.
    pub persistent: bool,
    /// Database type.
    pub database_type: String,
}

/// Database statistics response.
#[derive(Debug, PartialEq)]
pub struct GetDatabaseStatsResponse {
    /// Number of nodes.
    pub node_count: u64,
    /// Number of edges.
    pub edge_count: u64,
    /// Number of distinct labels.
    pub label_count: u64,
    /// Number of distinct edge types.
    pub edge_type_count: u64,
    /// Number of distinct property keys.
    pub property_key_count: u64,
    /// Number of indexes.
    pub index_count: u64,
    /// Memory usage in bytes.
    pub memory_bytes: u64,
    /// Disk usage in bytes, if persistent.
    pub disk_bytes: Option<u64>,
}

/// WAL status response.
#[derive(Debug, PartialEq)]
pub struct WalStatusResponse {
    /// Whether WAL is enabled.
    pub enabled: bool,
    /// WAL file path.
    pub path: Option<String>,
    /// WAL size in bytes.
    pub size_bytes: u64,
    /// Number of WAL records.
    pub record_count: u64,
    /// Last checkpoint timestamp.
    pub last_checkpoint: Option<u64>,
    /// Current epoch.
    pub current_epoch: u64,
}

/// Wire form of a property index specification.
#[derive(Debug, PartialEq)]
pub struct PropertyIndexSpec {
    /// Property name.
    pub property: String,
}

/// Wire form of a vector index specification.
#[derive(Debug, PartialEq)]
pub struct VectorIndexSpec {
    /// Node label.
    pub label: String,
    /// Property name.
    pub property: String,
    /// Expected dimensions.
    pub dimensions: Option<u32>,
    /// Distance metric.
    pub metric: Option<String>,
    /// HNSW links per node.
    pub m: Option<u32>,
    /// Construction beam width.
    pub ef_construction: Option<u32>,
}

/// Wire form of a text index specification.
#[derive(Debug, PartialEq)]
pub struct TextIndexSpec {
    /// Node label.
    pub label: String,
    /// Property name.
    pub property: String,
}

/// The index a create or drop request names; exactly one is given.
#[derive(Debug, PartialEq)]
pub enum IndexSpec {
    /// Property hash index.
    PropertyIndex(PropertyIndexSpec),
    /// Vector similarity index.
    VectorIndex(VectorIndexSpec),
    /// Full-text index.
    TextIndex(TextIndexSpec),
}

/// Create-index request.
#[derive(Debug, PartialEq)]
pub struct CreateIndexRequest {
    /// Database name.
    pub database: String,
    /// The index to create; a missing specification is rejected.
    pub index: Option<IndexSpec>,
}

/// Drop-index request.
#[derive(Debug, PartialEq)]
pub struct DropIndexRequest {
    /// Database name.
    pub database: String,
    /// The index to drop; a missing specification is rejected.
    pub index: Option<IndexSpec>,
}

/// Wire form of one validation diagnostic.
#[derive(Debug, PartialEq)]
pub struct WireValidationDiagnostic {
    /// Diagnostic code.
    pub code: String,
    /// Human-readable message.
    pub message: String,
    /// Optional context.
    pub context: Option<String>,
}

/// Vector search request; the query vector carries IEEE-754 bit patterns
/// of 32-bit values.
#[derive(Debug, PartialEq)]
pub struct VectorSearchRequest {
    /// Database name.
    pub database: String,
    /// Node label.
    pub label: String,
    /// Property name.
    pub property: String,
    /// Query vector, as 32-bit float bit patterns.
    pub query_vector_bits: Vec<u32>,
    /// Number of results.
    pub k: u32,
    /// Search beam width.
    pub ef: Option<u32>,
    /// Property filters.
    pub filters: Vec<(String, WireValue)>,
}

/// Text search request.
#[derive(Debug, PartialEq)]
pub struct TextSearchRequest {
    /// Database name.
    pub database: String,
    /// Node label.
    pub label: String,
    /// Property name.
    pub property: String,
    /// Search query text.
    pub query: String,
    /// Number of results.
    pub k: u32,
}

/// Hybrid search request; the query vector carries IEEE-754 bit patterns
/// of 32-bit values.
#[derive(Debug, PartialEq)]
pub struct HybridSearchRequest {
    /// Database name.
    pub database: String,
    /// Node label.
    pub label: String,
    /// Text property name.
    pub text_property: String,
    /// Vector property name.
    pub vector_property: String,
    /// Text query.
    pub query_text: String,
    /// Optional query vector, as 32-bit float bit patterns.
    pub query_vector_bits: Vec<u32>,
    /// Number of results.
    pub k: u32,
}

/// Wire form of one search hit; the score is the IEEE-754 bit pattern of
/// the 64-bit value.
#[derive(Debug, PartialEq)]
pub struct WireSearchHit {
    /// Internal numeric node identifier.
    pub node_id: u64,
    /// Relevance score, as the IEEE-754 bit pattern of the 64-bit value.
    pub score_bits: u64,
    /// Node properties.
    pub properties: Vec<(String, WireValue)>,
}

} // verus!
