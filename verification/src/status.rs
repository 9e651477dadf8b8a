//! GQLSTATUS code constants and helpers (ISO/IEC 39075 Chapter 23).
//!
//! Every GQL operation produces a GQLSTATUS code: a five-character string
//! classified by its first two characters. This module provides well-known
//! code constants, constructors for status values, and verified
//! classification helpers.

use vstd::prelude::*;

verus! {

// ============================================================================
// Success codes (class 00)
// ============================================================================

/// Successful completion.
pub const SUCCESS: &'static str = "00000";

/// Successful completion with omitted result (DDL, session commands).
pub const OMITTED_RESULT: &'static str = "00001";

// ============================================================================
// Warning codes (class 01)
// ============================================================================

/// Warning (no subclass).
pub const WARNING: &'static str = "01000";

/// String data, right truncation.
pub const WARNING_STRING_TRUNCATION: &'static str = "01004";

/// Null value eliminated in set function.
pub const WARNING_NULL_ELIMINATED: &'static str = "01G11";

// ============================================================================
// No data (class 02)
// ============================================================================

/// No data - query matched nothing.
pub const NO_DATA: &'static str = "02000";

// ============================================================================
// Data exceptions (class 22)
// ============================================================================

/// Data exception (no subclass).
pub const DATA_EXCEPTION: &'static str = "22000";

/// String data, right truncation.
pub const STRING_TRUNCATION: &'static str = "22001";

/// Numeric value out of range.
pub const NUMERIC_OUT_OF_RANGE: &'static str = "22003";

/// Null value not allowed.
pub const NULL_NOT_ALLOWED: &'static str = "22004";

/// Invalid datetime format.
pub const INVALID_DATETIME_FORMAT: &'static str = "22007";

/// Datetime field overflow.
pub const DATETIME_OVERFLOW: &'static str = "22008";

/// Division by zero.
pub const DIVISION_BY_ZERO: &'static str = "22012";

/// Invalid value type.
pub const INVALID_VALUE_TYPE: &'static str = "22G03";

/// Values not comparable.
pub const NOT_COMPARABLE: &'static str = "22G04";

/// Record fields do not match.
pub const RECORD_MISMATCH: &'static str = "22G0U";

/// Malformed path.
pub const MALFORMED_PATH: &'static str = "22G0Z";

// ============================================================================
// Transaction state (class 25)
// ============================================================================

/// Invalid transaction state (no subclass).
pub const INVALID_TRANSACTION_STATE: &'static str = "25000";

/// Active GQL-transaction already exists.
pub const ACTIVE_TRANSACTION: &'static str = "25G01";

/// Read-only GQL-transaction.
pub const READ_ONLY_TRANSACTION: &'static str = "25G03";

// ============================================================================
// Transaction termination (class 2D)
// ============================================================================

/// Invalid transaction termination.
pub const INVALID_TRANSACTION_TERMINATION: &'static str = "2D000";

// ============================================================================
// Transaction rollback (class 40)
// ============================================================================

/// Transaction rollback.
pub const TRANSACTION_ROLLBACK: &'static str = "40000";

/// Statement completion unknown.
pub const COMPLETION_UNKNOWN: &'static str = "40003";

// ============================================================================
// Syntax / access (class 42)
// ============================================================================

/// Syntax error or access rule violation (no subclass).
pub const SYNTAX_OR_ACCESS_ERROR: &'static str = "42000";

/// Invalid syntax.
pub const INVALID_SYNTAX: &'static str = "42001";

/// Invalid reference.
pub const INVALID_REFERENCE: &'static str = "42002";

// ============================================================================
// Graph type violation (class G2)
// ============================================================================

/// Graph type violation.
pub const GRAPH_TYPE_VIOLATION: &'static str = "G2000";

// ============================================================================
// Status values
// ============================================================================

/// Diagnostic context attached to a status: the operation that produced it.
#[derive(Debug, PartialEq)]
pub struct DiagnosticRecord {
    /// Operation name (e.g. a statement kind).
    pub operation: String,
    /// Numeric operation code.
    pub operation_code: i32,
    /// Schema that was current when the status arose.
    pub current_schema: String,
}

/// A GQLSTATUS value: a five-character code, a human message, optional
/// diagnostic context and an optional nested cause.
#[derive(Debug, PartialEq)]
pub struct GqlStatus {
    /// The GQLSTATUS code.
    pub code: String,
    /// Human-readable message.
    pub message: String,
    /// Optional diagnostic context.
    pub diagnostic: Option<DiagnosticRecord>,
    /// Optional nested cause.
    pub cause: Option<Box<GqlStatus>>,
}

// ============================================================================
// Constructors
// ============================================================================

/// Create a successful `GqlStatus`.
pub fn success() -> (r: GqlStatus)
    ensures
        r.code@ == "00000"@,
        r.message@ == "successful completion"@,
        r.diagnostic is None,
        r.cause is None,
{
    GqlStatus {
        code: "00000".to_owned(),
        message: "successful completion".to_owned(),
        diagnostic: None,
        cause: None,
    }
}

/// Create a successful `GqlStatus` with omitted result.
pub fn omitted() -> (r: GqlStatus)
    ensures
        r.code@ == "00001"@,
        r.message@ == "successful completion - omitted result"@,
        r.diagnostic is None,
        r.cause is None,
{
    GqlStatus {
        code: "00001".to_owned(),
        message: "successful completion - omitted result".to_owned(),
        diagnostic: None,
        cause: None,
    }
}

/// Create a no-data `GqlStatus`.
pub fn no_data() -> (r: GqlStatus)
    ensures
        r.code@ == "02000"@,
        r.message@ == "no data"@,
        r.diagnostic is None,
        r.cause is None,
{
    GqlStatus {
        code: "02000".to_owned(),
        message: "no data".to_owned(),
        diagnostic: None,
        cause: None,
    }
}

/// Create an error `GqlStatus` with the given code and message.
pub fn error(code: &str, message: &str) -> (r: GqlStatus)
    ensures
        r.code@ == code@,
        r.message@ == message@,
        r.diagnostic is None,
        r.cause is None,
{
    GqlStatus {
        code: code.to_owned(),
        message: message.to_owned(),
        diagnostic: None,
        cause: None,
    }
}

/// Create an error `GqlStatus` that carries an owned message.
pub fn error_message(code: &str, message: String) -> (r: GqlStatus)
    ensures
        r.code@ == code@,
        r.message == message,
        r.diagnostic is None,
        r.cause is None,
{
    GqlStatus {
        code: code.to_owned(),
        message,
        diagnostic: None,
        cause: None,
    }
}

/// Create an error `GqlStatus` with diagnostic context.
pub fn error_with_diagnostic(code: &str, message: &str, operation: &str, operation_code: i32) -> (r:
    GqlStatus)
    ensures
        r.code@ == code@,
        r.message@ == message@,
        r.diagnostic matches Some(d) && d.operation@ == operation@ && d.operation_code
            == operation_code && d.current_schema@ == Seq::<char>::empty(),
        r.cause is None,
{
    GqlStatus {
        code: code.to_owned(),
        message: message.to_owned(),
        diagnostic: Some(
            DiagnosticRecord {
                operation: operation.to_owned(),
                operation_code,
                current_schema: String::new(),
            },
        ),
        cause: None,
    }
}

// ============================================================================
// Classification
// ============================================================================

/// The class of a code: its first two characters, or the whole code when it
/// is shorter than two characters.
pub open spec fn spec_class(code: Seq<char>) -> Seq<char> {
    if code.len() >= 2 {
        code.subrange(0, 2)
    } else {
        code
    }
}

/// Whether a character is an ASCII letter.
pub open spec fn spec_is_ascii_alphabetic(c: char) -> bool {
    ('A' as u32) <= (c as u32) <= ('Z' as u32) || ('a' as u32) <= (c as u32) <= ('z' as u32)
}

/// Whether a character is an ASCII digit.
pub open spec fn spec_is_ascii_digit(c: char) -> bool {
    ('0' as u32) <= (c as u32) <= ('9' as u32)
}

/// Successful completion: class `00`.
pub open spec fn spec_is_success(code: Seq<char>) -> bool {
    code.len() >= 2 && (code[0] as u32) == ('0' as u32) && (code[1] as u32) == ('0' as u32)
}

/// Warning: class `01`.
pub open spec fn spec_is_warning(code: Seq<char>) -> bool {
    code.len() >= 2 && (code[0] as u32) == ('0' as u32) && (code[1] as u32) == ('1' as u32)
}

/// No data: class `02`.
pub open spec fn spec_is_no_data(code: Seq<char>) -> bool {
    code.len() >= 2 && (code[0] as u32) == ('0' as u32) && (code[1] as u32) == ('2' as u32)
}

/// Informational: class `03`.
pub open spec fn spec_is_informational(code: Seq<char>) -> bool {
    code.len() >= 2 && (code[0] as u32) == ('0' as u32) && (code[1] as u32) == ('3' as u32)
}

/// Exception: a class starting with an ASCII letter, or a class at or above
/// `08` in character order.
pub open spec fn spec_is_exception(code: Seq<char>) -> bool {
    code.len() >= 2 && (spec_is_ascii_alphabetic(code[0]) || (code[0] as u32) > ('0' as u32) || ((
    code[0] as u32) == ('0' as u32) && (code[1] as u32) >= ('8' as u32)))
}

/// Returns the class (first 2 characters) of a GQLSTATUS code.
pub fn class(code: &str) -> (r: &str)
    ensures
        r@ == spec_class(code@),
{
    let n = code.unicode_len();
    if n >= 2 {
        code.substring_char(0, 2)
    } else {
        code
    }
}

/// Returns true if the code represents a successful completion (class 00).
pub fn is_success(code: &str) -> (r: bool)
    ensures
        r == spec_is_success(code@),
{
    let n = code.unicode_len();
    n >= 2 && code.get_char(0) == '0' && code.get_char(1) == '0'
}

/// Returns true if the code represents a warning (class 01).
pub fn is_warning(code: &str) -> (r: bool)
    ensures
        r == spec_is_warning(code@),
{
    let n = code.unicode_len();
    n >= 2 && code.get_char(0) == '0' && code.get_char(1) == '1'
}

/// Returns true if the code represents no data (class 02).
pub fn is_no_data(code: &str) -> (r: bool)
    ensures
        r == spec_is_no_data(code@),
{
    let n = code.unicode_len();
    n >= 2 && code.get_char(0) == '0' && code.get_char(1) == '2'
}

/// Returns true if the code represents an informational status (class 03).
pub fn is_informational(code: &str) -> (r: bool)
    ensures
        r == spec_is_informational(code@),
{
    let n = code.unicode_len();
    n >= 2 && code.get_char(0) == '0' && code.get_char(1) == '3'
}

/// Returns true if the code represents an exception (letter-led class, or a
/// numeric class at or above 08).
pub fn is_exception(code: &str) -> (r: bool)
    ensures
        r == spec_is_exception(code@),
{
    let n = code.unicode_len();
    if n < 2 {
        return false;
    }
    let c0 = code.get_char(0);
    let c1 = code.get_char(1);
    let c0v = c0 as u32;
    let c1v = c1 as u32;
    if (('A' as u32) <= c0v && c0v <= ('Z' as u32)) || (('a' as u32) <= c0v && c0v <= ('z'
        as u32)) {
        return true;
    }
    c0v > ('0' as u32) || (c0v == ('0' as u32) && c1v >= ('8' as u32))
}

/// Every GQLSTATUS code carries exactly one classification.
///
/// For a code whose class is a letter-led or a two-digit class outside the
/// unassigned `04`-`07` band, exactly one of the five classifiers
/// (success, warning, no-data, informational, exception) holds.
pub proof fn lemma_classification_exclusive(code: Seq<char>)
    requires
        code.len() >= 2,
        spec_is_ascii_alphabetic(code[0]) || (spec_is_ascii_digit(code[0]) && spec_is_ascii_digit(
            code[1],
        )),
        !((code[0] as u32) == ('0' as u32) && ('4' as u32) <= (code[1] as u32) <= ('7' as u32)),
    ensures
        spec_is_success(code) || spec_is_warning(code) || spec_is_no_data(code)
            || spec_is_informational(code) || spec_is_exception(code),
        spec_is_success(code) ==> !spec_is_warning(code) && !spec_is_no_data(code)
            && !spec_is_informational(code) && !spec_is_exception(code),
        spec_is_warning(code) ==> !spec_is_no_data(code) && !spec_is_informational(code)
            && !spec_is_exception(code),
        spec_is_no_data(code) ==> !spec_is_informational(code) && !spec_is_exception(code),
        spec_is_informational(code) ==> !spec_is_exception(code),
{
    let c0 = code[0];
    let c1 = code[1];
    if spec_is_ascii_alphabetic(c0) {
        assert(spec_is_exception(code));
    } else {
        assert(spec_is_ascii_digit(c0) && spec_is_ascii_digit(c1));
        if (c0 as u32) > ('0' as u32) {
            assert(spec_is_exception(code));
        } else {
            if (c1 as u32) >= ('8' as u32) {
                assert(spec_is_exception(code));
            } else {
                assert((c1 as u32) <= ('3' as u32));
                if (c1 as u32) == ('0' as u32) {
                    assert(spec_is_success(code));
                } else if (c1 as u32) == ('1' as u32) {
                    assert(spec_is_warning(code));
                } else if (c1 as u32) == ('2' as u32) {
                    assert(spec_is_no_data(code));
                } else {
                    assert(spec_is_informational(code));
                }
            }
        }
    }
}

} // verus!
