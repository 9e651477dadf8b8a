use gwp::mock_backend::{classify_statement, StatementClass};
use gwp::util::{contains_str, i64_to_string, str_eq, u64_to_string};

fn default_config() -> gwp::backend::SessionConfig {
    gwp::backend::SessionConfig {
        protocol_version: 1,
        client_info: Vec::new(),
    }
}

#[test]
fn string_equality_by_characters() {
    assert!(str_eq("", ""));
    assert!(str_eq("abc", "abc"));
    assert!(!str_eq("abc", "abd"));
    assert!(!str_eq("abc", "ab"));
}

#[test]
fn substring_search() {
    assert!(contains_str("session s7 not found", "not found"));
    assert!(contains_str("abc", ""));
    assert!(contains_str("abc", "abc"));
    assert!(!contains_str("abc", "abcd"));
    assert!(!contains_str("already", "not found"));
    assert!(contains_str("xxyyzz", "yyz"));
}

#[test]
fn decimal_rendering() {
    assert_eq!(u64_to_string(0), "0");
    assert_eq!(u64_to_string(7), "7");
    assert_eq!(u64_to_string(1234567890), "1234567890");
    assert_eq!(u64_to_string(u64::MAX), "18446744073709551615");
    assert_eq!(i64_to_string(-42), "-42");
    assert_eq!(i64_to_string(0), "0");
    assert_eq!(i64_to_string(i64::MIN), "-9223372036854775808");
}

#[test]
fn statement_classification() {
    assert_eq!(classify_statement("MATCH (n) RETURN n"), StatementClass::Query);
    assert_eq!(classify_statement("  match (n) return n"), StatementClass::Query);
    assert_eq!(classify_statement("RETURN 1"), StatementClass::Query);
    assert_eq!(classify_statement("INSERT (:A)"), StatementClass::Dml);
    assert_eq!(classify_statement("delete n"), StatementClass::Dml);
    assert_eq!(classify_statement("SET n.x = 1"), StatementClass::Dml);
    assert_eq!(classify_statement("CREATE GRAPH g"), StatementClass::Ddl);
    assert_eq!(classify_statement("DROP GRAPH g"), StatementClass::Ddl);
    assert_eq!(classify_statement("ERROR anything"), StatementClass::Fault);
    assert_eq!(classify_statement("SHOW something"), StatementClass::Other);
}

#[test]
fn hex_encoding() {
    assert_eq!(gwp::display::hex_encode(&vec![]), "");
    assert_eq!(gwp::display::hex_encode(&vec![0xDE, 0xAD, 0x01]), "dead01");
}

#[test]
fn mock_handles_are_numbered() {
    let mut backend = gwp::mock_backend::MockBackend::new();
    assert_eq!(backend.create_session(&default_config()).unwrap().0, "mock-session-1");
    assert_eq!(backend.create_session(&default_config()).unwrap().0, "mock-session-2");
    assert_eq!(backend.begin_transaction().unwrap().0, "mock-tx-1");
}
