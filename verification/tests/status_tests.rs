use gwp::status::{
    class, error, error_with_diagnostic, is_exception, is_informational, is_no_data, is_success,
    is_warning, no_data, omitted, success, GRAPH_TYPE_VIOLATION, INVALID_SYNTAX,
    NUMERIC_OUT_OF_RANGE, WARNING,
};

#[test]
fn success_status() {
    let s = success();
    assert_eq!(s.code, "00000");
    assert!(is_success(&s.code));
    assert!(!is_exception(&s.code));
}

#[test]
fn omitted_status() {
    let s = omitted();
    assert_eq!(s.code, "00001");
    assert!(is_success(&s.code));
}

#[test]
fn no_data_status() {
    let s = no_data();
    assert_eq!(s.code, "02000");
    assert!(is_no_data(&s.code));
    assert!(!is_success(&s.code));
    assert!(!is_exception(&s.code));
}

#[test]
fn error_status() {
    let s = error(INVALID_SYNTAX, "unexpected token");
    assert_eq!(s.code, "42001");
    assert!(is_exception(&s.code));
    assert!(!is_success(&s.code));
}

#[test]
fn error_with_diagnostic_status() {
    let s = error_with_diagnostic(
        NUMERIC_OUT_OF_RANGE,
        "value 999 exceeds INT8 range",
        "MATCH STATEMENT",
        600,
    );
    assert_eq!(s.code, "22003");
    assert!(is_exception(&s.code));
    let d = s.diagnostic.unwrap();
    assert_eq!(d.operation, "MATCH STATEMENT");
    assert_eq!(d.operation_code, 600);
}

#[test]
fn warning_classification() {
    assert!(is_warning(WARNING));
    assert!(!is_exception(WARNING));
    assert!(!is_success(WARNING));
}

#[test]
fn graph_type_violation_is_exception() {
    assert!(is_exception(GRAPH_TYPE_VIOLATION));
}

#[test]
fn class_extraction() {
    assert_eq!(class("00000"), "00");
    assert_eq!(class("42001"), "42");
    assert_eq!(class("G2000"), "G2");
}

#[test]
fn exactly_one_classifier_per_code() {
    let codes = [
        "00000", "00001", "01000", "01G11", "02000", "03000", "22000", "25000", "25G01", "2D000",
        "40000", "42001", "G2000",
    ];
    for code in codes {
        let mut count = 0;
        if is_success(code) {
            count += 1;
        }
        if is_warning(code) {
            count += 1;
        }
        if is_no_data(code) {
            count += 1;
        }
        if is_informational(code) {
            count += 1;
        }
        if is_exception(code) {
            count += 1;
        }
        assert_eq!(count, 1);
    }
}
