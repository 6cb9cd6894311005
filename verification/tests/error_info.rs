use error_code::error_info::{ErrorInfo, ParseAppCode, ToErrorInfo};
use error_code::fingerprint::fingerprint;

#[derive(Debug, PartialEq, Eq)]
enum AppCode {
    DivisionByZero,
    NotFound,
}

impl ParseAppCode for AppCode {
    fn from_app_code_str(s: &str) -> Self {
        match s {
            "DivisionByZero" => AppCode::DivisionByZero,
            "NotFound" => AppCode::NotFound,
            _ => panic!("Can not parse app_code"),
        }
    }
}

#[derive(Debug, PartialEq, Eq)]
struct NumericCode(u32);

impl ParseAppCode for NumericCode {
    fn from_app_code_str(s: &str) -> Self {
        NumericCode(s.parse().expect("Can not parse app_code"))
    }
}

enum MyError {
    Division,
    Missing,
}

impl ToErrorInfo for MyError {
    type T = AppCode;

    fn to_error_into(&self) -> ErrorInfo<AppCode> {
        match self {
            MyError::Division => ErrorInfo::new(
                "DivisionByZero",
                "USR",
                "",
                String::from("division by zero"),
            ),
            MyError::Missing => ErrorInfo::new(
                "NotFound",
                "SYS",
                "not found",
                String::from("file not found"),
            ),
        }
    }
}

const B64_URL_ALPHABET: &str =
    "ABCDEFGHIJKLMNOPQRSTUVWXYZabcdefghijklmnopqrstuvwxyz0123456789-_";

#[test]
fn fingerprint_deterministic_across_calls() {
    let t1 = fingerprint("division by zero");
    let t2 = fingerprint("division by zero");
    assert_eq!(t1, t2);
    let t3 = fingerprint("");
    let t4 = fingerprint("");
    assert_eq!(t3, t4);
    assert_ne!(t1, t3);
}

#[test]
fn fingerprint_exact_values() {
    assert_eq!(fingerprint("division by zero"), "2l-la6dFSf8");
    assert_eq!(fingerprint(""), "y_Kc5IQiIyU");
    assert_eq!(fingerprint("file not found"), "j25QDNFVsmY");
}

#[test]
fn token_shape() {
    for msg in ["", "a", "division by zero", "multi\nline\tmessage", "\u{00e9}\u{4e16}\u{754c}"] {
        let tok = fingerprint(msg);
        assert_eq!(tok.len(), 11);
        assert!(!tok.contains('='));
        for c in tok.chars() {
            assert!(B64_URL_ALPHABET.contains(c), "unexpected character {c:?}");
        }
    }
}

#[test]
fn hash_independent_of_category_and_client() {
    let s = "same underlying failure";
    let mut hashes = Vec::new();
    for code in ["USR", "SYS"] {
        for client in ["", "please retry"] {
            let info: ErrorInfo<AppCode> =
                ErrorInfo::new("DivisionByZero", code, client, String::from(s));
            hashes.push(info.hash.clone());
        }
    }
    let other: ErrorInfo<NumericCode> = ErrorInfo::new("42", "NET", "", String::from(s));
    hashes.push(other.hash.clone());
    for h in &hashes {
        assert_eq!(h, &hashes[0]);
    }
}

#[test]
fn client_fallback_when_client_msg_empty() {
    let info: ErrorInfo<AppCode> =
        ErrorInfo::new("DivisionByZero", "USR", "", String::from("division by zero"));
    assert_eq!(info.client_msg(), "division by zero");
}

#[test]
fn client_msg_verbatim_when_non_empty() {
    let info: ErrorInfo<AppCode> = ErrorInfo::new(
        "DivisionByZero",
        "USR",
        "please retry",
        String::from("division by zero"),
    );
    assert_eq!(info.client_msg(), "please retry");
}

#[test]
fn rendering_format_exact() {
    let info: ErrorInfo<AppCode> =
        ErrorInfo::new("NotFound", "SYS", "not found", String::from("file not found"));
    let expected_client = format!("[{}-{}] {}", "SYS", info.hash, "not found");
    let expected_server = format!("[{}-{}] {}", "SYS", info.hash, "file not found");
    assert_eq!(info.client_string(), expected_client);
    assert_eq!(info.server_string(), expected_server);
}

#[test]
fn example_division_by_zero_fallback() {
    let info: ErrorInfo<AppCode> =
        ErrorInfo::new("DivisionByZero", "USR", "", String::from("division by zero"));
    assert_eq!(info.hash, "2l-la6dFSf8");
    assert_eq!(info.client_string(), "[USR-2l-la6dFSf8] division by zero");
    assert_eq!(info.server_string(), "[USR-2l-la6dFSf8] division by zero");
    let again: ErrorInfo<AppCode> =
        ErrorInfo::new("DivisionByZero", "USR", "", String::from("division by zero"));
    assert_eq!(again.hash, info.hash);
}

#[test]
fn example_division_by_zero_with_client_msg() {
    let info: ErrorInfo<AppCode> = ErrorInfo::new(
        "DivisionByZero",
        "USR",
        "please retry",
        String::from("division by zero"),
    );
    assert_eq!(info.client_string(), "[USR-2l-la6dFSf8] please retry");
    assert_eq!(info.server_string(), "[USR-2l-la6dFSf8] division by zero");
}

#[test]
fn new_parses_app_code() {
    let info: ErrorInfo<AppCode> =
        ErrorInfo::new("NotFound", "SYS", "", String::from("file not found"));
    assert_eq!(info.app_code, AppCode::NotFound);
    let numeric: ErrorInfo<NumericCode> =
        ErrorInfo::new("42", "NET", "", String::from("connection reset"));
    assert_eq!(numeric.app_code, NumericCode(42));
}

#[test]
fn from_parts_keeps_fields_verbatim() {
    let info = ErrorInfo::from_parts(
        AppCode::DivisionByZero,
        "USR",
        "please retry",
        String::from("division by zero"),
    );
    assert_eq!(info.app_code, AppCode::DivisionByZero);
    assert_eq!(info.code, "USR");
    assert_eq!(info.client_msg, "please retry");
    assert_eq!(info.server_msg, "division by zero");
    assert_eq!(info.hash, fingerprint("division by zero"));
}

#[test]
fn to_error_into_capability() {
    let info = MyError::Division.to_error_into();
    assert_eq!(info.app_code, AppCode::DivisionByZero);
    assert_eq!(info.code, "USR");
    assert_eq!(info.client_string(), "[USR-2l-la6dFSf8] division by zero");

    let info = MyError::Missing.to_error_into();
    assert_eq!(info.app_code, AppCode::NotFound);
    assert_eq!(info.hash, "j25QDNFVsmY");
    assert_eq!(info.client_string(), "[SYS-j25QDNFVsmY] not found");
    assert_eq!(info.server_string(), "[SYS-j25QDNFVsmY] file not found");
}
