use admin_guard::config::AdminConfig;
use admin_guard::error::{ErrorKind, ParseError};
use admin_guard::guard::{Admin, Request};
use admin_guard::token::HeaderField;

const PYTHON_HASH: &str = "$2b$04$EGdrhbKUv8Oc9vGiXX0HQOxSg445d458Muh7DAHskb6QbtCvdxcie";
const PYTHON_SECRET: &[u8] = b"correctbatteryhorsestapler";

#[derive(Debug, PartialEq)]
struct Store {
    id: u32,
}

fn known_config() -> AdminConfig {
    AdminConfig::from_hashed(Ok(String::from(PYTHON_HASH))).unwrap()
}

fn token_header(value: &[u8]) -> HeaderField {
    HeaderField::new("x-api-token", value)
}

fn request<'a>(
    config: Option<&'a AdminConfig>,
    headers: Vec<HeaderField>,
    store: Option<&'a Store>,
) -> Request<'a, Store> {
    Request { config, headers, store }
}

#[test]
fn end_to_end() {
    let config = AdminConfig::build("s3cr3t").unwrap();
    let store = Store { id: 7 };

    let granted = Admin::verify(&request(Some(&config), vec![token_header(b"s3cr3t")], Some(&store)));
    assert_eq!(granted.ok().unwrap().db_ref(), &Store { id: 7 });

    let wrong = Admin::verify(&request(Some(&config), vec![token_header(b"wrong")], Some(&store)));
    let err = wrong.err().unwrap();
    assert!(matches!(err.kind, ErrorKind::Invalid));
    let response = err.error_response();
    assert_eq!(response.status, 400);
    assert_eq!(response.msg, "Invalid API Token");

    let none = Admin::verify(&request(Some(&config), Vec::new(), Some(&store)));
    let err = none.err().unwrap();
    assert!(matches!(err.kind, ErrorKind::ParseHeader(ParseError::Missing)));
    let response = err.error_response();
    assert_eq!(response.status, 400);
    assert_eq!(response.msg, "Parse Header");

    let two = Admin::verify(&request(
        Some(&config),
        vec![token_header(b"a"), token_header(b"b")],
        Some(&store),
    ));
    let err = two.err().unwrap();
    assert!(matches!(err.kind, ErrorKind::ParseHeader(ParseError::Malformed)));
    let response = err.error_response();
    assert_eq!(response.status, 400);
    assert_eq!(response.msg, "Parse Header");
}

#[test]
fn the_secret_opens_the_store() {
    let config = known_config();
    let store = Store { id: 1 };
    let req = request(
        Some(&config),
        vec![HeaderField::new("host", b"relay.example"), token_header(PYTHON_SECRET)],
        Some(&store),
    );
    let admin = Admin::verify(&req).ok().unwrap();
    assert!(std::ptr::eq(admin.db_ref(), &store));
}

#[test]
fn a_wrong_token_is_invalid() {
    let config = known_config();
    let store = Store { id: 1 };
    let req = request(Some(&config), vec![token_header(b"wrong")], Some(&store));
    let err = Admin::verify(&req).err().unwrap();
    assert!(matches!(err.kind, ErrorKind::Invalid));
    assert_eq!(err.status_code(), 400);
}

#[test]
fn no_header_is_a_parse_error() {
    let config = known_config();
    let store = Store { id: 1 };
    let req = request(Some(&config), vec![HeaderField::new("host", b"h")], Some(&store));
    let err = Admin::verify(&req).err().unwrap();
    assert!(matches!(err.kind, ErrorKind::ParseHeader(ParseError::Missing)));
    assert_eq!(err.status_code(), 400);
}

#[test]
fn two_headers_are_a_parse_error_even_with_the_secret() {
    let config = known_config();
    let store = Store { id: 1 };
    for headers in [
        vec![token_header(PYTHON_SECRET), token_header(b"wrong")],
        vec![token_header(b"wrong"), token_header(PYTHON_SECRET)],
        vec![token_header(PYTHON_SECRET), token_header(PYTHON_SECRET)],
    ] {
        let err = Admin::verify(&request(Some(&config), headers, Some(&store))).err().unwrap();
        assert!(matches!(err.kind, ErrorKind::ParseHeader(ParseError::Malformed)));
        assert_eq!(err.status_code(), 400);
    }
}

#[test]
fn an_invalid_byte_is_a_parse_error() {
    let config = known_config();
    let store = Store { id: 1 };
    let req = request(Some(&config), vec![token_header(b"correct\xffhorse")], Some(&store));
    let err = Admin::verify(&req).err().unwrap();
    assert!(matches!(err.kind, ErrorKind::ParseHeader(ParseError::Malformed)));
    assert_eq!(err.status_code(), 400);
}

#[test]
fn missing_config_comes_first() {
    let store = Store { id: 1 };
    for headers in [
        vec![token_header(PYTHON_SECRET)],
        vec![token_header(b"wrong")],
        Vec::new(),
        vec![token_header(b"a"), token_header(b"b")],
        vec![token_header(b"\xff")],
    ] {
        for store in [Some(&store), None] {
            let err = Admin::verify(&request(None, headers.clone(), store)).err().unwrap();
            assert!(matches!(err.kind, ErrorKind::MissingConfig));
            assert_eq!(err.status_code(), 500);
            assert_eq!(err.error_response().msg, "Missing Config");
        }
    }
}

#[test]
fn missing_store_after_a_correct_token() {
    let config = known_config();
    let req = request(Some(&config), vec![token_header(PYTHON_SECRET)], None);
    let err = Admin::verify(&req).err().unwrap();
    assert!(matches!(err.kind, ErrorKind::MissingDb));
    assert_eq!(err.status_code(), 500);
    assert_eq!(err.error_response().msg, "Missing Db");
}

#[test]
fn a_wrong_token_is_invalid_also_without_a_store() {
    let config = known_config();
    let req = request(Some(&config), vec![token_header(b"wrong")], None);
    let err = Admin::verify(&req).err().unwrap();
    assert!(matches!(err.kind, ErrorKind::Invalid));
}

#[test]
fn a_parse_error_comes_before_the_store() {
    let config = known_config();
    let req = request(Some(&config), Vec::new(), None);
    let err = Admin::verify(&req).err().unwrap();
    assert!(matches!(err.kind, ErrorKind::ParseHeader(ParseError::Missing)));
}

#[test]
fn a_broken_hash_is_a_server_error() {
    let config = AdminConfig::from_hashed(Ok(String::from("$2b$12$short"))).unwrap();
    let store = Store { id: 1 };
    let req = request(Some(&config), vec![token_header(b"s3cr3t")], Some(&store));
    let err = Admin::verify(&req).err().unwrap();
    assert!(matches!(err.kind, ErrorKind::BCryptVerify(_)));
    assert_eq!(err.status_code(), 500);
    assert_eq!(err.error_response().msg, "Verifying");
}

#[test]
fn grant_decides_on_answer_and_store() {
    let store = Store { id: 3 };
    let db = Admin::grant(true, Some(&store)).unwrap();
    assert!(std::ptr::eq(db, &store));
    let err = Admin::grant(true, None::<&Store>).unwrap_err();
    assert!(matches!(err.kind, ErrorKind::MissingDb));
    let err = Admin::grant(false, Some(&store)).unwrap_err();
    assert!(matches!(err.kind, ErrorKind::Invalid));
    let err = Admin::grant(false, None::<&Store>).unwrap_err();
    assert!(matches!(err.kind, ErrorKind::Invalid));
}
