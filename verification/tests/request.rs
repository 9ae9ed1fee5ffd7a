use d1_backup::{export_request_body, export_url, DbExportBookmark};

fn bookmark(s: &str) -> Option<DbExportBookmark> {
    Some(DbExportBookmark(s.to_string()))
}

#[test]
fn body_without_bookmark_omits_field() {
    let body = export_request_body(&None);
    assert_eq!(body, b"{\"output_format\":\"polling\"}");
}

#[test]
fn body_with_bookmark_carries_it() {
    let body = export_request_body(&bookmark("token-1"));
    assert_eq!(
        body,
        b"{\"output_format\":\"polling\",\"current_bookmark\":\"token-1\"}"
    );
}

#[test]
fn body_escapes_quote_and_backslash() {
    let body = export_request_body(&bookmark("a\"b\\c"));
    assert_eq!(
        body,
        b"{\"output_format\":\"polling\",\"current_bookmark\":\"a\\\"b\\\\c\"}"
    );
}

#[test]
fn body_escapes_control_bytes() {
    let body = export_request_body(&bookmark("a\nb\r\t\u{1}\u{1f}"));
    assert_eq!(
        body,
        b"{\"output_format\":\"polling\",\"current_bookmark\":\"a\\nb\\r\\t\\u0001\\u001f\"}"
    );
}

#[test]
fn body_keeps_multibyte_characters() {
    let body = export_request_body(&bookmark("ü"));
    let mut expected = b"{\"output_format\":\"polling\",\"current_bookmark\":\"".to_vec();
    expected.extend_from_slice("ü".as_bytes());
    expected.extend_from_slice(b"\"}");
    assert_eq!(body, expected);
}

#[test]
fn request_body_is_valid_json() {
    let body = export_request_body(&bookmark("a\"b\\c\n\u{1}"));
    let value: serde_json::Value = serde_json::from_slice(&body).expect("body must parse as JSON");
    assert_eq!(value["output_format"], "polling");
    assert_eq!(value["current_bookmark"], "a\"b\\c\n\u{1}");
}

#[test]
fn export_url_matches_wire_contract() {
    let url = export_url("acct-1", "db-9");
    assert_eq!(
        url,
        "https://api.cloudflare.com/client/v4/accounts/acct-1/d1/database/db-9/export"
    );
}
