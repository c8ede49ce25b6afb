use authware::parse::parse_i64;
use authware::AuthContext;

fn ctx(uid: Option<&[u8]>, tok: Option<&[u8]>) -> AuthContext {
    AuthContext::from_headers(&uid.map(|b| b.to_vec()), &tok.map(|b| b.to_vec()))
}

#[test]
fn valid_user_id_and_token() {
    let c = ctx(Some(b"42"), Some(b"abc"));
    assert_eq!(c.user_id, 42);
    assert_eq!(c.auth_key, "abc");
}

#[test]
fn missing_headers_default() {
    let c = ctx(None, None);
    assert_eq!(c.user_id, 0);
    assert_eq!(c.auth_key, "");
}

#[test]
fn non_numeric_user_id_defaults_to_zero() {
    let c = ctx(Some(b"not-a-number"), None);
    assert_eq!(c.user_id, 0);
    assert_eq!(c.auth_key, "");
}

#[test]
fn non_utf8_user_id_defaults_to_zero() {
    let c = ctx(Some(&[0xff, 0xfe, 0x35]), None);
    assert_eq!(c.user_id, 0);
}

#[test]
fn non_utf8_token_defaults_to_empty() {
    let c = ctx(None, Some(&[0xc3, 0x28]));
    assert_eq!(c.auth_key, "");
}

#[test]
fn multibyte_token_is_decoded() {
    let c = ctx(None, Some("héllo ✓".as_bytes()));
    assert_eq!(c.auth_key, "héllo ✓");
}

#[test]
fn empty_header_values_default() {
    let c = ctx(Some(b""), Some(b""));
    assert_eq!(c.user_id, 0);
    assert_eq!(c.auth_key, "");
}

#[test]
fn signed_user_ids() {
    assert_eq!(ctx(Some(b"+7"), None).user_id, 7);
    assert_eq!(ctx(Some(b"-5"), None).user_id, -5);
    assert_eq!(ctx(Some(b"-0"), None).user_id, 0);
}

#[test]
fn user_id_at_the_i64_bounds() {
    assert_eq!(ctx(Some(b"9223372036854775807"), None).user_id, i64::MAX);
    assert_eq!(ctx(Some(b"-9223372036854775808"), None).user_id, i64::MIN);
}

#[test]
fn user_id_beyond_the_i64_bounds_defaults_to_zero() {
    assert_eq!(ctx(Some(b"9223372036854775808"), None).user_id, 0);
    assert_eq!(ctx(Some(b"-9223372036854775809"), None).user_id, 0);
    assert_eq!(ctx(Some(b"99999999999999999999999999"), None).user_id, 0);
}

#[test]
fn leading_zeros_are_accepted() {
    assert_eq!(ctx(Some(b"007"), None).user_id, 7);
}

#[test]
fn malformed_numbers_default_to_zero() {
    for bad in [
        &b"+"[..],
        b"-",
        b" 42",
        b"42 ",
        b"4 2",
        b"12a",
        b"0x10",
        b"12.5",
        "\u{0664}\u{0662}".as_bytes(),
    ] {
        assert_eq!(ctx(Some(bad), None).user_id, 0, "input {:?}", bad);
    }
}

#[test]
fn parse_i64_accepts_exact_literals() {
    assert_eq!(parse_i64(&b"0".to_vec()), Some(0));
    assert_eq!(parse_i64(&b"42".to_vec()), Some(42));
    assert_eq!(parse_i64(&b"-17".to_vec()), Some(-17));
}

#[test]
fn parse_i64_rejects_non_literals() {
    assert_eq!(parse_i64(&b"".to_vec()), None);
    assert_eq!(parse_i64(&b"+-1".to_vec()), None);
    assert_eq!(parse_i64(&b"1e3".to_vec()), None);
}
