use market_api_server::server::middlewares::authenticate;

#[test]
fn test_authenticate_success() {
    authenticate(Some(b"1234"), "1234").unwrap();
}

#[test]
fn test_authenticate_error() {
    authenticate(None, "1234").unwrap_err();
    authenticate(Some(b"xxxx"), "1234").unwrap_err();
    authenticate(Some(b"1234 "), "1234").unwrap_err();
    authenticate(Some(b"ABC"), "abc").unwrap_err();
}

#[test]
fn authenticate_rejects_with_unauthorized() {
    let e = authenticate(Some(b"xxxx"), "1234").unwrap_err();
    assert_eq!(e.code().as_u16(), 401);
    assert!(e.source().is_none());
}

#[test]
fn authenticate_rejects_non_visible_bytes() {
    // A header that does not read as text never matches, even byte for byte.
    let key = "caf\u{e9}";
    authenticate(Some(key.as_bytes()), key).unwrap_err();
    authenticate(Some(b"a\tb"), "a\tb").unwrap();
    authenticate(Some(b"a\nb"), "a\nb").unwrap_err();
}
