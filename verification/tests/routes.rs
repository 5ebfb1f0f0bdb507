use market_api_server::server::routes::{routes, Method, Route};

#[test]
fn routes_with_key_reach_their_endpoint() {
    let key = Some(&b"1234"[..]);
    assert!(matches!(routes(Method::Get, "/res", key, "1234"), Ok(Route::GetAllResources)));
    assert!(matches!(routes(Method::Post, "/res/", key, "1234"), Ok(Route::PostResource)));
    match routes(Method::Delete, "/res/%20abc%20", key, "1234") {
        Ok(Route::DeleteResource(k)) => assert_eq!(k.as_str(), " abc "),
        other => panic!("unexpected {:?}", other),
    }
    match routes(Method::Put, "/file/a%2Fb", key, "1234") {
        Ok(Route::UploadFile(n)) => assert_eq!(n.as_str(), "a/b"),
        other => panic!("unexpected {:?}", other),
    }
    assert!(matches!(routes(Method::Get, "", None, "1234"), Ok(Route::Index)));
}

#[test]
fn wrong_key_is_unauthorized() {
    match routes(Method::Get, "/file", Some(b"123"), "1234") {
        Err(market_api_server::server::recover::Rejection::Error(e)) => {
            assert_eq!(e.code().as_u16(), 401)
        }
        other => panic!("unexpected {:?}", other),
    }
}
