use market_api_server::server::recover::{recover, Rejection};
use market_api_server::server::routes::{routes, Method};

fn status_without_key(method: Method, path: &str) -> u16 {
    match routes(method, path, None, "1234") {
        Ok(_) => 200,
        Err(rejection) => recover(&rejection).0.as_u16(),
    }
}

#[test]
fn get_all_resources() {
    assert_eq!(status_without_key(Method::Get, "/res"), 401);
}

#[test]
fn post_resource() {
    assert_eq!(status_without_key(Method::Post, "/res"), 401);
}

#[test]
fn delete_resource() {
    assert_eq!(status_without_key(Method::Delete, "/res/xxxx"), 401);
}

#[test]
fn get_all_files() {
    assert_eq!(status_without_key(Method::Get, "/file"), 401);
}

#[test]
fn upload_file() {
    assert_eq!(status_without_key(Method::Put, "/file/xxx"), 401);
}

#[test]
fn delete_file() {
    assert_eq!(status_without_key(Method::Delete, "/file/xxxx"), 401);
}

#[test]
fn open_routes_need_no_key() {
    assert_eq!(status_without_key(Method::Get, "/"), 200);
    assert_eq!(status_without_key(Method::Get, "/resEditor"), 200);
    assert_eq!(status_without_key(Method::Get, "/res/abc"), 200);
    assert_eq!(status_without_key(Method::Get, "/file/abc"), 200);
    assert_eq!(status_without_key(Method::Post, "/oauth/refresh"), 200);
    assert_eq!(status_without_key(Method::Post, "/oauth/refresh/discord"), 200);
}

#[test]
fn unknown_paths_and_methods() {
    assert_eq!(status_without_key(Method::Get, "/nothing"), 404);
    assert_eq!(status_without_key(Method::Get, "/res/a/b"), 404);
    assert_eq!(status_without_key(Method::Get, "/res//"), 404);
    assert_eq!(status_without_key(Method::Get, "/res/%FF"), 404);
    assert_eq!(status_without_key(Method::Put, "/res"), 405);
    assert_eq!(status_without_key(Method::Post, "/"), 405);
    assert_eq!(status_without_key(Method::Get, "/oauth/refresh"), 405);
    assert_eq!(status_without_key(Method::Post, "/file"), 405);
}
