use market_api_server::server::endpoints;
use market_api_server::server::models::Resource;
use market_api_server::server::recover::recover;
use market_api_server::server::routes::{routes, Method, Route};
use market_api_server::server::store::Statement;
use std::collections::{HashMap, HashSet};

const KEY: &str = "1234";

/// The `resource_` and `file_` tables, kept in memory.
#[derive(Default)]
struct Tables {
    resources: HashMap<String, String>,
    files: HashMap<String, Vec<u8>>,
}

enum Rows {
    Resource(Option<Resource>),
    Resources(Vec<Resource>),
    File(Option<Vec<u8>>),
    Names(Vec<String>),
    Done,
}

fn execute(t: &mut Tables, s: Statement) -> Rows {
    match s {
        Statement::SelectResource(k) => Rows::Resource(
            t.resources.get(&k).map(|v| Resource { key: k.clone(), value: v.clone() }),
        ),
        Statement::SelectAllResources => Rows::Resources(
            t.resources
                .iter()
                .map(|(k, v)| Resource { key: k.clone(), value: v.clone() })
                .collect(),
        ),
        Statement::UpsertResource(r) => {
            t.resources.insert(r.key, r.value);
            Rows::Done
        }
        Statement::DeleteResource(k) => {
            t.resources.remove(&k);
            Rows::Done
        }
        Statement::UpsertFile(n, d) => {
            t.files.insert(n, d);
            Rows::Done
        }
        Statement::SelectFile(n) => Rows::File(t.files.get(&n).cloned()),
        Statement::SelectAllFileNames => Rows::Names(t.files.keys().cloned().collect()),
        Statement::DeleteFile(n) => {
            t.files.remove(&n);
            Rows::Done
        }
    }
}

fn post(t: &mut Tables, key: &str, value: &str) -> Resource {
    match routes(Method::Post, "/res", Some(KEY.as_bytes()), KEY) {
        Ok(Route::PostResource) => {
            let (stmt, stored) = endpoints::post_resource(Resource {
                key: key.to_string(),
                value: value.to_string(),
            });
            execute(t, stmt);
            stored
        }
        other => panic!("unexpected {:?}", other),
    }
}

fn get(t: &mut Tables, path: &str) -> Result<Resource, u16> {
    match routes(Method::Get, path, None, KEY) {
        Ok(Route::GetResource(key)) => match execute(t, endpoints::get_resource(&key)) {
            Rows::Resource(r) => endpoints::found(Ok(r)).map_err(|e| e.code().as_u16()),
            _ => panic!("wrong rows"),
        },
        Ok(other) => panic!("unexpected {:?}", other),
        Err(rejection) => Err(recover(&rejection).0.as_u16()),
    }
}

fn get_all(t: &mut Tables) -> HashSet<Resource> {
    match routes(Method::Get, "/res", Some(KEY.as_bytes()), KEY) {
        Ok(Route::GetAllResources) => match execute(t, endpoints::get_all_resources()) {
            Rows::Resources(rs) => rs.into_iter().collect(),
            _ => panic!("wrong rows"),
        },
        other => panic!("unexpected {:?}", other),
    }
}

fn delete(t: &mut Tables, path: &str) {
    match routes(Method::Delete, path, Some(KEY.as_bytes()), KEY) {
        Ok(Route::DeleteResource(key)) => {
            execute(t, endpoints::delete_resource(&key));
        }
        other => panic!("unexpected {:?}", other),
    }
}

#[test]
fn post_and_get() {
    let mut t = Tables::default();
    post(&mut t, "  abc  ", "  456 ");
    let res = get(&mut t, "/res/abc").unwrap();
    assert_eq!(
        res,
        Resource {
            key: "abc".to_string(),
            value: "  456 ".to_string()
        }
    );
}

#[test]
fn post_and_get_all() {
    let mut t = Tables::default();
    post(&mut t, "  abc  ", "  456 ");
    post(&mut t, "cde", "Hello World");
    post(&mut t, "abc", "0000");
    let res = get_all(&mut t);
    assert_eq!(
        res,
        vec![
            Resource {
                key: "abc".to_string(),
                value: "0000".to_string()
            },
            Resource {
                key: "cde".to_string(),
                value: "Hello World".to_string()
            }
        ]
        .into_iter()
        .collect::<HashSet<_>>()
    );
}

#[test]
fn post_and_delete_and_get_all() {
    let mut t = Tables::default();
    post(&mut t, "  abc     ", "  456 ");
    post(&mut t, "cde", "Hello World");
    delete(&mut t, "/res/%20abc%20");
    let res = get_all(&mut t);
    assert_eq!(
        res,
        vec![Resource {
            key: "cde".to_string(),
            value: "Hello World".to_string()
        }]
        .into_iter()
        .collect::<HashSet<_>>()
    );
}

#[test]
fn res() {
    let mut t = Tables::default();
    post(&mut t, "abc", "123");
    let res = get(&mut t, "/res/abc").unwrap();
    assert_eq!(
        res,
        Resource {
            key: "abc".to_string(),
            value: "123".to_string()
        }
    );
}

#[test]
fn post_answers_with_the_stored_resource() {
    let mut t = Tables::default();
    let stored = post(&mut t, "\t key \u{3000}", " v ");
    assert_eq!(stored.key, "key");
    assert_eq!(stored.value, " v ");
}

#[test]
fn get_of_missing_or_deleted_resource_is_not_found() {
    let mut t = Tables::default();
    assert_eq!(get(&mut t, "/res/abc"), Err(404));
    post(&mut t, "abc", "1");
    assert_eq!(get(&mut t, "/res/%20abc").map(|r| r.value), Ok("1".to_string()));
    delete(&mut t, "/res/abc");
    assert_eq!(get(&mut t, "/res/abc"), Err(404));
}

#[test]
fn failed_read_is_server_error() {
    let e = endpoints::found::<Resource>(Err("disk on fire".to_string())).unwrap_err();
    assert_eq!(e.code().as_u16(), 500);
    assert_eq!(e.source(), Some("disk on fire"));
}

#[test]
fn files_are_stored_under_trimmed_names() {
    let mut t = Tables::default();
    match routes(Method::Put, "/file/%20a.bin", Some(KEY.as_bytes()), KEY) {
        Ok(Route::UploadFile(name)) => {
            execute(&mut t, endpoints::upload_file(&name, vec![42]));
        }
        other => panic!("unexpected {:?}", other),
    }
    match routes(Method::Get, "/file/a.bin", None, KEY) {
        Ok(Route::GetFile(name)) => match execute(&mut t, endpoints::get_file(&name)) {
            Rows::File(f) => assert_eq!(f, Some(vec![42])),
            _ => panic!("wrong rows"),
        },
        other => panic!("unexpected {:?}", other),
    }
    match execute(&mut t, endpoints::get_all_files()) {
        Rows::Names(n) => assert_eq!(n, vec!["a.bin".to_string()]),
        _ => panic!("wrong rows"),
    }
}
