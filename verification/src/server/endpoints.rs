//! What each endpoint asks of the database and how it answers.
//!
//! Keys and file names are trimmed of white space before they are used;
//! resource values are kept as they are.

use vstd::prelude::*;
use crate::config::Config;
use crate::text::{trim, trimmed, law_trim_idempotent};
use crate::server::error::Error;
use crate::server::models::{Resource, ResourceView, OAuthRefreshData};
use crate::server::store::{Statement, StatementView, Tables, Rows, execute, resource_pairs};
use crate::server::util::PercentDecoded;

verus! {

/// The text that the index page answers with.
pub const INDEX_TEXT: &'static str = "Market API Server";

/// The statement that reads the resource of a (percent-decoded) path key.
pub open spec fn get_resource_statement(key: Seq<char>) -> StatementView {
    StatementView::SelectResource(trimmed(key))
}

/// A posted resource as it is stored: its key trimmed, its value as it is.
pub open spec fn stored_resource(r: ResourceView) -> ResourceView {
    ResourceView { key: trimmed(r.key), value: r.value }
}

/// The statement that stores a posted resource.
pub open spec fn post_resource_statement(r: ResourceView) -> StatementView {
    StatementView::UpsertResource(trimmed(r.key), r.value)
}

/// The statement that deletes the resource of a path key.
pub open spec fn delete_resource_statement(key: Seq<char>) -> StatementView {
    StatementView::DeleteResource(trimmed(key))
}

/// `GET /res/{key}`: reads the resource of the trimmed key.
pub fn get_resource(key: &PercentDecoded) -> (s: Statement)
    ensures
        s@ == get_resource_statement(key@),
{
    Statement::SelectResource(trim(key.as_str()).to_owned())
}

/// `GET /res`: reads every resource.
pub fn get_all_resources() -> (s: Statement)
    ensures
        s@ == StatementView::SelectAllResources,
{
    Statement::SelectAllResources
}

/// `POST /res`: stores the resource under its trimmed key; the answer is
/// the resource as stored.
pub fn post_resource(resource: Resource) -> (r: (Statement, Resource))
    ensures
        r.0@ == post_resource_statement(resource@),
        r.1@ == stored_resource(resource@),
{
    let key = trim(resource.key.as_str()).to_owned();
    let stored = Resource { key: key.clone(), value: resource.value.clone() };
    (Statement::UpsertResource(Resource { key, value: resource.value }), stored)
}

/// `DELETE /res/{key}`: deletes the resource of the trimmed key.
pub fn delete_resource(key: &PercentDecoded) -> (s: Statement)
    ensures
        s@ == delete_resource_statement(key@),
{
    Statement::DeleteResource(trim(key.as_str()).to_owned())
}

/// `PUT /file/{name}`: stores the body as the file of the trimmed name.
pub fn upload_file(file_name: &PercentDecoded, body: Vec<u8>) -> (s: Statement)
    ensures
        s@ == StatementView::UpsertFile(trimmed(file_name@), body@),
{
    Statement::UpsertFile(trim(file_name.as_str()).to_owned(), body)
}

/// `GET /file/{name}`: reads the file of the trimmed name.
pub fn get_file(file_name: &PercentDecoded) -> (s: Statement)
    ensures
        s@ == StatementView::SelectFile(trimmed(file_name@)),
{
    Statement::SelectFile(trim(file_name.as_str()).to_owned())
}

/// `GET /file`: reads the name of every file.
pub fn get_all_files() -> (s: Statement)
    ensures
        s@ == StatementView::SelectAllFileNames,
{
    Statement::SelectAllFileNames
}

/// `DELETE /file/{name}`: deletes the file of the trimmed name.
pub fn delete_file(file_name: &PercentDecoded) -> (s: Statement)
    ensures
        s@ == StatementView::DeleteFile(trimmed(file_name@)),
{
    Statement::DeleteFile(trim(file_name.as_str()).to_owned())
}

/// The answer to a read of one row: a failed read is `500`, a missing row
/// `404`, a found row itself.
pub fn found<T>(read: Result<Option<T>, String>) -> (r: Result<T, Error>)
    ensures
        match read {
            Err(m) => r matches Err(e) && e@.code == 500 && e@.source == Some(m@),
            Ok(None) => r matches Err(e) && e@.code == 404 && e@.source is None,
            Ok(Some(v)) => r == Ok::<T, Error>(v),
        },
{
    match read {
        Err(m) => Err(Error::with_source(crate::server::status::StatusCode::internal_server_error(), m)),
        Ok(None) => Err(Error::not_found()),
        Ok(Some(v)) => Ok(v),
    }
}

/// A refresh-token grant to send, as a form, to the token endpoint.
pub struct TokenRequest {
    pub uri: String,
    pub form: Vec<(&'static str, String)>,
}

/// `POST /oauth/refresh`: a request from another client than the configured
/// Discord client is `400 Bad Request`; otherwise the token endpoint is sent
/// a `refresh_token` grant with the client's id and secret and the token,
/// its fields in the order of their names.
pub fn post_oauth_refresh(conf: &Config, data: OAuthRefreshData) -> (r: Result<TokenRequest, Error>)
    ensures
        match r {
            Err(e) => data.client_id@ != conf.oauth_client_id_discord@ && e@.code == 400
                && e@.source is None,
            Ok(req) => {
                &&& data.client_id@ == conf.oauth_client_id_discord@
                &&& req.uri@ == conf.oauth_client_token_endpoint_discord@
                &&& req.form@.len() == 4
                &&& req.form@[0].0@ == "client_id"@ && req.form@[0].1@
                    == conf.oauth_client_id_discord@
                &&& req.form@[1].0@ == "client_secret"@ && req.form@[1].1@
                    == conf.oauth_client_secret_discord@
                &&& req.form@[2].0@ == "grant_type"@ && req.form@[2].1@ == "refresh_token"@
                &&& req.form@[3].0@ == "refresh_token"@ && req.form@[3].1@ == data.refresh_token@
            },
        },
{
    if data.client_id != conf.oauth_client_id_discord {
        return Err(Error::from_status(crate::server::status::StatusCode::bad_request()));
    }
    let mut form: Vec<(&'static str, String)> = Vec::new();
    form.push(("client_id", conf.oauth_client_id_discord.clone()));
    form.push(("client_secret", conf.oauth_client_secret_discord.clone()));
    form.push(("grant_type", "refresh_token".to_owned()));
    form.push(("refresh_token", data.refresh_token));
    Ok(TokenRequest { uri: conf.oauth_client_token_endpoint_discord.clone(), form })
}

/// A posted resource is read back, under any path key that trims to the same
/// key, as it was stored: key trimmed, value untouched.
pub proof fn law_post_then_get(t: Tables, posted: ResourceView, key: Seq<char>)
    requires
        trimmed(key) == trimmed(posted.key),
    ensures
        execute(execute(t, post_resource_statement(posted)).0, get_resource_statement(key)).1
            == Rows::Resource(Some((stored_resource(posted).key, stored_resource(posted).value))),
{
}

/// Of two posts of one key, the later one wins.
pub proof fn law_post_overwrites(t: Tables, first: ResourceView, second: ResourceView)
    requires
        trimmed(first.key) == trimmed(second.key),
    ensures
        execute(execute(t, post_resource_statement(first)).0, post_resource_statement(second)).0
            == execute(t, post_resource_statement(second)).0,
{
    let a = execute(execute(t, post_resource_statement(first)).0, post_resource_statement(second)).0;
    let b = execute(t, post_resource_statement(second)).0;
    assert(a.resources =~= b.resources);
}

/// Reading every resource after a post lists the stored pair, and no other
/// pair of that key.
pub proof fn law_post_then_get_all(t: Tables, posted: ResourceView)
    ensures
        ({
            let after = execute(t, post_resource_statement(posted)).0;
            let stored = stored_resource(posted);
            &&& execute(after, StatementView::SelectAllResources).1 == Rows::Resources(
                resource_pairs(after),
            )
            &&& resource_pairs(after).contains((stored.key, stored.value))
            &&& forall|v: Seq<char>|
                #[trigger] resource_pairs(after).contains((stored.key, v)) ==> v == stored.value
        }),
{
}

/// A deleted resource is gone for every path key that trims to its key, and
/// every other resource stays as it was.
pub proof fn law_delete_then_get(t: Tables, deleted: Seq<char>, key: Seq<char>)
    ensures
        ({
            let after = execute(t, delete_resource_statement(deleted)).0;
            let read = execute(after, get_resource_statement(key)).1;
            &&& trimmed(key) == trimmed(deleted) ==> read == Rows::Resource(None)
            &&& trimmed(key) != trimmed(deleted) ==> read == execute(
                t,
                get_resource_statement(key),
            ).1
        }),
{
}

/// A path key and its trimmed form reach the same resource.
pub proof fn law_trimmed_key_reaches_same(key: Seq<char>)
    ensures
        get_resource_statement(trimmed(key)) == get_resource_statement(key),
        delete_resource_statement(trimmed(key)) == delete_resource_statement(key),
{
    law_trim_idempotent(key);
}

/// An uploaded file is read back under any name that trims to the same name.
pub proof fn law_upload_then_get_file(t: Tables, name: Seq<char>, data: Seq<u8>, read: Seq<char>)
    requires
        trimmed(read) == trimmed(name),
    ensures
        execute(
            execute(t, StatementView::UpsertFile(trimmed(name), data)).0,
            StatementView::SelectFile(trimmed(read)),
        ).1 == Rows::File(Some(data)),
        execute(
            execute(t, StatementView::DeleteFile(trimmed(name))).0,
            StatementView::SelectFile(trimmed(read)),
        ).1 == Rows::File(None),
{
}

} // verus!
