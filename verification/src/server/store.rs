//! The statements that the endpoints send to the database, and what the
//! `resource_` and `file_` tables do with them.
//!
//! Resources live in `resource_ (key, value)`, files in `file_ (name, data)`,
//! both keyed by their first column; a write replaces the row of its key.

use vstd::prelude::*;
use crate::server::models::Resource;

verus! {

/// A statement against the `resource_` and `file_` tables.
#[derive(Debug)]
pub enum Statement {
    /// `SELECT * FROM resource_ WHERE key = $1`
    SelectResource(String),
    /// `SELECT * FROM resource_`
    SelectAllResources,
    /// `INSERT INTO resource_ ... ON CONFLICT(key) DO UPDATE SET value = $2`
    UpsertResource(Resource),
    /// `DELETE FROM resource_ WHERE key = $1`
    DeleteResource(String),
    /// `INSERT INTO file_ ... ON CONFLICT(name) DO UPDATE SET data = $2`
    UpsertFile(String, Vec<u8>),
    /// `SELECT data FROM file_ WHERE name = $1`
    SelectFile(String),
    /// `SELECT name FROM file_`
    SelectAllFileNames,
    /// `DELETE FROM file_ WHERE name = $1`
    DeleteFile(String),
}

/// A statement, its arguments as text and bytes.
pub enum StatementView {
    SelectResource(Seq<char>),
    SelectAllResources,
    UpsertResource(Seq<char>, Seq<char>),
    DeleteResource(Seq<char>),
    UpsertFile(Seq<char>, Seq<u8>),
    SelectFile(Seq<char>),
    SelectAllFileNames,
    DeleteFile(Seq<char>),
}

impl View for Statement {
    type V = StatementView;

    open spec fn view(&self) -> StatementView {
        match self {
            Statement::SelectResource(k) => StatementView::SelectResource(k@),
            Statement::SelectAllResources => StatementView::SelectAllResources,
            Statement::UpsertResource(r) => StatementView::UpsertResource(r.key@, r.value@),
            Statement::DeleteResource(k) => StatementView::DeleteResource(k@),
            Statement::UpsertFile(n, d) => StatementView::UpsertFile(n@, d@),
            Statement::SelectFile(n) => StatementView::SelectFile(n@),
            Statement::SelectAllFileNames => StatementView::SelectAllFileNames,
            Statement::DeleteFile(n) => StatementView::DeleteFile(n@),
        }
    }
}

/// The contents of the two tables.
pub struct Tables {
    pub resources: Map<Seq<char>, Seq<char>>,
    pub files: Map<Seq<char>, Seq<u8>>,
}

/// What a statement gives back.
pub enum Rows {
    /// The resource of the key, if there is one.
    Resource(Option<(Seq<char>, Seq<char>)>),
    /// Every resource.
    Resources(Set<(Seq<char>, Seq<char>)>),
    /// The data of the file, if there is one.
    File(Option<Seq<u8>>),
    /// The name of every file.
    FileNames(Set<Seq<char>>),
    /// Nothing: the statement wrote.
    Done,
}

/// The resources of `t` as key/value pairs.
pub open spec fn resource_pairs(t: Tables) -> Set<(Seq<char>, Seq<char>)> {
    Set::new(
        |kv: (Seq<char>, Seq<char>)|
            t.resources.contains_key(kv.0) && t.resources[kv.0] == kv.1,
    )
}

/// The tables after `s`, and what `s` gives back.
pub open spec fn execute(t: Tables, s: StatementView) -> (Tables, Rows) {
    match s {
        StatementView::SelectResource(k) => (
            t,
            Rows::Resource(
                if t.resources.contains_key(k) {
                    Some((k, t.resources[k]))
                } else {
                    None
                },
            ),
        ),
        StatementView::SelectAllResources => (t, Rows::Resources(resource_pairs(t))),
        StatementView::UpsertResource(k, v) => (
            Tables { resources: t.resources.insert(k, v), files: t.files },
            Rows::Done,
        ),
        StatementView::DeleteResource(k) => (
            Tables { resources: t.resources.remove(k), files: t.files },
            Rows::Done,
        ),
        StatementView::UpsertFile(n, d) => (
            Tables { resources: t.resources, files: t.files.insert(n, d) },
            Rows::Done,
        ),
        StatementView::SelectFile(n) => (
            t,
            Rows::File(
                if t.files.contains_key(n) {
                    Some(t.files[n])
                } else {
                    None
                },
            ),
        ),
        StatementView::SelectAllFileNames => (t, Rows::FileNames(t.files.dom())),
        StatementView::DeleteFile(n) => (
            Tables { resources: t.resources, files: t.files.remove(n) },
            Rows::Done,
        ),
    }
}

} // verus!
