//! The note repository: for each operation, the statement that is handed to
//! the store, and what is returned to the caller for each answer of the store.

use vstd::prelude::*;
use crate::statement::{ExecOutcome, Fetch, Statement, StatementView, Value, ValueView};

verus! {

/// Summary of a note, as shown in a listing: everything but the content.
#[derive(Clone, Debug, PartialEq, Eq)]
pub struct Note {
    pub id: i64,
    pub title: String,
    pub updated_at: String,
    pub pb_id: Option<String>,
}

/// A note in full.
#[derive(Clone, Debug, PartialEq, Eq)]
pub struct NoteDetail {
    pub id: i64,
    pub title: String,
    pub content: Option<String>,
    pub updated_at: String,
    pub pb_id: Option<String>,
}

/// Mathematical view of a summary.
pub struct NoteView {
    pub id: int,
    pub title: Seq<char>,
    pub updated_at: Seq<char>,
    pub pb_id: Option<Seq<char>>,
}

/// Mathematical view of a full note.
pub struct NoteDetailView {
    pub id: int,
    pub title: Seq<char>,
    pub content: Option<Seq<char>>,
    pub updated_at: Seq<char>,
    pub pb_id: Option<Seq<char>>,
}

/// View of an optional text.
pub open spec fn text_view(text: Option<String>) -> Option<Seq<char>> {
    match text {
        Some(s) => Some(s@),
        None => None,
    }
}

impl View for Note {
    type V = NoteView;

    open spec fn view(&self) -> NoteView {
        NoteView {
            id: self.id as int,
            title: self.title@,
            updated_at: self.updated_at@,
            pb_id: text_view(self.pb_id),
        }
    }
}

impl View for NoteDetail {
    type V = NoteDetailView;

    open spec fn view(&self) -> NoteDetailView {
        NoteDetailView {
            id: self.id as int,
            title: self.title@,
            content: text_view(self.content),
            updated_at: self.updated_at@,
            pb_id: text_view(self.pb_id),
        }
    }
}

pub const CREATE_NOTE_SQL: &'static str = "INSERT INTO notes (title, content) VALUES ($1, $2)";

pub const GET_NOTES_SQL: &'static str =
    "SELECT id, title, updated_at, pb_id FROM notes ORDER BY updated_at DESC, id DESC";

pub const GET_NOTE_CONTENT_SQL: &'static str =
    "SELECT id, title, content, updated_at, pb_id FROM notes WHERE id = $1";

pub const UPDATE_NOTE_SQL: &'static str = "UPDATE notes SET title = $1, content = $2 WHERE id = $3";

pub const UPDATE_NOTE_PB_ID_SQL: &'static str = "UPDATE notes SET pb_id = $1 WHERE id = $2";

pub const IMPORT_NOTE_SQL: &'static str =
    "INSERT INTO notes (title, content, updated_at, pb_id) VALUES ($1, $2, $3, $4)";

pub const DELETE_NOTE_SQL: &'static str = "DELETE FROM notes WHERE id = $1";

pub const DELETE_NOTE_BY_PB_ID_SQL: &'static str = "DELETE FROM notes WHERE pb_id = $1";

/// The welcome line for `name`.
pub fn greet(name: &str) -> (greeting: String)
    ensures
        greeting@ == "Welcome to ONYX, Operator "@ + name@ + "!"@,
{
    let mut greeting = String::from_str("Welcome to ONYX, Operator ");
    greeting.append(name);
    greeting.append("!");
    greeting
}

/// Inserts a note with the given title and content. The store assigns the id
/// and both timestamps; the external id stays empty.
pub fn create_note(title: String, content: String) -> (st: Statement)
    ensures
        st@ == (StatementView {
            sql: CREATE_NOTE_SQL@,
            fetch: Fetch::Execute,
            binds: seq![ValueView::Text(title@), ValueView::Text(content@)],
        }),
{
    let st = Statement::plain(CREATE_NOTE_SQL, Fetch::Execute)
        .bind(Value::Text(title))
        .bind(Value::Text(content));
    assert(st@.binds =~= seq![ValueView::Text(title@), ValueView::Text(content@)]);
    st
}

/// Lists the summaries of all notes, the most recently updated first, and
/// among equal timestamps the highest id first.
pub fn get_notes() -> (st: Statement)
    ensures
        st@ == (StatementView { sql: GET_NOTES_SQL@, fetch: Fetch::All, binds: Seq::empty() }),
{
    Statement::plain(GET_NOTES_SQL, Fetch::All)
}

/// Looks up the note with id `id`, in full.
pub fn get_note_content(id: i64) -> (st: Statement)
    ensures
        st@ == (StatementView {
            sql: GET_NOTE_CONTENT_SQL@,
            fetch: Fetch::Optional,
            binds: seq![ValueView::Integer(id as int)],
        }),
{
    let st = Statement::plain(GET_NOTE_CONTENT_SQL, Fetch::Optional).bind(Value::Integer(id));
    assert(st@.binds =~= seq![ValueView::Integer(id as int)]);
    st
}

/// Overwrites title and content of the note with id `id`.
pub fn update_note(id: i64, title: String, content: String) -> (st: Statement)
    ensures
        st@ == (StatementView {
            sql: UPDATE_NOTE_SQL@,
            fetch: Fetch::Execute,
            binds: seq![
                ValueView::Text(title@),
                ValueView::Text(content@),
                ValueView::Integer(id as int),
            ],
        }),
{
    let st = Statement::plain(UPDATE_NOTE_SQL, Fetch::Execute)
        .bind(Value::Text(title))
        .bind(Value::Text(content))
        .bind(Value::Integer(id));
    assert(st@.binds =~= seq![
        ValueView::Text(title@),
        ValueView::Text(content@),
        ValueView::Integer(id as int),
    ]);
    st
}

/// Sets the external id of the note with id `id`, and nothing else.
pub fn update_note_pb_id(id: i64, pb_id: String) -> (st: Statement)
    ensures
        st@ == (StatementView {
            sql: UPDATE_NOTE_PB_ID_SQL@,
            fetch: Fetch::Execute,
            binds: seq![ValueView::Text(pb_id@), ValueView::Integer(id as int)],
        }),
{
    let st = Statement::plain(UPDATE_NOTE_PB_ID_SQL, Fetch::Execute)
        .bind(Value::Text(pb_id))
        .bind(Value::Integer(id));
    assert(st@.binds =~= seq![ValueView::Text(pb_id@), ValueView::Integer(id as int)]);
    st
}

/// Inserts a note that comes from elsewhere, with its external id and the
/// time of its last update there. The store assigns the id and the time of
/// creation.
pub fn import_note_from_pb(pb_id: String, title: String, content: String, updated_at: String) -> (st:
    Statement)
    ensures
        st@ == (StatementView {
            sql: IMPORT_NOTE_SQL@,
            fetch: Fetch::Execute,
            binds: seq![
                ValueView::Text(title@),
                ValueView::Text(content@),
                ValueView::Text(updated_at@),
                ValueView::Text(pb_id@),
            ],
        }),
{
    let st = Statement::plain(IMPORT_NOTE_SQL, Fetch::Execute)
        .bind(Value::Text(title))
        .bind(Value::Text(content))
        .bind(Value::Text(updated_at))
        .bind(Value::Text(pb_id));
    assert(st@.binds =~= seq![
        ValueView::Text(title@),
        ValueView::Text(content@),
        ValueView::Text(updated_at@),
        ValueView::Text(pb_id@),
    ]);
    st
}

/// Removes the note with id `id`.
pub fn delete_note(id: i64) -> (st: Statement)
    ensures
        st@ == (StatementView {
            sql: DELETE_NOTE_SQL@,
            fetch: Fetch::Execute,
            binds: seq![ValueView::Integer(id as int)],
        }),
{
    let st = Statement::plain(DELETE_NOTE_SQL, Fetch::Execute).bind(Value::Integer(id));
    assert(st@.binds =~= seq![ValueView::Integer(id as int)]);
    st
}

/// Removes every note whose external id is `pb_id`.
pub fn delete_note_by_pb_id(pb_id: String) -> (st: Statement)
    ensures
        st@ == (StatementView {
            sql: DELETE_NOTE_BY_PB_ID_SQL@,
            fetch: Fetch::Execute,
            binds: seq![ValueView::Text(pb_id@)],
        }),
{
    let st = Statement::plain(DELETE_NOTE_BY_PB_ID_SQL, Fetch::Execute).bind(Value::Text(pb_id));
    assert(st@.binds =~= seq![ValueView::Text(pb_id@)]);
    st
}

/// What an insertion returns: the id that the store assigned, or the store's
/// error message.
pub fn inserted(outcome: Result<ExecOutcome, String>) -> (r: Result<i64, String>)
    ensures
        r == match outcome {
            Ok(done) => Ok::<i64, String>(done.last_insert_rowid),
            Err(message) => Err(message),
        },
{
    match outcome {
        Ok(done) => Ok(done.last_insert_rowid),
        Err(message) => Err(message),
    }
}

/// What an update or a removal returns: success whenever the store ran the
/// statement, also where it matched no row; else the store's error message.
pub fn applied(outcome: Result<ExecOutcome, String>) -> (r: Result<(), String>)
    ensures
        r == match outcome {
            Ok(_) => Ok::<(), String>(()),
            Err(message) => Err(message),
        },
{
    match outcome {
        Ok(_) => Ok(()),
        Err(message) => Err(message),
    }
}

/// What a listing returns: the rows as the store gave them, in its order, an
/// empty listing included; else the store's error message.
pub fn listed(rows: Result<Vec<Note>, String>) -> (r: Result<Vec<Note>, String>)
    ensures
        r == rows,
{
    rows
}

/// What a lookup returns: the row that the store found, or `None` where it
/// found none, which is no error; else the store's error message.
pub fn found(row: Result<Option<NoteDetail>, String>) -> (r: Result<Option<NoteDetail>, String>)
    ensures
        r == row,
{
    row
}

} // verus!
