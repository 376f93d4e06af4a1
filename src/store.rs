//! Requests to the document store, and a model of what the store does with
//! them: a map from record address to document.
use vstd::prelude::*;
use crate::note::Note;
use crate::user::{SupportTeamRank, User};

verus! {

/// The two record tables.
#[derive(Debug, Clone, Copy, PartialEq, Eq, Hash, Structural)]
pub enum Table {
    User,
    Note,
}

/// Address of one record: its table and its key.
#[derive(Debug, Clone, PartialEq, Eq)]
pub struct RecordId {
    pub table: Table,
    pub key: String,
}

impl View for RecordId {
    type V = (Table, Seq<char>);

    open spec fn view(&self) -> (Table, Seq<char>) {
        (self.table, self.key@)
    }
}

/// A document held in the store.
#[derive(Debug, Clone, PartialEq, Eq)]
pub enum Content {
    User(User),
    Note(Note),
}

/// One call into the store.
#[derive(Debug, Clone, PartialEq, Eq)]
pub enum StoreAction {
    /// Store a new document under `id`.
    Create { id: RecordId, content: Content },
    /// Replace the whole document under `id`.
    Replace { id: RecordId, content: Content },
    /// Read the document under `id`.
    Select { id: RecordId },
    /// Read every document of a table.
    SelectAll { table: Table },
    /// Read every note thread whose subject is `pid`.
    SelectNotesOf { pid: i64 },
    /// Set the rank field of the user record under `id`.
    SetRank { id: RecordId, rank: SupportTeamRank },
    /// Set the name field of the user record under `id`.
    SetName { id: RecordId, name: String },
    /// Delete the document under `id`, answering with its last value.
    Delete { id: RecordId },
}

/// A store call together with the session token it is made under. The token
/// is authenticated with the store before the action is carried out.
#[derive(Debug, Clone, PartialEq, Eq)]
pub struct StoreRequest {
    pub token: String,
    pub action: StoreAction,
}

/// Contents of the store: documents by table and key.
pub type Store = Map<(Table, Seq<char>), Content>;

/// The store after carrying out `a`. Creating over an existing key replaces
/// the document there; a field update on a missing user changes nothing.
pub open spec fn apply(s: Store, a: StoreAction) -> Store {
    match a {
        StoreAction::Create { id, content } => s.insert(id@, content),
        StoreAction::Replace { id, content } => s.insert(id@, content),
        StoreAction::SetRank { id, rank } => match s.get(id@) {
            Some(Content::User(u)) => s.insert(id@, Content::User(User { rank, ..u })),
            _ => s,
        },
        StoreAction::SetName { id, name } => match s.get(id@) {
            Some(Content::User(u)) => s.insert(id@, Content::User(User { name, ..u })),
            _ => s,
        },
        StoreAction::Delete { id } => s.remove(id@),
        _ => s,
    }
}

/// What a `Select` of address `id` reads.
pub open spec fn lookup(s: Store, id: (Table, Seq<char>)) -> Option<Content> {
    s.get(id)
}

/// What a `Select` action reads from `s`; nothing for other actions.
pub open spec fn read(s: Store, a: StoreAction) -> Option<Content> {
    match a {
        StoreAction::Select { id } => lookup(s, id@),
        _ => None,
    }
}

/// The thread that a `Create` or `Replace` action writes.
pub open spec fn written_note(a: StoreAction) -> Option<Note> {
    match a {
        StoreAction::Create { content: Content::Note(n), .. } => Some(n),
        StoreAction::Replace { content: Content::Note(n), .. } => Some(n),
        _ => None,
    }
}

/// A note thread about `pid` is stored somewhere in `s`.
pub open spec fn holds_note(s: Store, pid: int, n: Note) -> bool {
    exists|k: (Table, Seq<char>)|
        k.0 == Table::Note && #[trigger] s.get(k) == Some(Content::Note(n)) && n.pid == pid
}

/// `rows` is an answer of the store to `SelectNotesOf { pid }`: each row is a
/// stored thread about `pid`, and each such thread is among the rows, in an
/// order the store chooses.
pub open spec fn answers_notes_of(s: Store, pid: int, rows: Seq<Note>) -> bool {
    &&& forall|i: int| 0 <= i < rows.len() ==> holds_note(s, pid, #[trigger] rows[i])
    &&& forall|n: Note| holds_note(s, pid, n) ==> rows.contains(n)
}

} // verus!
