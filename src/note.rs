//! The note ledger: append-only threads of entries about a user, each thread
//! stored under its subject's id and the second in which it was created.
use vstd::prelude::*;
use crate::error::Error;
use crate::key::{note_key, note_key_text};
use crate::security::{sent_with, with_token};
use crate::store::{Content, RecordId, StoreAction, StoreRequest, Table};
use crate::time::{now, Timestamp};
use crate::user::User;

verus! {

/// A note thread about user `pid`. Its address is made from `pid` and
/// `created_at`, so neither may change once it is stored. `notes` holds its
/// entries in the order they were written, and is never empty.
#[derive(Debug, Clone, PartialEq, Eq)]
pub struct Note {
    pub pid: i64,
    pub created_at: Timestamp,
    pub note_type: NoteType,
    pub notes: Vec<ContentNote>,
}

/// One entry of a thread, with its author as they were when it was written.
#[derive(Debug, Clone, PartialEq, Eq)]
pub struct ContentNote {
    pub created_at: Timestamp,
    pub created_by: i64,
    pub created_by_name: String,
    pub content: String,
}

/// Kind of a thread, fixed when it is created.
#[derive(Debug, Clone, Copy, PartialEq, Eq, Structural)]
pub enum NoteType {
    Informational,
    Warning,
    Removal,
    Blacklist,
}

/// Address of the thread about `pid` created in second `secs`.
pub open spec fn note_id(pid: int, secs: int) -> (Table, Seq<char>) {
    (Table::Note, note_key_text(pid, secs))
}

/// Address under which thread `n` is stored.
pub open spec fn thread_id(n: Note) -> (Table, Seq<char>) {
    note_id(n.pid as int, n.created_at.secs as int)
}

/// The entry that `creator` writes with text `content` at instant `at`.
pub open spec fn entry(creator: User, content: String, at: Timestamp) -> ContentNote {
    ContentNote { created_at: at, created_by: creator.pid, created_by_name: creator.name, content }
}

/// `n` is a fresh thread about `subject`, created at `at` and holding the
/// one entry of `creator`.
pub open spec fn seeded(
    n: Note,
    creator: User,
    subject: User,
    note_type: NoteType,
    content: String,
    at: Timestamp,
) -> bool {
    &&& n.pid == subject.pid
    &&& n.created_at == at
    &&& n.note_type == note_type
    &&& n.notes@ == seq![entry(creator, content, at)]
}

/// `a` stores a fresh thread as `seeded` describes, under its address.
pub open spec fn creates_thread(
    a: StoreAction,
    creator: User,
    subject: User,
    note_type: NoteType,
    content: String,
    at: Timestamp,
) -> bool {
    match a {
        StoreAction::Create { id, content: Content::Note(n) } => id@ == note_id(
            subject.pid as int,
            at.secs as int,
        ) && seeded(n, creator, subject, note_type, content, at),
        _ => false,
    }
}

/// `a` reads the thread about `pid` created in second `secs`.
pub open spec fn reads_thread(a: StoreAction, pid: int, secs: int) -> bool {
    match a {
        StoreAction::Select { id } => id@ == note_id(pid, secs),
        _ => false,
    }
}

/// `new` is thread `old` with entry `e` added at the end.
pub open spec fn extended(new: Note, old: Note, e: ContentNote) -> bool {
    &&& new.pid == old.pid
    &&& new.created_at == old.created_at
    &&& new.note_type == old.note_type
    &&& new.notes@ == old.notes@.push(e)
}

/// `a` writes `note`, with the entry of `creator` at `at` added, back over
/// the whole document at the thread's address.
pub open spec fn appends(a: StoreAction, note: Note, creator: User, content: String, at: Timestamp) -> bool {
    match a {
        StoreAction::Replace { id, content: Content::Note(n) } => id@ == thread_id(note) && extended(
            n,
            note,
            entry(creator, content, at),
        ),
        _ => false,
    }
}

/// Some entry of `notes` was written at exactly `date`.
pub open spec fn has_entry_at(notes: Seq<ContentNote>, date: Timestamp) -> bool {
    exists|i: int| 0 <= i < notes.len() && #[trigger] notes[i].created_at == date
}

/// `i` is the first entry of `notes` written at exactly `date`.
pub open spec fn first_entry_at(notes: Seq<ContentNote>, date: Timestamp, i: int) -> bool {
    &&& 0 <= i < notes.len()
    &&& notes[i].created_at == date
    &&& forall|j: int| 0 <= j < i ==> #[trigger] notes[j].created_at != date
}

/// Entry `e` with its text replaced by `content`.
pub open spec fn with_content(e: ContentNote, content: String) -> ContentNote {
    ContentNote { content, ..e }
}

/// `a` writes `note` back at its address with the text of entry `i` replaced.
pub open spec fn rewrites(a: StoreAction, note: Note, i: int, content: String) -> bool {
    match a {
        StoreAction::Replace { id, content: Content::Note(n) } => {
            &&& id@ == thread_id(note)
            &&& n.pid == note.pid
            &&& n.created_at == note.created_at
            &&& n.note_type == note.note_type
            &&& n.notes@ == note.notes@.update(i, with_content(note.notes@[i], content))
        },
        _ => false,
    }
}

fn note_record(pid: i64, at: Timestamp) -> (r: RecordId)
    ensures
        r@ == note_id(pid as int, at.secs as int),
{
    RecordId { table: Table::Note, key: note_key(pid, at.timestamp()) }
}

fn new_entry(creator: User, content: String, at: Timestamp) -> (r: ContentNote)
    ensures
        r == entry(creator, content, at),
{
    ContentNote { created_at: at, created_by: creator.pid, created_by_name: creator.name, content }
}

/// Operations of the note ledger.
pub struct NoteMac;

impl NoteMac {
    /// Starts a thread about `user` at instant `at`, holding one entry by
    /// `creator`. It is stored under the subject's pid and the whole second
    /// of `at`: a thread created in the same second replaces it.
    pub fn create_at(
        token: Option<String>,
        creator: User,
        user: User,
        note_type: NoteType,
        content: String,
        at: Timestamp,
    ) -> (r: Result<StoreRequest, Error>)
        ensures
            sent_with(r, token),
            r is Ok ==> creates_thread(r->Ok_0.action, creator, user, note_type, content, at),
    {
        let t = with_token(token)?;
        let e = new_entry(creator, content, at);
        let mut notes: Vec<ContentNote> = Vec::new();
        notes.push(e);
        assert(notes@ =~= seq![e]);
        let note = Note { pid: user.pid, created_at: at, note_type, notes };
        let action = StoreAction::Create { id: note_record(user.pid, at), content: Content::Note(note) };
        Ok(StoreRequest { token: t, action })
    }

    /// `create_at` at the current instant.
    pub fn create(
        token: Option<String>,
        creator: User,
        user: User,
        note_type: NoteType,
        content: String,
    ) -> (r: Result<StoreRequest, Error>)
        ensures
            sent_with(r, token),
            r is Ok ==> exists|at: Timestamp|
                at.wf() && creates_thread(r->Ok_0.action, creator, user, note_type, content, at),
    {
        let at = now();
        Self::create_at(token, creator, user, note_type, content, at)
    }

    /// Adds an entry by `creator` written at `at` to the end of `note`, and
    /// writes the whole thread back at its address. `user` is the thread's
    /// subject; the address is taken from the thread itself.
    pub fn add_at(
        token: Option<String>,
        creator: User,
        user: User,
        note: Note,
        content: String,
        at: Timestamp,
    ) -> (r: Result<StoreRequest, Error>)
        ensures
            sent_with(r, token),
            r is Ok ==> appends(r->Ok_0.action, note, creator, content, at),
    {
        let t = with_token(token)?;
        let ghost before = note;
        let mut note = note;
        let id = note_record(note.pid, note.created_at);
        note.notes.push(new_entry(creator, content, at));
        let action = StoreAction::Replace { id, content: Content::Note(note) };
        assert(appends(action, before, creator, content, at));
        Ok(StoreRequest { token: t, action })
    }

    /// `add_at` at the current instant.
    pub fn add(
        token: Option<String>,
        creator: User,
        user: User,
        note: Note,
        content: String,
    ) -> (r: Result<StoreRequest, Error>)
        ensures
            sent_with(r, token),
            r is Ok ==> exists|at: Timestamp|
                at.wf() && appends(r->Ok_0.action, note, creator, content, at),
    {
        let at = now();
        Self::add_at(token, creator, user, note, content, at)
    }

    /// Reads the thread about `pid` created at `date` (only its whole second
    /// counts); see `found` for the reply.
    pub fn fetch_one(token: Option<String>, pid: i64, date: Timestamp) -> (r: Result<
        StoreRequest,
        Error,
    >)
        ensures
            sent_with(r, token),
            r is Ok ==> reads_thread(r->Ok_0.action, pid as int, date.secs as int),
    {
        let t = with_token(token)?;
        Ok(StoreRequest { token: t, action: StoreAction::Select { id: note_record(pid, date) } })
    }

    /// Reads every thread about `pid`, in an order the store chooses.
    pub fn fetch_all(token: Option<String>, pid: i64) -> (r: Result<StoreRequest, Error>)
        ensures
            sent_with(r, token),
            r is Ok ==> r->Ok_0.action == (StoreAction::SelectNotesOf { pid }),
    {
        let t = with_token(token)?;
        Ok(StoreRequest { token: t, action: StoreAction::SelectNotesOf { pid } })
    }

    /// Replaces the text of the first entry of `note` written at exactly
    /// `date`, and writes the whole thread back at its address. Fails with
    /// `NotFound` when no entry was written at `date`. `creator` is the
    /// staff member making the change; the entry keeps its author.
    pub fn edit(
        token: Option<String>,
        creator: User,
        date: Timestamp,
        note: Note,
        content: String,
    ) -> (r: Result<StoreRequest, Error>)
        ensures
            token is None ==> r == Err::<StoreRequest, Error>(Error::MissingToken),
            token is Some && !has_entry_at(note.notes@, date) ==> r == Err::<StoreRequest, Error>(
                Error::NotFound,
            ),
            token is Some && has_entry_at(note.notes@, date) ==> {
                &&& r is Ok
                &&& r->Ok_0.token@ == token->Some_0@
                &&& exists|i: int|
                    first_entry_at(note.notes@, date, i) && rewrites(
                        r->Ok_0.action,
                        note,
                        i,
                        content,
                    )
            },
    {
        let t = with_token(token)?;
        let mut i: usize = 0;
        while i < note.notes.len() && note.notes[i].created_at != date
            invariant
                0 <= i <= note.notes@.len(),
                forall|j: int| 0 <= j < i ==> #[trigger] note.notes@[j].created_at != date,
            decreases note.notes@.len() - i,
        {
            i = i + 1;
        }
        if i == note.notes.len() {
            return Err(Error::NotFound);
        }
        let ghost before = note;
        let mut note = note;
        let old_entry = &note.notes[i];
        let e = ContentNote {
            created_at: old_entry.created_at,
            created_by: old_entry.created_by,
            created_by_name: old_entry.created_by_name.clone(),
            content,
        };
        assert(e == with_content(before.notes@[i as int], content));
        let id = note_record(note.pid, note.created_at);
        note.notes.set(i, e);
        let action = StoreAction::Replace { id, content: Content::Note(note) };
        assert(first_entry_at(before.notes@, date, i as int));
        assert(rewrites(action, before, i as int, content));
        Ok(StoreRequest { token: t, action })
    }

    /// The store's answer to a read of one thread: the thread, or `NotFound`
    /// when there was none.
    pub fn found(reply: Option<Note>) -> (r: Result<Note, Error>)
        ensures
            match reply {
                Some(n) => r == Ok::<Note, Error>(n),
                None => r == Err::<Note, Error>(Error::NotFound),
            },
    {
        match reply {
            Some(n) => Ok(n),
            None => Err(Error::NotFound),
        }
    }
}

} // verus!
