//! Laws relating the operations, over the model of the store in `store`.
use vstd::prelude::*;
use crate::note::{appends, creates_thread, entry, reads_thread, thread_id, Note, NoteType};
use crate::store::{apply, answers_notes_of, holds_note, read, written_note, Content, Store, StoreAction};
use crate::time::Timestamp;
use crate::user::{
    deletes_user, reads_user, sets_name, sets_rank, stores_user, user_id, SupportTeamRank, User,
};

verus! {

/// Creating a user and then reading its pid gives back the same record,
/// with the same name and rank, whatever the store held before.
pub proof fn lemma_user_round_trip(s: Store, data: User, create: StoreAction, fetch: StoreAction)
    requires
        stores_user(create, data),
        reads_user(fetch, data.pid as int),
    ensures
        read(apply(s, create), fetch) == Some(Content::User(data)),
{
}

/// Setting the rank of a stored user and reading it back gives the same
/// record with only the rank changed.
pub proof fn lemma_rank_update_read_back(
    s: Store,
    u: User,
    rank: SupportTeamRank,
    update: StoreAction,
    fetch: StoreAction,
)
    requires
        s.get(user_id(u.pid as int)) == Some(Content::User(u)),
        sets_rank(update, u.pid as int, rank),
        reads_user(fetch, u.pid as int),
    ensures
        read(apply(s, update), fetch) == Some(Content::User(User { rank, ..u })),
{
}

/// Setting the name of a stored user and reading it back gives the same
/// record with only the name changed.
pub proof fn lemma_name_update_read_back(
    s: Store,
    u: User,
    name: String,
    update: StoreAction,
    fetch: StoreAction,
)
    requires
        s.get(user_id(u.pid as int)) == Some(Content::User(u)),
        sets_name(update, u.pid as int, name@),
        reads_user(fetch, u.pid as int),
    ensures
        match read(apply(s, update), fetch) {
            Some(Content::User(v)) => v.pid == u.pid && v.rank == u.rank && v.name@ == name@,
            _ => false,
        },
{
}

/// After a user is removed, reading its pid finds nothing.
pub proof fn lemma_removed_user_gone(s: Store, pid: int, remove: StoreAction, fetch: StoreAction)
    requires
        deletes_user(remove, pid),
        reads_user(fetch, pid),
    ensures
        read(apply(s, remove), fetch) is None,
{
}

/// Two appends to a thread, of `c1` and then of `c2`, leave at the thread's
/// address every earlier entry in its place, followed by the entry of `c1`
/// and then the entry of `c2`.
pub proof fn lemma_append_preserved(
    s: Store,
    note: Note,
    creator: User,
    c1: String,
    t1: Timestamp,
    c2: String,
    t2: Timestamp,
    first: StoreAction,
    second: StoreAction,
    fetch: StoreAction,
)
    requires
        appends(first, note, creator, c1, t1),
        appends(second, written_note(first)->Some_0, creator, c2, t2),
        reads_thread(fetch, note.pid as int, note.created_at.secs as int),
    ensures
        read(apply(apply(s, first), second), fetch) == Some(Content::Note(written_note(second)->Some_0)),
        written_note(second)->Some_0.notes@ == note.notes@ + seq![entry(creator, c1, t1), entry(creator, c2, t2)],
{
    let n1 = written_note(first)->Some_0;
    let n2 = written_note(second)->Some_0;
    assert(thread_id(n1) == thread_id(note));
    assert(n2.notes@ =~= note.notes@ + seq![entry(creator, c1, t1), entry(creator, c2, t2)]);
}

/// Two threads about the same subject created within the same second share
/// one address: afterwards a read of that address finds the second.
pub proof fn lemma_same_second_collision(
    s: Store,
    subject: User,
    creator1: User,
    type1: NoteType,
    c1: String,
    at1: Timestamp,
    subject2: User,
    creator2: User,
    type2: NoteType,
    c2: String,
    at2: Timestamp,
    first: StoreAction,
    second: StoreAction,
    fetch: StoreAction,
)
    requires
        subject2.pid == subject.pid,
        at2.secs == at1.secs,
        creates_thread(first, creator1, subject, type1, c1, at1),
        creates_thread(second, creator2, subject2, type2, c2, at2),
        reads_thread(fetch, subject.pid as int, at1.secs as int),
    ensures
        read(apply(apply(s, first), second), fetch) == Some(Content::Note(written_note(second)->Some_0)),
{
}

/// Listing the threads of a subject that has none gives an empty answer.
pub proof fn lemma_no_threads_empty(s: Store, pid: int, rows: Seq<Note>)
    requires
        forall|n: Note| !holds_note(s, pid, n),
        answers_notes_of(s, pid, rows),
    ensures
        rows.len() == 0,
{
    if rows.len() > 0 {
        assert(holds_note(s, pid, rows[0]));
    }
}

} // verus!
