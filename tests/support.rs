use std::collections::HashMap;

use backend::error::Error;
use backend::key::{int_key, note_key};
use backend::note::{ContentNote, Note, NoteMac, NoteType};
use backend::security::{do_auth, with_token};
use backend::store::{Content, RecordId, StoreAction, StoreRequest, Table};
use backend::time::Timestamp;
use backend::user::{SupportTeamRank, User, UserMac};
use backend::web::{user_message, WebErrorMessage};

/// A document store in memory, doing with each action what the database does.
struct MemStore {
    docs: HashMap<(Table, String), Content>,
}

impl MemStore {
    fn new() -> Self {
        MemStore { docs: HashMap::new() }
    }

    fn run(&mut self, req: StoreRequest) -> Vec<Content> {
        assert!(!req.token.is_empty());
        match req.action {
            StoreAction::Create { id, content } | StoreAction::Replace { id, content } => {
                self.docs.insert((id.table, id.key), content.clone());
                vec![content]
            }
            StoreAction::Select { id } => self.docs.get(&(id.table, id.key)).cloned().into_iter().collect(),
            StoreAction::SelectAll { table } => {
                self.docs.iter().filter(|(k, _)| k.0 == table).map(|(_, v)| v.clone()).collect()
            }
            StoreAction::SelectNotesOf { pid } => self
                .docs
                .values()
                .filter(|v| matches!(v, Content::Note(n) if n.pid == pid))
                .cloned()
                .collect(),
            StoreAction::SetRank { id, rank } => match self.docs.get_mut(&(id.table, id.key)) {
                Some(Content::User(u)) => {
                    u.rank = rank;
                    vec![Content::User(u.clone())]
                }
                _ => vec![],
            },
            StoreAction::SetName { id, name } => match self.docs.get_mut(&(id.table, id.key)) {
                Some(Content::User(u)) => {
                    u.name = name;
                    vec![Content::User(u.clone())]
                }
                _ => vec![],
            },
            StoreAction::Delete { id } => self.docs.remove(&(id.table, id.key)).into_iter().collect(),
        }
    }
}

fn tok() -> Option<String> {
    Some("session-token".to_string())
}

fn user(pid: i64, name: &str, rank: SupportTeamRank) -> User {
    User { pid, name: name.to_string(), rank }
}

fn at(secs: i64, nanos: u32) -> Timestamp {
    Timestamp { secs, nanos }
}

fn one_user(reply: Vec<Content>) -> Option<User> {
    match reply.into_iter().next() {
        Some(Content::User(u)) => Some(u),
        _ => None,
    }
}

fn one_note(reply: Vec<Content>) -> Option<Note> {
    match reply.into_iter().next() {
        Some(Content::Note(n)) => Some(n),
        _ => None,
    }
}

fn contents(n: &Note) -> Vec<String> {
    n.notes.iter().map(|e| e.content.clone()).collect()
}

#[test]
fn int_key_renders_decimal() {
    assert_eq!(int_key(0), "0");
    assert_eq!(int_key(7), "7");
    assert_eq!(int_key(1234567890), "1234567890");
    assert_eq!(int_key(-42), "-42");
    assert_eq!(int_key(i64::MAX), "9223372036854775807");
    assert_eq!(int_key(i64::MIN), "-9223372036854775808");
}

#[test]
fn note_key_joins_pid_and_seconds() {
    assert_eq!(note_key(7, 1700000000), "7-1700000000");
    assert_eq!(note_key(-3, -5), "-3--5");
    assert_eq!(note_key(10, 0), "10-0");
}

#[test]
fn timestamp_keeps_whole_seconds() {
    assert_eq!(at(1700000000, 999_999_999).timestamp(), 1700000000);
}

#[test]
fn user_create_then_fetch_round_trip() {
    let mut db = MemStore::new();
    let u = user(5, "Ada", SupportTeamRank::SeniorSupportTeam);
    let req = UserMac::create(tok(), &u).unwrap();
    assert_eq!(
        req.action,
        StoreAction::Create {
            id: RecordId { table: Table::User, key: "5".to_string() },
            content: Content::User(u.clone()),
        }
    );
    assert_eq!(req.token, "session-token");
    db.run(req);
    let got = UserMac::found(one_user(db.run(UserMac::fetch_one(tok(), 5).unwrap()))).unwrap();
    assert_eq!(got.name, "Ada");
    assert_eq!(got.rank, SupportTeamRank::SeniorSupportTeam);
    assert_eq!(got, u);
}

#[test]
fn user_fetch_missing_is_not_found() {
    let mut db = MemStore::new();
    let reply = one_user(db.run(UserMac::fetch_one(tok(), 99).unwrap()));
    assert_eq!(UserMac::found(reply), Err(Error::NotFound));
}

#[test]
fn user_updates_change_one_field() {
    let mut db = MemStore::new();
    db.run(UserMac::create(tok(), &user(8, "Bo", SupportTeamRank::NoWhiteList)).unwrap());
    let req = UserMac::update_rank(tok(), &SupportTeamRank::LeadSupportTeam, 8).unwrap();
    assert_eq!(
        req.action,
        StoreAction::SetRank {
            id: RecordId { table: Table::User, key: "8".to_string() },
            rank: SupportTeamRank::LeadSupportTeam,
        }
    );
    db.run(req);
    db.run(UserMac::update_name(tok(), "Bob", 8).unwrap());
    let got = UserMac::found(one_user(db.run(UserMac::fetch_one(tok(), 8).unwrap()))).unwrap();
    assert_eq!(got, user(8, "Bob", SupportTeamRank::LeadSupportTeam));
}

#[test]
fn user_fetch_all_and_remove() {
    let mut db = MemStore::new();
    db.run(UserMac::create(tok(), &user(1, "A", SupportTeamRank::SupportTeam1)).unwrap());
    db.run(UserMac::create(tok(), &user(2, "B", SupportTeamRank::SupportTeam2)).unwrap());
    let all = UserMac::fetch_all(tok()).unwrap();
    assert_eq!(all.action, StoreAction::SelectAll { table: Table::User });
    assert_eq!(db.run(all).len(), 2);
    let removed = one_user(db.run(UserMac::remove(tok(), 1).unwrap()));
    assert_eq!(UserMac::found(removed).unwrap().name, "A");
    let again = one_user(db.run(UserMac::remove(tok(), 1).unwrap()));
    assert_eq!(UserMac::found(again), Err(Error::NotFound));
    assert_eq!(db.run(UserMac::fetch_all(tok()).unwrap()).len(), 1);
}

#[test]
fn every_operation_without_token_is_missing_token() {
    let u = user(1, "A", SupportTeamRank::SupportTeam3);
    let n = seeded_note();
    let m = Err(Error::MissingToken);
    assert_eq!(UserMac::create(None, &u), m);
    assert_eq!(UserMac::fetch_one(None, 1), m);
    assert_eq!(UserMac::fetch_all(None), m);
    assert_eq!(UserMac::update_rank(None, &SupportTeamRank::SupportTeam4, 1), m);
    assert_eq!(UserMac::update_name(None, "x", 1), m);
    assert_eq!(UserMac::remove(None, 1), m);
    assert_eq!(NoteMac::create_at(None, u.clone(), u.clone(), NoteType::Warning, "c".to_string(), at(1, 0)), m);
    assert_eq!(NoteMac::create(None, u.clone(), u.clone(), NoteType::Warning, "c".to_string()), m);
    assert_eq!(NoteMac::add_at(None, u.clone(), u.clone(), n.clone(), "c".to_string(), at(2, 0)), m);
    assert_eq!(NoteMac::add(None, u.clone(), u.clone(), n.clone(), "c".to_string()), m);
    assert_eq!(NoteMac::fetch_one(None, 1, at(1, 0)), m);
    assert_eq!(NoteMac::fetch_all(None, 1), m);
    assert_eq!(NoteMac::edit(None, u.clone(), at(1, 0), n, "c".to_string()), m);
}

fn staff() -> User {
    user(100, "Staff", SupportTeamRank::SupportTeam2)
}

fn subject() -> User {
    user(7, "Subject", SupportTeamRank::NoWhiteList)
}

fn seeded_note() -> Note {
    Note {
        pid: 7,
        created_at: at(1700000000, 5),
        note_type: NoteType::Informational,
        notes: vec![ContentNote {
            created_at: at(1700000000, 5),
            created_by: 100,
            created_by_name: "Staff".to_string(),
            content: "first".to_string(),
        }],
    }
}

#[test]
fn note_create_seeds_one_entry() {
    let req = NoteMac::create_at(tok(), staff(), subject(), NoteType::Informational, "first".to_string(), at(1700000000, 5))
        .unwrap();
    assert_eq!(
        req.action,
        StoreAction::Create {
            id: RecordId { table: Table::Note, key: "7-1700000000".to_string() },
            content: Content::Note(seeded_note()),
        }
    );
}

#[test]
fn note_create_now_uses_current_second() {
    let req = NoteMac::create(tok(), staff(), subject(), NoteType::Warning, "hello".to_string()).unwrap();
    match req.action {
        StoreAction::Create { id, content: Content::Note(n) } => {
            assert_eq!(id.table, Table::Note);
            assert_eq!(id.key, format!("7-{}", n.created_at.secs));
            assert!(n.created_at.secs > 1_600_000_000);
            assert_eq!(n.notes.len(), 1);
            assert_eq!(n.notes[0].created_at, n.created_at);
            assert_eq!(n.notes[0].content, "hello");
            assert_eq!(n.note_type, NoteType::Warning);
        }
        other => panic!("unexpected action {:?}", other),
    }
}

#[test]
fn add_twice_keeps_order() {
    let mut db = MemStore::new();
    db.run(NoteMac::create_at(tok(), staff(), subject(), NoteType::Informational, "first".to_string(), at(1700000000, 5)).unwrap());
    let n0 = NoteMac::found(one_note(db.run(NoteMac::fetch_one(tok(), 7, at(1700000000, 5)).unwrap()))).unwrap();
    let writer = user(200, "Other", SupportTeamRank::SupportTeam1);
    let n1 = one_note(db.run(NoteMac::add_at(tok(), staff(), subject(), n0, "C1".to_string(), at(1700000100, 0)).unwrap())).unwrap();
    db.run(NoteMac::add_at(tok(), writer, subject(), n1, "C2".to_string(), at(1700000200, 0)).unwrap());
    let got = NoteMac::found(one_note(db.run(NoteMac::fetch_one(tok(), 7, at(1700000000, 999)).unwrap()))).unwrap();
    assert_eq!(contents(&got), vec!["first", "C1", "C2"]);
    assert_eq!(got.notes[2].created_by, 200);
    assert_eq!(got.notes[2].created_by_name, "Other");
    assert_eq!(got.notes[1].created_at, at(1700000100, 0));
    assert_eq!(got.created_at, at(1700000000, 5));
}

#[test]
fn add_now_appends_at_end() {
    let req = NoteMac::add(tok(), staff(), subject(), seeded_note(), "later".to_string()).unwrap();
    match req.action {
        StoreAction::Replace { id, content: Content::Note(n) } => {
            assert_eq!(id.key, "7-1700000000");
            assert_eq!(contents(&n), vec!["first", "later"]);
        }
        other => panic!("unexpected action {:?}", other),
    }
}

#[test]
fn same_second_notes_collide() {
    let mut db = MemStore::new();
    db.run(NoteMac::create_at(tok(), staff(), subject(), NoteType::Informational, "one".to_string(), at(1700000000, 1)).unwrap());
    db.run(NoteMac::create_at(tok(), staff(), subject(), NoteType::Warning, "two".to_string(), at(1700000000, 900)).unwrap());
    let got = NoteMac::found(one_note(db.run(NoteMac::fetch_one(tok(), 7, at(1700000000, 1)).unwrap()))).unwrap();
    assert_eq!(contents(&got), vec!["two"]);
    assert_eq!(got.note_type, NoteType::Warning);
    assert_eq!(db.run(NoteMac::fetch_all(tok(), 7).unwrap()).len(), 1);
}

#[test]
fn edit_replaces_first_matching_entry() {
    let mut n = seeded_note();
    n.notes.push(ContentNote {
        created_at: at(1700000100, 0),
        created_by: 200,
        created_by_name: "Other".to_string(),
        content: "second".to_string(),
    });
    let req = NoteMac::edit(tok(), staff(), at(1700000100, 0), n, "fixed".to_string()).unwrap();
    match req.action {
        StoreAction::Replace { id, content: Content::Note(out) } => {
            assert_eq!(id.key, "7-1700000000");
            assert_eq!(contents(&out), vec!["first", "fixed"]);
            assert_eq!(out.notes[1].created_by, 200);
            assert_eq!(out.notes[1].created_by_name, "Other");
        }
        other => panic!("unexpected action {:?}", other),
    }
}

#[test]
fn edit_without_match_is_not_found() {
    let r = NoteMac::edit(tok(), staff(), at(1700000000, 6), seeded_note(), "x".to_string());
    assert_eq!(r, Err(Error::NotFound));
}

#[test]
fn fetch_all_for_subject_without_notes_is_empty() {
    let mut db = MemStore::new();
    db.run(NoteMac::create_at(tok(), staff(), subject(), NoteType::Informational, "one".to_string(), at(5, 0)).unwrap());
    let req = NoteMac::fetch_all(tok(), 8).unwrap();
    assert_eq!(req.action, StoreAction::SelectNotesOf { pid: 8 });
    assert!(db.run(req).is_empty());
}

#[test]
fn note_fetch_missing_is_not_found() {
    assert_eq!(NoteMac::found(None), Err(Error::NotFound));
}

#[test]
fn token_gate_and_auth_outcome() {
    assert_eq!(with_token(None), Err(Error::MissingToken));
    assert_eq!(with_token(Some("abc".to_string())), Ok("abc".to_string()));
    assert_eq!(do_auth("abc".to_string(), true), Ok("abc".to_string()));
    assert_eq!(do_auth("abc".to_string(), false), Err(Error::AuthenticationRejected));
}

#[test]
fn failures_map_to_categories() {
    let cat = |e: Error| WebErrorMessage::rejection(e, "m".to_string()).map(|w| w.typ);
    assert_eq!(cat(Error::MissingToken).as_deref(), Some("WebError"));
    assert_eq!(cat(Error::AuthenticationRejected).as_deref(), Some("SecurityError"));
    assert_eq!(cat(Error::NotFound).as_deref(), Some("ModelError"));
    assert_eq!(cat(Error::Store).as_deref(), Some("ModelError"));
    assert_eq!(cat(Error::Validation), None);
    let w = WebErrorMessage::rejection(Error::NotFound, "gone".to_string()).unwrap();
    assert_eq!(w.message, "gone");
    assert_eq!(user_message(Some(&w)), "ModelError");
    assert_eq!(user_message(None), "Unknown error");
}
