//! The user directory: user records keyed by their person id.
use vstd::prelude::*;
use crate::error::Error;
use crate::key::{int_key, int_text};
use crate::security::{sent_with, with_token};
use crate::store::{Content, RecordId, StoreAction, StoreRequest, Table};

verus! {

/// A user: person id (chosen by the caller), display name, support rank.
#[derive(Debug, Clone, PartialEq, Eq)]
pub struct User {
    pub pid: i64,
    pub name: String,
    pub rank: SupportTeamRank,
}

/// Support tiers, lowest first. Used as a label only.
#[derive(Debug, Clone, Copy, PartialEq, Eq, Structural)]
pub enum SupportTeamRank {
    NoWhiteList,
    SupportTeam1,
    SupportTeam2,
    SupportTeam3,
    SupportTeam4,
    SeniorSupportTeam,
    LeadSupportTeam,
}

impl User {
    /// An equal, separately owned user.
    pub fn duplicate(&self) -> (r: User)
        ensures
            r == *self,
    {
        User { pid: self.pid, name: self.name.clone(), rank: self.rank }
    }
}

/// Address of the record of user `pid`.
pub open spec fn user_id(pid: int) -> (Table, Seq<char>) {
    (Table::User, int_text(pid))
}

fn user_record(pid: i64) -> (r: RecordId)
    ensures
        r@ == user_id(pid as int),
{
    RecordId { table: Table::User, key: int_key(pid) }
}

/// `a` stores `data` under the address of its pid.
pub open spec fn stores_user(a: StoreAction, data: User) -> bool {
    match a {
        StoreAction::Create { id, content } => id@ == user_id(data.pid as int) && content
            == Content::User(data),
        _ => false,
    }
}

/// `a` reads the record of user `pid`.
pub open spec fn reads_user(a: StoreAction, pid: int) -> bool {
    match a {
        StoreAction::Select { id } => id@ == user_id(pid),
        _ => false,
    }
}

/// `a` sets the rank of user `pid` to `rank`.
pub open spec fn sets_rank(a: StoreAction, pid: int, rank: SupportTeamRank) -> bool {
    match a {
        StoreAction::SetRank { id, rank: r } => id@ == user_id(pid) && r == rank,
        _ => false,
    }
}

/// `a` sets the name of user `pid` to `name`.
pub open spec fn sets_name(a: StoreAction, pid: int, name: Seq<char>) -> bool {
    match a {
        StoreAction::SetName { id, name: n } => id@ == user_id(pid) && n@ == name,
        _ => false,
    }
}

/// `a` deletes the record of user `pid`.
pub open spec fn deletes_user(a: StoreAction, pid: int) -> bool {
    match a {
        StoreAction::Delete { id } => id@ == user_id(pid),
        _ => false,
    }
}

/// Operations of the user directory.
pub struct UserMac;

impl UserMac {
    /// Stores `data` under its pid. No uniqueness check is made here: what
    /// happens to a record already under that pid is up to the store.
    pub fn create(token: Option<String>, data: &User) -> (r: Result<StoreRequest, Error>)
        ensures
            sent_with(r, token),
            r is Ok ==> stores_user(r->Ok_0.action, *data),
    {
        let t = with_token(token)?;
        let action = StoreAction::Create {
            id: user_record(data.pid),
            content: Content::User(data.duplicate()),
        };
        Ok(StoreRequest { token: t, action })
    }

    /// Reads the record of user `pid`; see `found` for the reply.
    pub fn fetch_one(token: Option<String>, pid: i64) -> (r: Result<StoreRequest, Error>)
        ensures
            sent_with(r, token),
            r is Ok ==> reads_user(r->Ok_0.action, pid as int),
    {
        let t = with_token(token)?;
        Ok(StoreRequest { token: t, action: StoreAction::Select { id: user_record(pid) } })
    }

    /// Reads every user record, in an order the store chooses.
    pub fn fetch_all(token: Option<String>) -> (r: Result<StoreRequest, Error>)
        ensures
            sent_with(r, token),
            r is Ok ==> r->Ok_0.action == (StoreAction::SelectAll { table: Table::User }),
    {
        let t = with_token(token)?;
        Ok(StoreRequest { token: t, action: StoreAction::SelectAll { table: Table::User } })
    }

    /// Sets the rank of user `pid`, and nothing else. The updated record is
    /// read back afterwards with `fetch_one`.
    pub fn update_rank(token: Option<String>, new_rank: &SupportTeamRank, pid: i64) -> (r: Result<
        StoreRequest,
        Error,
    >)
        ensures
            sent_with(r, token),
            r is Ok ==> sets_rank(r->Ok_0.action, pid as int, *new_rank),
    {
        let t = with_token(token)?;
        Ok(StoreRequest { token: t, action: StoreAction::SetRank { id: user_record(pid), rank: *new_rank } })
    }

    /// Sets the name of user `pid`, and nothing else. The updated record is
    /// read back afterwards with `fetch_one`.
    pub fn update_name(token: Option<String>, new_name: &str, pid: i64) -> (r: Result<StoreRequest, Error>)
        ensures
            sent_with(r, token),
            r is Ok ==> sets_name(r->Ok_0.action, pid as int, new_name@),
    {
        let t = with_token(token)?;
        let name = new_name.to_owned();
        Ok(StoreRequest { token: t, action: StoreAction::SetName { id: user_record(pid), name } })
    }

    /// Deletes the record of user `pid`; the store answers with its last value.
    pub fn remove(token: Option<String>, pid: i64) -> (r: Result<StoreRequest, Error>)
        ensures
            sent_with(r, token),
            r is Ok ==> deletes_user(r->Ok_0.action, pid as int),
    {
        let t = with_token(token)?;
        Ok(StoreRequest { token: t, action: StoreAction::Delete { id: user_record(pid) } })
    }

    /// The store's answer to a read or delete of one user: the record, or
    /// `NotFound` when there was none.
    pub fn found(reply: Option<User>) -> (r: Result<User, Error>)
        ensures
            match reply {
                Some(u) => r == Ok::<User, Error>(u),
                None => r == Err::<User, Error>(Error::NotFound),
            },
    {
        match reply {
            Some(u) => Ok(u),
            None => Err(Error::NotFound),
        }
    }
}

} // verus!
