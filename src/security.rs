//! The session gate: every operation needs a token, which the store checks.
use vstd::prelude::*;
use crate::error::Error;
use crate::store::StoreRequest;

verus! {

/// `r` is what an operation owes for `token`: `MissingToken` when there is
/// none, else a request made under exactly that token.
pub open spec fn sent_with(r: Result<StoreRequest, Error>, token: Option<String>) -> bool {
    match token {
        None => r == Err::<StoreRequest, Error>(Error::MissingToken),
        Some(t) => r is Ok && r->Ok_0.token@ == t@,
    }
}

/// Takes the token header of a request: `MissingToken` when it is absent,
/// before anything is sent to the store.
pub fn with_token(header: Option<String>) -> (r: Result<String, Error>)
    ensures
        header is None ==> r == Err::<String, Error>(Error::MissingToken),
        header is Some ==> r is Ok && r->Ok_0@ == header->Some_0@,
{
    match header {
        Some(t) => Ok(t),
        None => Err(Error::MissingToken),
    }
}

/// Outcome of forwarding `token` to the store's authentication: the same
/// token when the store `accepted` it, else `AuthenticationRejected`.
pub fn do_auth(token: String, accepted: bool) -> (r: Result<String, Error>)
    ensures
        accepted ==> r is Ok && r->Ok_0@ == token@,
        !accepted ==> r == Err::<String, Error>(Error::AuthenticationRejected),
{
    if accepted {
        Ok(token)
    } else {
        Err(Error::AuthenticationRejected)
    }
}

} // verus!

verus! {

/// Login of a database user, used to obtain a session token.
#[derive(Debug)]
pub struct Credentials<'a> {
    pub user: &'a str,
    pub pass: &'a str,
}

} // verus!
