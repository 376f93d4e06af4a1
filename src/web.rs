//! How failures are reported to HTTP clients: a coarse category tag.
use vstd::prelude::*;
use crate::error::Error;

verus! {

/// A failure as reported to a client: its category tag and a description.
#[derive(Debug, Clone, PartialEq, Eq)]
pub struct WebErrorMessage {
    pub typ: String,
    pub message: String,
}

/// Category tag of each failure: the web layer's own (a missing token), the
/// session layer's, or the model's. A request value that could not be read
/// has no tag.
pub open spec fn category_text(e: Error) -> Option<Seq<char>> {
    match e {
        Error::MissingToken => Some("WebError"@),
        Error::AuthenticationRejected => Some("SecurityError"@),
        Error::NotFound => Some("ModelError"@),
        Error::Store => Some("ModelError"@),
        Error::Validation => None,
    }
}

/// What a client is told when a failure carries no tag.
pub open spec fn unknown_text() -> Seq<char> {
    "Unknown error"@
}

impl WebErrorMessage {
    /// The report of `err`, described by `message`; none for an untagged
    /// failure.
    pub fn rejection(err: Error, message: String) -> (r: Option<WebErrorMessage>)
        ensures
            match category_text(err) {
                Some(c) => r is Some && r->Some_0.typ@ == c && r->Some_0.message == message,
                None => r is None,
            },
    {
        proof {
            reveal_strlit("WebError");
            reveal_strlit("SecurityError");
            reveal_strlit("ModelError");
        }
        let typ = match err {
            Error::MissingToken => "WebError".to_owned(),
            Error::AuthenticationRejected => "SecurityError".to_owned(),
            Error::NotFound => "ModelError".to_owned(),
            Error::Store => "ModelError".to_owned(),
            Error::Validation => {
                return None;
            },
        };
        Some(WebErrorMessage { typ, message })
    }
}

/// Text sent back for a failed request: the tag of its report, or
/// "Unknown error" when it has none.
pub fn user_message(report: Option<&WebErrorMessage>) -> (r: String)
    ensures
        match report {
            Some(m) => r@ == m.typ@,
            None => r@ == unknown_text(),
        },
{
    proof {
        reveal_strlit("Unknown error");
    }
    match report {
        Some(m) => m.typ.clone(),
        None => "Unknown error".to_owned(),
    }
}

} // verus!
