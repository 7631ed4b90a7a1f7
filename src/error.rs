use vstd::prelude::*;
use crate::config::Setting;

verus! {

/// Everything that makes a GET or a POST fail. Each one reaches the caller
/// as an error envelope.
#[derive(Clone, Debug)]
pub enum HandlerError {
    /// A POST without a body.
    EmptyBody,
    /// A POST body that is not a message; the parser's description.
    MalformedBody(String),
    /// A required environment variable that is not set.
    MissingSetting(Setting),
    /// The database call failed; the client's description, passed on as it is.
    QueryFailed(String),
    /// The database answered without any record set.
    NoRecordSet,
    /// The row at this index does not decode as an addon.
    UndecodableRow(usize),
}

/// The description that an error carries to the caller.
pub open spec fn error_message(e: HandlerError) -> Seq<char> {
    match e {
        HandlerError::EmptyBody => "Empty body"@,
        HandlerError::MalformedBody(d) => "Malformed body: "@ + d@,
        HandlerError::MissingSetting(s) => "Missing environment variable "@ + s.spec_variable(),
        HandlerError::QueryFailed(d) => d@,
        HandlerError::NoRecordSet => "Query returned no record set"@,
        HandlerError::UndecodableRow(_) => "A row could not be decoded as an addon"@,
    }
}

impl HandlerError {
    pub fn message(&self) -> (r: String)
        ensures
            r@ == error_message(*self),
    {
        match self {
            HandlerError::EmptyBody => String::from_str("Empty body"),
            HandlerError::MalformedBody(d) => {
                let mut s = String::from_str("Malformed body: ");
                s.append(d.as_str());
                s
            },
            HandlerError::MissingSetting(setting) => {
                let mut s = String::from_str("Missing environment variable ");
                s.append(setting.variable());
                s
            },
            HandlerError::QueryFailed(d) => d.clone(),
            HandlerError::NoRecordSet => String::from_str("Query returned no record set"),
            HandlerError::UndecodableRow(_) => String::from_str(
                "A row could not be decoded as an addon",
            ),
        }
    }
}

/// The line written to the error log for a failed request: the error's
/// description, as the caller sees it.
pub fn log_error(error: &HandlerError) -> (line: String)
    ensures
        line@ == error_message(*error),
{
    error.message()
}

/// No error of the library's own has an empty description. A failed query
/// carries the database client's text unchanged, which may be empty.
pub proof fn lemma_error_message_not_empty(e: HandlerError)
    requires
        !(e is QueryFailed),
    ensures
        error_message(e).len() > 0,
{
    reveal_strlit("Empty body");
    reveal_strlit("Malformed body: ");
    reveal_strlit("Missing environment variable ");
    reveal_strlit("Query returned no record set");
    reveal_strlit("A row could not be decoded as an addon");
}

} // verus!
