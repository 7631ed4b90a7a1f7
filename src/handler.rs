use vstd::prelude::*;
use crate::config::{settings_result, Config};
use crate::error::{error_message, lemma_error_message_not_empty, HandlerError};
use crate::model::{Addon, AddonResponse, BadRequest, Message};
use crate::rows::{
    addons_from_positional, addons_from_typed, positional_addons, typed_addon, typed_addons,
    Column, MappingMode,
};

verus! {

/// The method of an incoming request, as far as the router tells them apart.
#[derive(Clone, Copy, Debug, PartialEq, Eq)]
pub enum Method {
    Get,
    Post,
    Other,
}

/// A POST body after the JSON parser has looked at it.
#[derive(Clone, Debug)]
pub enum Body {
    /// No body at all.
    Empty,
    /// A body that is not a message; the parser's description of why.
    Malformed(String),
    /// A body that holds a message.
    Parsed(Message),
}

/// What the database call of the catalog came back with.
#[derive(Clone, Debug)]
pub enum QueryOutcome {
    /// The call failed; the client's description.
    Failed(String),
    /// The call succeeded but carried no record set.
    NoRecordSet,
    /// The record set, one row of columns for each record; it may be empty.
    Records(Vec<Vec<Column>>),
}

/// What a request is answered with.
pub enum Response {
    Echo(Message),
    Catalog(AddonResponse),
    Error(BadRequest),
}

/// What the router does with a request.
pub enum Dispatch {
    /// Run the catalog query.
    Catalog,
    /// Echo the body.
    Echo,
    /// Answer at once, with nothing run.
    Reply(Response),
}

/// The envelope given for a method that is neither GET nor POST.
pub const INVALID_METHOD: &'static str = "Invalid method";

/// `r` is an error envelope with this description.
pub open spec fn is_error_envelope(r: Response, message: Seq<char>) -> bool {
    match r {
        Response::Error(b) => b.error@ == message,
        _ => false,
    }
}

/// `r` is what the router answers for a handler's result: the result itself
/// on success, the error's envelope on failure.
pub open spec fn answers(result: Result<Response, HandlerError>, r: Response) -> bool {
    match result {
        Ok(x) => r == x,
        Err(e) => is_error_envelope(r, error_message(e)),
    }
}

/// What the echo handler makes of a body.
pub open spec fn post_result(body: Body) -> Result<Response, HandlerError> {
    match body {
        Body::Empty => Err(HandlerError::EmptyBody),
        Body::Malformed(d) => Err(HandlerError::MalformedBody(d)),
        Body::Parsed(m) => Ok(Response::Echo(m)),
    }
}

/// The addons that a record set gives in a mapping mode, or `None` where the
/// request fails on it.
pub open spec fn catalog_addons(mode: MappingMode, rows: Seq<Vec<Column>>) -> Option<Seq<Addon>> {
    match mode {
        MappingMode::Positional => Some(positional_addons(rows)),
        MappingMode::Typed => typed_addons(rows),
    }
}

/// Decides what to do with a request of this method.
pub fn dispatch(method: Method) -> (r: Dispatch)
    ensures
        method == Method::Get ==> r is Catalog,
        method == Method::Post ==> r is Echo,
        method == Method::Other ==> r is Reply && is_error_envelope(
            r->Reply_0,
            INVALID_METHOD@,
        ),
{
    match method {
        Method::Get => Dispatch::Catalog,
        Method::Post => Dispatch::Echo,
        Method::Other => Dispatch::Reply(
            Response::Error(BadRequest { error: String::from_str(INVALID_METHOD) }),
        ),
    }
}

/// The echo handler: a message comes back unchanged, anything else fails.
pub fn post(body: Body) -> (r: Result<Response, HandlerError>)
    ensures
        r == post_result(body),
{
    match body {
        Body::Empty => Err(HandlerError::EmptyBody),
        Body::Malformed(d) => Err(HandlerError::MalformedBody(d)),
        Body::Parsed(m) => Ok(Response::Echo(m)),
    }
}

/// The first step of the catalog handler: the configuration, from the values
/// of the three environment variables (`None` for one that is not set).
///
/// On `Err` the request fails at once with that error, which has a
/// description: no query runs and no catalog is answered. On `Ok` the query
/// runs with the configuration, and `get` answers from its outcome.
pub fn begin_get(
    resource_arn: Option<String>,
    secret_arn: Option<String>,
    region: Option<String>,
) -> (r: Result<Config, HandlerError>)
    ensures
        r == settings_result(resource_arn, secret_arn, region),
        r is Err <==> (resource_arn is None || secret_arn is None || region is None),
        r is Err ==> r->Err_0 is MissingSetting && error_message(r->Err_0).len() > 0,
{
    let r = Config::from_settings(resource_arn, secret_arn, region);
    proof {
        if r is Err {
            lemma_error_message_not_empty(r->Err_0);
        }
    }
    r
}

/// The catalog handler, from what the database call came back with.
pub fn get(mode: MappingMode, outcome: QueryOutcome) -> (r: Result<Response, HandlerError>)
    ensures
        outcome is Failed ==> r == Err::<Response, HandlerError>(
            HandlerError::QueryFailed(outcome->Failed_0),
        ) && error_message(r->Err_0) == outcome->Failed_0@,
        outcome is NoRecordSet ==> r == Err::<Response, HandlerError>(HandlerError::NoRecordSet),
        outcome is Records ==> {
            let rows = outcome->Records_0@;
            &&& (r is Ok <==> catalog_addons(mode, rows) is Some)
            &&& r is Ok ==> r->Ok_0 is Catalog && r->Ok_0->Catalog_0.spec_addons()
                == catalog_addons(mode, rows)->Some_0
            &&& r is Err ==> r->Err_0 is UndecodableRow && {
                let i = r->Err_0->UndecodableRow_0 as int;
                &&& i < rows.len()
                &&& typed_addon(rows[i]@) is None
                &&& forall|j: int| 0 <= j < i ==> (#[trigger] typed_addon(rows[j]@)) is Some
            }
        },
{
    match outcome {
        QueryOutcome::Failed(d) => Err(HandlerError::QueryFailed(d)),
        QueryOutcome::NoRecordSet => Err(HandlerError::NoRecordSet),
        QueryOutcome::Records(rows) => match mode {
            MappingMode::Positional => {
                let addons = addons_from_positional(&rows);
                Ok(Response::Catalog(AddonResponse::new(addons)))
            },
            MappingMode::Typed => match addons_from_typed(&rows) {
                Ok(addons) => Ok(Response::Catalog(AddonResponse::new(addons))),
                Err(i) => Err(HandlerError::UndecodableRow(i)),
            },
        },
    }
}

/// Turns a handler's result into the answer: a failure becomes its error
/// envelope, and the router itself never fails.
pub fn respond(result: Result<Response, HandlerError>) -> (r: Response)
    ensures
        answers(result, r),
{
    match result {
        Ok(x) => x,
        Err(e) => Response::Error(BadRequest { error: e.message() }),
    }
}

} // verus!
