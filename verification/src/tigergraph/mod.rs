//! The graph store adapter: vertices, their upsert attributes, and the
//! requests and responses of the store's queries.

pub mod edge;
pub mod identity;
pub mod query;

use crate::error::Error;
use crate::outside::{check_uri, describe_invalid_uri, uri_accepts};
use crate::text::{debug_of, debug_text};
use vstd::prelude::*;
use vstd::string::*;

verus! {

/// How the store combines an incoming attribute with the stored one.
#[derive(Clone, Copy, Debug, PartialEq, Eq, Structural, Hash)]
pub enum OpCode {
    /// Write once: an existing value stays.
    IgnoreIfExists,
    /// Keep the greater of both.
    Max,
}

impl OpCode {
    /// The name of the operator in an upsert.
    pub open spec fn spec_name(self) -> Seq<char> {
        match self {
            OpCode::IgnoreIfExists => "ignore_if_exists"@,
            OpCode::Max => "max"@,
        }
    }

    /// The name of the operator in an upsert.
    pub fn name(&self) -> (s: &'static str)
        ensures
            s@ == self.spec_name(),
    {
        match self {
            OpCode::IgnoreIfExists => "ignore_if_exists",
            OpCode::Max => "max",
        }
    }
}

/// Name of the vertex type of identities.
pub const VERTEX_NAME: &'static str = "Identities";

/// Where the store is reached: its address and the name of the graph.
#[derive(Debug)]
pub struct Endpoint {
    pub host: String,
    pub graph: String,
}

/// The part of every response that says whether the query failed.
#[derive(Debug)]
pub struct BaseResponse {
    pub error: bool,
    pub code: Option<String>,
    pub message: Option<String>,
}

/// The message of the error that a failed request is reported with: what
/// failed, then the code and the message of the store as `Debug` writes
/// them.
pub open spec fn query_error_text(
    what: Seq<char>,
    code: Option<Seq<char>>,
    message: Option<Seq<char>>,
) -> Seq<char> {
    "TigerGraph "@ + what + " error | Code: "@ + debug_of(code) + ", Message: "@ + debug_of(
        message,
    )
}

impl BaseResponse {
    /// Passes a response that reports no error, and turns one that does into
    /// a general error with the status of the response and a message that
    /// names what failed, the code and the store's message.
    pub fn check(&self, what: &str, status: u16) -> (r: Result<(), Error>)
        ensures
            !self.error ==> r is Ok,
            self.error ==> r is Err && r->Err_0 is General && r->Err_0->General_1 == status
                && r->Err_0->General_0@ == query_error_text(
                what@,
                crate::tigergraph::identity::opt_text(self.code),
                crate::tigergraph::identity::opt_text(self.message),
            ),
    {
        if self.error {
            let mut text = String::from_str("TigerGraph ");
            text.append(what);
            text.append(" error | Code: ");
            let code = debug_text(&self.code);
            text.append(code.as_str());
            text.append(", Message: ");
            let message = debug_text(&self.message);
            text.append(message.as_str());
            Err(Error::General(text, status))
        } else {
            Ok(())
        }
    }
}

/// The first element of the results of a response, where there is one.
pub fn take_first<T>(results: Option<Vec<T>>) -> (r: Option<T>)
    ensures
        r == match results {
            Some(list) => if list@.len() > 0 {
                Some(list@[0])
            } else {
                None
            },
            None => None,
        },
{
    match results {
        Some(list) => {
            let mut list = list;
            if list.len() > 0 {
                Some(list.remove(0))
            } else {
                None
            }
        },
        None => None,
    }
}

/// The prefix of the message of a refused URI.
pub open spec fn uri_error_prefix() -> Seq<char> {
    "Uri format Error "@
}

/// Whether `r` is the outcome of checking a request text: the text where it
/// is a URI, and where it is not, a parameter error whose message begins
/// with `prefix`.
pub open spec fn is_checked_as(r: Result<String, Error>, text: Seq<char>, prefix: Seq<char>)
    -> bool {
    &&& uri_accepts(text) ==> r is Ok && r->Ok_0@ == text
    &&& !uri_accepts(text) ==> r is Err && r->Err_0 is ParamError
        && r->Err_0->ParamError_0@.len() >= prefix.len() && r->Err_0->ParamError_0@.subrange(
        0,
        prefix.len() as int,
    ) == prefix
}

/// Hands a request text back where it is a URI, and refuses it with a
/// parameter error where it is not: `prefix`, then the parser's description
/// of what it refused.
pub fn checked_uri_as(text: String, prefix: &str) -> (r: Result<String, Error>)
    ensures
        is_checked_as(r, text@, prefix@),
{
    match check_uri(text.as_str()) {
        Ok(_) => Ok(text),
        Err(e) => {
            let mut message = String::from_str(prefix);
            let detail = describe_invalid_uri(&e);
            message.append(detail.as_str());
            assert(message@.subrange(0, prefix@.len() as int) =~= prefix@);
            Err(Error::ParamError(message))
        },
    }
}

/// Hands a request text back where it is a URI, and refuses it with a
/// parameter error where it is not.
pub fn checked_uri(text: String) -> (r: Result<String, Error>)
    ensures
        is_checked_as(r, text@, uri_error_prefix()),
{
    checked_uri_as(text, "Uri format Error ")
}

} // verus!
