//! The error type of the library and the HTTP status each error maps to.

use vstd::prelude::*;
use vstd::string::*;

verus! {

/// Status code of a malformed request.
pub const BAD_REQUEST: u16 = 400;

/// Status code of a failure on the service's side.
pub const INTERNAL_SERVER_ERROR: u16 = 500;

/// Everything that can go wrong between a query and the graph store.
#[derive(Debug)]
pub enum Error {
    /// A failure with the HTTP status it is reported under.
    General(String, u16),
    /// A required parameter is absent.
    ParamMissing(String),
    /// A parameter is malformed: a platform name, a UUID, a URI.
    ParamError(String),
    /// The request has no body.
    BodyMissing,
    /// A positive "not found".
    NoResult,
    /// A body that does not have the expected shape.
    ParseError(String),
    /// A request that could not be assembled.
    HttpError(String),
    /// A configuration fault, at startup only.
    ConfigError(String),
    /// A signature that does not verify.
    SignatureValidationError(String),
    /// The HTTP client failed.
    HttpClientError(String),
    /// The HTTP client failed, with a message written by the caller.
    ManualHttpClientError(String),
    /// The graph database refused or failed a query.
    ArangoDBError(String),
    /// The connection pool of the store is exhausted.
    PoolError(String),
    /// A fault in the query layer.
    GraphQLError(String),
}

impl Error {
    /// The status that the error is reported under.
    pub open spec fn spec_http_status(self) -> u16 {
        match self {
            Error::General(_, status) => status,
            Error::ParamMissing(_) => BAD_REQUEST,
            Error::ParamError(_) => BAD_REQUEST,
            Error::BodyMissing => BAD_REQUEST,
            Error::NoResult => BAD_REQUEST,
            Error::ParseError(_) => BAD_REQUEST,
            Error::SignatureValidationError(_) => BAD_REQUEST,
            Error::HttpError(_) => INTERNAL_SERVER_ERROR,
            Error::ConfigError(_) => INTERNAL_SERVER_ERROR,
            Error::HttpClientError(_) => INTERNAL_SERVER_ERROR,
            Error::ManualHttpClientError(_) => INTERNAL_SERVER_ERROR,
            Error::ArangoDBError(_) => INTERNAL_SERVER_ERROR,
            Error::PoolError(_) => INTERNAL_SERVER_ERROR,
            Error::GraphQLError(_) => INTERNAL_SERVER_ERROR,
        }
    }

    /// The status that the error is reported under: the caller's faults are
    /// 400, the service's are 500, and a general error carries its own.
    pub fn http_status(&self) -> (status: u16)
        ensures
            status == self.spec_http_status(),
    {
        match self {
            Error::General(_, status) => *status,
            Error::ParamMissing(_) => BAD_REQUEST,
            Error::ParamError(_) => BAD_REQUEST,
            Error::BodyMissing => BAD_REQUEST,
            Error::NoResult => BAD_REQUEST,
            Error::ParseError(_) => BAD_REQUEST,
            Error::SignatureValidationError(_) => BAD_REQUEST,
            Error::HttpError(_) => INTERNAL_SERVER_ERROR,
            Error::ConfigError(_) => INTERNAL_SERVER_ERROR,
            Error::HttpClientError(_) => INTERNAL_SERVER_ERROR,
            Error::ManualHttpClientError(_) => INTERNAL_SERVER_ERROR,
            Error::ArangoDBError(_) => INTERNAL_SERVER_ERROR,
            Error::PoolError(_) => INTERNAL_SERVER_ERROR,
            Error::GraphQLError(_) => INTERNAL_SERVER_ERROR,
        }
    }

    /// The text that the error is shown as.
    pub open spec fn spec_message(self) -> Seq<char> {
        match self {
            Error::General(detail, _) => detail@,
            Error::ParamMissing(detail) => "Param missing: "@ + detail@,
            Error::ParamError(detail) => "Param error: "@ + detail@,
            Error::BodyMissing => "no body provided"@,
            Error::NoResult => "No result"@,
            Error::ParseError(detail) => "JSON parse error: "@ + detail@,
            Error::HttpError(detail) => "HTTP general error: "@ + detail@,
            Error::ConfigError(detail) => "Config error: "@ + detail@,
            Error::SignatureValidationError(detail) => "Signature validation error: "@ + detail@,
            Error::HttpClientError(detail) => "HTTP client error: "@ + detail@,
            Error::ManualHttpClientError(detail) => "HTTP client error: "@ + detail@,
            Error::ArangoDBError(detail) => "Database error: "@ + detail@,
            Error::PoolError(detail) => "Pool error: "@ + detail@,
            Error::GraphQLError(detail) => "GraphQL error: "@ + detail@,
        }
    }
    /// The text that the error is shown as: what kind of error it is, then
    /// its detail.
    pub fn message(&self) -> (text: String)
        ensures
            text@ == self.spec_message(),
    {
        match self {
            Error::General(detail, _) => detail.clone(),
            Error::ParamMissing(detail) => shown("Param missing: ", detail),
            Error::ParamError(detail) => shown("Param error: ", detail),
            Error::BodyMissing => String::from_str("no body provided"),
            Error::NoResult => String::from_str("No result"),
            Error::ParseError(detail) => shown("JSON parse error: ", detail),
            Error::HttpError(detail) => shown("HTTP general error: ", detail),
            Error::ConfigError(detail) => shown("Config error: ", detail),
            Error::SignatureValidationError(detail) => shown("Signature validation error: ", detail),
            Error::HttpClientError(detail) => shown("HTTP client error: ", detail),
            Error::ManualHttpClientError(detail) => shown("HTTP client error: ", detail),
            Error::ArangoDBError(detail) => shown("Database error: ", detail),
            Error::PoolError(detail) => shown("Pool error: ", detail),
            Error::GraphQLError(detail) => shown("GraphQL error: ", detail),
        }
    }
}

fn shown(prefix: &str, detail: &String) -> (text: String)
    ensures
        text@ == prefix@ + detail@,
{
    let mut text = String::from_str(prefix);
    text.append(detail.as_str());
    text
}

} // verus!
