//! The failures of a reconciliation cycle, one variant per cause.
use vstd::prelude::*;

verus! {

#[verifier::external_type_specification]
#[verifier::external_body]
pub struct ExHttpError(http::Error);

#[verifier::external_type_specification]
#[verifier::external_body]
pub struct ExHyperError(hyper::Error);

#[verifier::external_type_specification]
#[verifier::external_body]
pub struct ExTlsError(hyper_tls::Error);

#[verifier::external_type_specification]
#[verifier::external_body]
pub struct ExTimerError(tokio::timer::Error);

/// A template that could not be rendered, with the variables offered to it.
#[derive(Debug)]
pub struct TemplateError {
    pub template: String,
    pub variables: Vec<(String, String)>,
}

/// A failure to render, parse, build or send a request.
#[derive(Debug)]
pub enum RequestError {
    TemplateError(TemplateError),
    SerdeJsonError(serde_json::Error),
    FormatError,
    HttpError(http::Error),
    HyperError(hyper::Error),
    HyperTlsError(hyper_tls::Error),
}

/// A response whose status is not in the 2xx range, with its raw body.
#[derive(Debug)]
pub struct StatusError {
    pub status: u16,
    pub body: Vec<u8>,
}

/// A failure to read or decode a response.
#[derive(Debug)]
pub enum ResponseError {
    HyperError(hyper::Error),
    SerdeJsonError(serde_json::Error),
    StatusError(StatusError),
}

/// The failure of one cycle: the scheduling primitive, a request, or a
/// response.
#[derive(Debug)]
pub enum DdnsError {
    IntervalError(tokio::timer::Error),
    RequestError(RequestError),
    ResponseError(ResponseError),
}

impl DdnsError {
    /// Whether the process must stop: only a broken tick source is fatal.
    pub fn is_fatal(&self) -> (r: bool)
        ensures
            r == (self is IntervalError),
    {
        match self {
            DdnsError::IntervalError(_) => true,
            _ => false,
        }
    }
}

} // verus!
