//! The decisions around one HTTP exchange: which connector a request needs,
//! and what a response means.
use vstd::prelude::*;
use crate::batch::{field, get_field};
use crate::error::{DdnsError, ResponseError, StatusError};
use crate::json::{Json, json_of_bytes, parse_json_bytes, decode_string, str_of};

verus! {

/// The connector a request goes through.
#[derive(Clone, Copy, Debug, PartialEq, Eq, Structural)]
pub enum RequestScheme {
    Http,
    Https,
}

/// Only the scheme `https` is secure; any other scheme, or none, is plain.
pub open spec fn scheme_for(scheme: Option<Seq<char>>) -> RequestScheme {
    match scheme {
        Some(s) => if s == "https"@ { RequestScheme::Https } else { RequestScheme::Http },
        None => RequestScheme::Http,
    }
}

/// Only `https` is routed through the TLS connector: `http`, any other
/// scheme, and an address without one go through the plain connector.
pub proof fn lemma_scheme_selection(scheme: Option<Seq<char>>)
    ensures
        scheme_for(scheme) == RequestScheme::Https <==> scheme == Some("https"@),
        scheme_for(Some("http"@)) == RequestScheme::Http,
{
    reveal_strlit("http");
    reveal_strlit("https");
    assert("http"@.len() != "https"@.len());
}

/// The scheme that the `http` crate reads in an address, in lower case for
/// the standard ones; `None` where the address has none or is no URI.
pub uninterp spec fn uri_scheme_of(address: Seq<char>) -> Option<Seq<char>>;

/// Relies on parsing an `http::Uri` and on `Uri::scheme_str`: a function of
/// the address alone.
#[verifier::external_body]
fn uri_scheme(address: &str) -> (r: Option<String>)
    ensures
        r is Some <==> uri_scheme_of(address@) is Some,
        r is Some ==> r->Some_0@ == uri_scheme_of(address@)->Some_0,
{
    address.parse::<http::Uri>().ok().and_then(|u| u.scheme_str().map(|s| s.to_owned()))
}

/// Whether a scheme is the secure one.
fn is_https(s: &str) -> (r: bool)
    ensures
        r == (s@ == "https"@),
{
    let https = "https".to_owned();
    let given = s.to_owned();
    given == https
}

/// The connector for a scheme.
pub fn get_request_scheme(scheme: Option<&str>) -> (r: RequestScheme)
    ensures
        r == scheme_for(match scheme { Some(s) => Some(s@), None => None }),
{
    match scheme {
        Some(s) => if is_https(s) { RequestScheme::Https } else { RequestScheme::Http },
        None => RequestScheme::Http,
    }
}

/// The connector for a request to `address`.
pub fn request_scheme(address: &str) -> (r: RequestScheme)
    ensures
        r == scheme_for(uri_scheme_of(address@)),
{
    match uri_scheme(address) {
        Some(s) => get_request_scheme(Some(s.as_str())),
        None => get_request_scheme(None),
    }
}

/// Whether a status code is in the 2xx range.
pub open spec fn is_success(status: u16) -> bool {
    200 <= status < 300
}

/// A response as the transport hands it over: its status and its body.
#[derive(Debug)]
pub struct RawResponse {
    pub status: u16,
    pub body: Vec<u8>,
}

/// The body of a 2xx response; any other status is a `StatusError` that
/// carries the status and the body.
pub fn check_status(response: RawResponse) -> (r: Result<Vec<u8>, ResponseError>)
    ensures
        r is Ok <==> is_success(response.status),
        r is Ok ==> r->Ok_0@ == response.body@,
        r is Err ==> r->Err_0 is StatusError
            && r->Err_0->StatusError_0.status == response.status
            && r->Err_0->StatusError_0.body@ == response.body@,
{
    if 200 <= response.status && response.status < 300 {
        Ok(response.body)
    } else {
        Err(ResponseError::StatusError(StatusError { status: response.status, body: response.body }))
    }
}

/// What the discovery service reports: the caller's address.
#[derive(Debug)]
pub struct ServiceResponse {
    pub ip: String,
}

/// The value that a decoded discovery body gives for the field `ip`: the
/// member `ip` of an object, or `Null` where it has none. A body that is no
/// object gives `Null`, which is no address.
pub open spec fn service_ip_value(j: Json) -> Json {
    match j {
        Json::Object(_) => field(j, "ip"@),
        _ => Json::Null,
    }
}

/// The address that a decoded discovery body holds, if its field `ip` is a
/// string.
pub open spec fn service_ip_of(j: Json) -> Option<Seq<char>> {
    str_of(service_ip_value(j))
}

/// Reads the discovery service's answer from a decoded body, an object
/// `{"ip": <string>}`; a body of any other shape is a decoding failure.
pub fn decode_service_json(j: &Json) -> (r: Result<ServiceResponse, ResponseError>)
    ensures
        r is Ok <==> service_ip_of(*j) is Some,
        r is Ok ==> r->Ok_0.ip@ == service_ip_of(*j)->Some_0,
        r is Err ==> r->Err_0 is SerdeJsonError,
{
    let decoded = match j {
        Json::Object(_) => match get_field(j, "ip") {
            Some(v) => decode_string(v),
            None => {
                let null = Json::Null;
                decode_string(&null)
            },
        },
        _ => {
            let null = Json::Null;
            decode_string(&null)
        },
    };
    match decoded {
        Ok(ip) => Ok(ServiceResponse { ip }),
        Err(error) => Err(ResponseError::SerdeJsonError(error)),
    }
}

/// Reads the discovery service's answer from a response: a 2xx status and a
/// JSON body `{"ip": <string>}`.
pub fn decode_service_response(response: RawResponse) -> (r: Result<ServiceResponse, DdnsError>)
    ensures
        !is_success(response.status) ==> r is Err && r->Err_0 is ResponseError
            && r->Err_0->ResponseError_0 is StatusError
            && r->Err_0->ResponseError_0->StatusError_0.status == response.status
            && r->Err_0->ResponseError_0->StatusError_0.body@ == response.body@,
        is_success(response.status) ==> {
            let ip = match json_of_bytes(response.body@) {
                Some(j) => service_ip_of(j),
                None => None,
            };
            &&& (r is Ok <==> ip is Some)
            &&& (r is Ok ==> r->Ok_0.ip@ == ip->Some_0)
            &&& (r is Err ==> r->Err_0 is ResponseError && r->Err_0->ResponseError_0 is SerdeJsonError)
        },
{
    let body = match check_status(response) {
        Ok(body) => body,
        Err(error) => { return Err(DdnsError::ResponseError(error)); },
    };
    match parse_json_bytes(body.as_slice()) {
        Ok(j) => match decode_service_json(&j) {
            Ok(service_response) => Ok(service_response),
            Err(error) => Err(DdnsError::ResponseError(error)),
        },
        Err(error) => Err(DdnsError::ResponseError(ResponseError::SerdeJsonError(error))),
    }
}

/// How one registrar request ended, under the name of its specification.
#[derive(Debug)]
pub struct RequestOutcome {
    pub name: String,
    pub result: Result<(), DdnsError>,
}

/// Whether a registrar request whose exchange ended so succeeded.
pub open spec fn reply_succeeds(reply: Result<RawResponse, DdnsError>) -> bool {
    reply is Ok && is_success(reply->Ok_0.status)
}

/// Which requests of a batch succeed, reply by reply.
pub open spec fn dispatch_outcomes(replies: Seq<Result<RawResponse, DdnsError>>) -> Seq<bool> {
    replies.map_values(|reply: Result<RawResponse, DdnsError>| reply_succeeds(reply))
}

/// A request's outcome depends on its own reply alone: whatever the other
/// requests of the batch get back, it succeeds exactly when its reply has a
/// 2xx status.
pub proof fn lemma_dispatch_isolation(
    replies: Seq<Result<RawResponse, DdnsError>>,
    others: Seq<Result<RawResponse, DdnsError>>,
    i: int,
)
    requires
        0 <= i < replies.len(),
        others.len() == replies.len(),
        others[i] == replies[i],
    ensures
        dispatch_outcomes(replies)[i] == reply_succeeds(replies[i]),
        dispatch_outcomes(others)[i] == dispatch_outcomes(replies)[i],
{
}

/// The outcome of one registrar request, from its own reply alone: success
/// on a 2xx status, else the transport's error or a `StatusError`.
pub fn process_registrar_response(name: String, reply: Result<RawResponse, DdnsError>) -> (r: RequestOutcome)
    ensures
        r.name@ == name@,
        r.result is Ok <==> reply_succeeds(reply),
        reply is Err ==> r.result == Err::<(), DdnsError>(reply->Err_0),
        reply is Ok && !is_success(reply->Ok_0.status) ==> r.result is Err
            && r.result->Err_0 is ResponseError
            && r.result->Err_0->ResponseError_0 is StatusError
            && r.result->Err_0->ResponseError_0->StatusError_0.status == reply->Ok_0.status
            && r.result->Err_0->ResponseError_0->StatusError_0.body@ == reply->Ok_0.body@,
{
    let result = match reply {
        Ok(response) => match check_status(response) {
            Ok(_) => Ok(()),
            Err(error) => Err(DdnsError::ResponseError(error)),
        },
        Err(error) => Err(error),
    };
    RequestOutcome { name, result }
}

} // verus!
