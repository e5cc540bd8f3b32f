//! Parsing of a rendered template into registrar request specifications.
use vstd::prelude::*;
use crate::error::RequestError;
use crate::json::{Json, json_of_text, json_text_of, parse_json, json_text, str_of};

verus! {

/// One update request to a registrar. Header keys need not be unique and
/// keep their order.
#[derive(Debug)]
pub struct RegistrarRequest {
    pub name: String,
    pub method: String,
    pub address: String,
    pub headers: Vec<(String, String)>,
    pub body: String,
}

/// The plain content of a `RegistrarRequest`.
pub struct RegistrarRequestView {
    pub name: Seq<char>,
    pub method: Seq<char>,
    pub address: Seq<char>,
    pub headers: Seq<(Seq<char>, Seq<char>)>,
    pub body: Seq<char>,
}

/// The header pairs as plain text.
pub open spec fn pairs_view(p: Seq<(String, String)>) -> Seq<(Seq<char>, Seq<char>)> {
    p.map_values(|h: (String, String)| (h.0@, h.1@))
}

impl View for RegistrarRequest {
    type V = RegistrarRequestView;

    open spec fn view(&self) -> RegistrarRequestView {
        RegistrarRequestView {
            name: self.name@,
            method: self.method@,
            address: self.address@,
            headers: pairs_view(self.headers@),
            body: self.body@,
        }
    }
}

/// The plain content of each request, in order.
pub open spec fn requests_view(v: Seq<RegistrarRequest>) -> Seq<RegistrarRequestView> {
    v.map_values(|r: RegistrarRequest| r@)
}

/// The value of the first member named `key`.
pub open spec fn member(m: Seq<(String, Json)>, key: Seq<char>) -> Option<Json>
    decreases m.len(),
{
    if m.len() == 0 {
        None
    } else if m[0].0@ == key {
        Some(m[0].1)
    } else {
        member(m.drop_first(), key)
    }
}

/// The value of `j`'s member named `key`; `Null` where `j` is no object or
/// has no such member, as indexing a JSON value gives.
pub open spec fn field(j: Json, key: Seq<char>) -> Json {
    match j {
        Json::Object(m) => match member(m@, key) {
            Some(v) => v,
            None => Json::Null,
        },
        _ => Json::Null,
    }
}

/// The headers of an object whose members are all strings.
pub open spec fn headers_of(j: Json) -> Option<Seq<(Seq<char>, Seq<char>)>> {
    match j {
        Json::Object(m) => if forall|i: int| 0 <= i < m@.len() ==> (#[trigger] str_of(m@[i].1)) is Some {
            Some(m@.map_values(|h: (String, Json)| (h.0@, str_of(h.1)->Some_0)))
        } else {
            None
        },
        _ => None,
    }
}

/// The request that a JSON element describes: `None` where `name`, `method`
/// or `address` is no string, or `headers` is no object of strings. The body
/// is the JSON text of the element's `body`.
pub open spec fn request_spec(j: Json) -> Option<RegistrarRequestView> {
    let name = str_of(field(j, "name"@));
    let method = str_of(field(j, "method"@));
    let address = str_of(field(j, "address"@));
    let headers = headers_of(field(j, "headers"@));
    if name is Some && method is Some && address is Some && headers is Some {
        Some(RegistrarRequestView {
            name: name->Some_0,
            method: method->Some_0,
            address: address->Some_0,
            headers: headers->Some_0,
            body: json_text_of(field(j, "body"@)),
        })
    } else {
        None
    }
}

/// Whether every element of the array describes a request.
pub open spec fn all_well_formed(a: Seq<Json>) -> bool {
    forall|i: int| 0 <= i < a.len() ==> (#[trigger] request_spec(a[i])) is Some
}

/// The requests that a JSON value describes, all or none: `None` where it is
/// no array or any element is malformed.
pub open spec fn batch_spec(j: Json) -> Option<Seq<RegistrarRequestView>> {
    match j {
        Json::Array(a) => if all_well_formed(a@) {
            Some(a@.map_values(|e: Json| request_spec(e)->Some_0))
        } else {
            None
        },
        _ => None,
    }
}

/// A batch with one malformed element yields no request at all, wherever
/// that element stands and however many well-formed ones surround it.
pub proof fn lemma_batch_all_or_nothing(elements: Vec<Json>, bad: int)
    requires
        0 <= bad < elements@.len(),
        request_spec(elements@[bad]) is None,
    ensures
        batch_spec(Json::Array(elements)) is None,
{
}

/// The member of `m` named `key`, as `member` gives it.
fn find_member<'a>(m: &'a Vec<(String, Json)>, key: &String) -> (r: Option<&'a Json>)
    ensures
        r is Some <==> member(m@, key@) is Some,
        r is Some ==> *r->Some_0 == member(m@, key@)->Some_0,
{
    let mut i: usize = 0;
    assert(m@.skip(0) =~= m@);
    while i < m.len()
        invariant
            i <= m@.len(),
            member(m@, key@) == member(m@.skip(i as int), key@),
        decreases m@.len() - i,
    {
        assert(m@.skip(i as int).drop_first() =~= m@.skip(i as int + 1));
        if m[i].0 == *key {
            return Some(&m[i].1);
        }
        i = i + 1;
    }
    None
}

/// The member of `j` named `key`; `None` stands for `Null`.
pub(crate) fn get_field<'a>(j: &'a Json, key: &str) -> (r: Option<&'a Json>)
    ensures
        r is Some ==> field(*j, key@) == *r->Some_0,
        r is None ==> field(*j, key@) == Json::Null,
{
    let k = key.to_owned();
    match j {
        Json::Object(m) => find_member(m, &k),
        _ => None,
    }
}

/// The string held by `j`'s member `key`, if it is one.
fn string_member(j: &Json, key: &str) -> (r: Option<String>)
    ensures
        r is Some <==> str_of(field(*j, key@)) is Some,
        r is Some ==> r->Some_0@ == str_of(field(*j, key@))->Some_0,
{
    match get_field(j, key) {
        Some(Json::Str(s)) => Some(s.clone()),
        _ => None,
    }
}

/// The headers held by `j`'s member `key`, if it is an object of strings.
fn headers_field(j: &Json, key: &str) -> (r: Option<Vec<(String, String)>>)
    ensures
        r is Some <==> headers_of(field(*j, key@)) is Some,
        r is Some ==> pairs_view(r->Some_0@) == headers_of(field(*j, key@))->Some_0,
{
    match get_field(j, key) {
        Some(Json::Object(m)) => {
            let mut out: Vec<(String, String)> = Vec::new();
            let mut i: usize = 0;
            while i < m.len()
                invariant
                    field(*j, key@) == Json::Object(*m),
                    i <= m@.len(),
                    out@.len() == i,
                    forall|k: int| 0 <= k < i ==> (#[trigger] str_of(m@[k].1)) is Some,
                    forall|k: int| 0 <= k < i ==> (#[trigger] out@[k]).0@ == m@[k].0@
                        && out@[k].1@ == str_of(m@[k].1)->Some_0,
                decreases m@.len() - i,
            {
                match &m[i].1 {
                    Json::Str(v) => {
                        out.push((m[i].0.clone(), v.clone()));
                    },
                    _ => {
                        assert(str_of(m@[i as int].1) is None);
                        return None;
                    },
                }
                i = i + 1;
            }
            assert(pairs_view(out@) =~= m@.map_values(|h: (String, Json)| (h.0@, str_of(h.1)->Some_0)));
            Some(out)
        },
        _ => None,
    }
}

/// The request that one JSON element describes.
pub fn make_registrar_request(request_json: &Json) -> (r: Result<RegistrarRequest, RequestError>)
    ensures
        r is Ok <==> request_spec(*request_json) is Some,
        r is Ok ==> r->Ok_0@ == request_spec(*request_json)->Some_0,
        r is Err ==> r->Err_0 is FormatError,
{
    let headers = match headers_field(request_json, "headers") {
        Some(h) => h,
        None => { return Err(RequestError::FormatError); },
    };
    let name = match string_member(request_json, "name") {
        Some(v) => v,
        None => { return Err(RequestError::FormatError); },
    };
    let method = match string_member(request_json, "method") {
        Some(v) => v,
        None => { return Err(RequestError::FormatError); },
    };
    let address = match string_member(request_json, "address") {
        Some(v) => v,
        None => { return Err(RequestError::FormatError); },
    };
    let body = match get_field(request_json, "body") {
        Some(b) => json_text(b),
        None => {
            let null = Json::Null;
            json_text(&null)
        },
    };
    Ok(RegistrarRequest { name, method, address, headers, body })
}

/// The requests that a JSON value describes. Every element is converted;
/// if any fails, none is returned and the first failure is reported.
pub fn make_registrar_requests_from_json(requests_json: &Json) -> (r: Result<Vec<RegistrarRequest>, RequestError>)
    ensures
        r is Ok <==> batch_spec(*requests_json) is Some,
        r is Ok ==> requests_view(r->Ok_0@) == batch_spec(*requests_json)->Some_0,
        r is Err ==> r->Err_0 is FormatError,
{
    let elements = match requests_json {
        Json::Array(a) => a,
        _ => { return Err(RequestError::FormatError); },
    };
    let mut values: Vec<RegistrarRequest> = Vec::new();
    let mut first_error: Option<RequestError> = None;
    let mut i: usize = 0;
    while i < elements.len()
        invariant
            i <= elements@.len(),
            first_error is Some ==> first_error->Some_0 is FormatError,
            first_error is None ==> values@.len() == i
                && forall|k: int| 0 <= k < i ==> (#[trigger] request_spec(elements@[k])) is Some
                    && values@[k]@ == request_spec(elements@[k])->Some_0,
            first_error is Some ==> !all_well_formed(elements@),
        decreases elements@.len() - i,
    {
        match make_registrar_request(&elements[i]) {
            Ok(value) => {
                if first_error.is_none() {
                    values.push(value);
                }
            },
            Err(error) => {
                if first_error.is_none() {
                    first_error = Some(error);
                }
            },
        }
        i = i + 1;
    }
    match first_error {
        Some(error) => Err(error),
        None => {
            assert(requests_view(values@) =~= elements@.map_values(|e: Json| request_spec(e)->Some_0));
            Ok(values)
        },
    }
}

/// Parses a rendered template: a JSON array of request objects, all or none.
pub fn make_registrar_requests(requests_str: &str) -> (r: Result<Vec<RegistrarRequest>, RequestError>)
    ensures
        json_of_text(requests_str@) is None <==> (r is Err && r->Err_0 is SerdeJsonError),
        json_of_text(requests_str@) is Some ==> {
            let j = json_of_text(requests_str@)->Some_0;
            &&& (r is Ok <==> batch_spec(j) is Some)
            &&& (r is Ok ==> requests_view(r->Ok_0@) == batch_spec(j)->Some_0)
            &&& (r is Err ==> r->Err_0 is FormatError)
        },
{
    match parse_json(requests_str) {
        Ok(j) => make_registrar_requests_from_json(&j),
        Err(error) => Err(RequestError::SerdeJsonError(error)),
    }
}

} // verus!
