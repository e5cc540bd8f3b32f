//! The settings that the driver runs with, checked once at start-up.
use vstd::prelude::*;

verus! {

#[verifier::external_type_specification]
#[verifier::external_body]
pub struct ExParseIntError(std::num::ParseIntError);

#[verifier::external_type_specification]
#[verifier::external_body]
pub struct ExIoError(std::io::Error);

/// A setting that is missing, does not parse, or names a file that cannot
/// be read.
#[derive(Debug)]
pub enum ConfigError {
    ArgumentError(String),
    ParseError(String, std::num::ParseIntError),
    ReadError(String, std::io::Error),
    RangeError(String),
}

/// The settings as given, each one present.
#[derive(Debug)]
pub struct ConfigArgs {
    pub update_interval: String,
    pub service_address: String,
    pub initial_address: String,
    pub registrar_request: String,
}

/// The settings of a run: the tick interval in seconds (above zero), the
/// discovery service's address, the seed address, and the request template.
#[derive(Debug)]
pub struct Config {
    pub update_interval: String,
    pub service_address: String,
    pub initial_address: String,
    pub registrar_request: String,
    pub update_interval_secs: u64,
    pub registrar_request_template: String,
}

/// A decimal digit.
pub open spec fn is_digit(c: char) -> bool {
    '0' <= c && c <= '9'
}

/// The number that a string of decimal digits writes.
pub open spec fn digits_value(s: Seq<char>) -> int
    decreases s.len(),
{
    if s.len() == 0 {
        0
    } else {
        digits_value(s.drop_last()) * 10 + (s.last() as int - '0' as int)
    }
}

/// What `str::parse::<u64>` reads: an optional `+` followed by one or more
/// decimal digits, whose value fits in a `u64`.
pub open spec fn parsed_u64(s: Seq<char>) -> Option<u64> {
    let d = if s.len() > 0 && s[0] == '+' { s.drop_first() } else { s };
    if d.len() > 0 && (forall|i: int| 0 <= i < d.len() ==> is_digit(#[trigger] d[i]))
        && digits_value(d) <= u64::MAX {
        Some(digits_value(d) as u64)
    } else {
        None
    }
}

/// Relies on `u64`'s `FromStr`, which accepts an optional `+` and then only
/// digits, and fails on anything else or on a value above `u64::MAX`.
#[verifier::external_body]
fn parse_u64(s: &str) -> (r: Result<u64, std::num::ParseIntError>)
    ensures
        r is Ok <==> parsed_u64(s@) is Some,
        r is Ok ==> r->Ok_0 == parsed_u64(s@)->Some_0,
{
    s.parse::<u64>()
}

/// The names of the missing settings, in the order `update_interval`,
/// `service_address`, `initial_address`, `registrar_request`.
pub open spec fn missing_arguments(update_interval: bool, service_address: bool, initial_address: bool, registrar_request: bool) -> Seq<Seq<char>> {
    (if update_interval { seq!["update_interval"@] } else { Seq::empty() })
        + (if service_address { seq!["service_address"@] } else { Seq::empty() })
        + (if initial_address { seq!["initial_address"@] } else { Seq::empty() })
        + (if registrar_request { seq!["registrar_request"@] } else { Seq::empty() })
}

/// Whether `errors` is one `ArgumentError` for each of `names`, in order.
pub open spec fn argument_errors(errors: Seq<ConfigError>, names: Seq<Seq<char>>) -> bool {
    &&& errors.len() == names.len()
    &&& forall|i: int| 0 <= i < errors.len() ==> (#[trigger] errors[i]) is ArgumentError
        && errors[i]->ArgumentError_0@ == names[i]
}

/// Checks that every setting is present; each missing one is reported, in
/// the order `update_interval`, `service_address`, `initial_address`,
/// `registrar_request`.
pub fn check_arguments(
    update_interval: Option<String>,
    service_address: Option<String>,
    initial_address: Option<String>,
    registrar_request: Option<String>,
) -> (r: Result<ConfigArgs, Vec<ConfigError>>)
    ensures
        r is Ok <==> update_interval is Some && service_address is Some && initial_address is Some
            && registrar_request is Some,
        r is Ok ==> r->Ok_0.update_interval == update_interval->Some_0
            && r->Ok_0.service_address == service_address->Some_0
            && r->Ok_0.initial_address == initial_address->Some_0
            && r->Ok_0.registrar_request == registrar_request->Some_0,
        r is Err ==> argument_errors(r->Err_0@, missing_arguments(update_interval is None,
            service_address is None, initial_address is None, registrar_request is None)),
{
    let ghost a = update_interval is None;
    let ghost b = service_address is None;
    let ghost c = initial_address is None;
    let ghost d = registrar_request is None;
    let mut errors: Vec<ConfigError> = Vec::new();
    if update_interval.is_none() {
        errors.push(ConfigError::ArgumentError("update_interval".to_owned()));
    }
    assert(argument_errors(errors@, missing_arguments(a, false, false, false)));
    if service_address.is_none() {
        errors.push(ConfigError::ArgumentError("service_address".to_owned()));
    }
    assert(missing_arguments(a, b, false, false) =~= missing_arguments(a, false, false, false)
        + (if b { seq!["service_address"@] } else { Seq::empty() }));
    assert(argument_errors(errors@, missing_arguments(a, b, false, false)));
    if initial_address.is_none() {
        errors.push(ConfigError::ArgumentError("initial_address".to_owned()));
    }
    assert(missing_arguments(a, b, c, false) =~= missing_arguments(a, b, false, false)
        + (if c { seq!["initial_address"@] } else { Seq::empty() }));
    assert(argument_errors(errors@, missing_arguments(a, b, c, false)));
    if registrar_request.is_none() {
        errors.push(ConfigError::ArgumentError("registrar_request".to_owned()));
    }
    assert(missing_arguments(a, b, c, d) =~= missing_arguments(a, b, c, false)
        + (if d { seq!["registrar_request"@] } else { Seq::empty() }));
    match (update_interval, service_address, initial_address, registrar_request) {
        (Some(update_interval), Some(service_address), Some(initial_address), Some(registrar_request)) => {
            Ok(ConfigArgs { update_interval, service_address, initial_address, registrar_request })
        },
        _ => Err(errors),
    }
}

/// Completes the settings from the arguments and the template file's
/// content as it was read. The interval must parse as a number of seconds
/// above zero; an interval error comes before a read error.
pub fn make_config(args: ConfigArgs, template: Result<String, std::io::Error>) -> (r: Result<Config, Vec<ConfigError>>)
    ensures
        r is Ok <==> template is Ok && parsed_u64(args.update_interval@) is Some
            && parsed_u64(args.update_interval@)->Some_0 > 0,
        r is Ok ==> r->Ok_0.update_interval_secs == parsed_u64(args.update_interval@)->Some_0
            && r->Ok_0.registrar_request_template == template->Ok_0
            && r->Ok_0.update_interval == args.update_interval
            && r->Ok_0.service_address == args.service_address
            && r->Ok_0.initial_address == args.initial_address
            && r->Ok_0.registrar_request == args.registrar_request,
        r is Err ==> r->Err_0@.len() == (if parsed_u64(args.update_interval@) is Some
            && parsed_u64(args.update_interval@)->Some_0 > 0 { 0int } else { 1 })
            + (if template is Ok { 0int } else { 1 }),
        r is Err && parsed_u64(args.update_interval@) is None ==> r->Err_0@[0] is ParseError
            && r->Err_0@[0]->ParseError_0@ == "update_interval"@,
        r is Err && parsed_u64(args.update_interval@) == Some(0u64) ==> r->Err_0@[0] is RangeError
            && r->Err_0@[0]->RangeError_0@ == "update_interval"@,
        r is Err && template is Err ==> r->Err_0@.last() is ReadError
            && r->Err_0@.last()->ReadError_0@ == "registrar_request"@,
{
    let mut errors: Vec<ConfigError> = Vec::new();
    let mut secs: u64 = 0;
    match parse_u64(args.update_interval.as_str()) {
        Ok(value) => {
            if value == 0 {
                errors.push(ConfigError::RangeError("update_interval".to_owned()));
            } else {
                secs = value;
            }
        },
        Err(error) => {
            errors.push(ConfigError::ParseError("update_interval".to_owned(), error));
        },
    }
    match template {
        Ok(text) => {
            if errors.len() == 0 {
                return Ok(Config {
                    update_interval: args.update_interval,
                    service_address: args.service_address,
                    initial_address: args.initial_address,
                    registrar_request: args.registrar_request,
                    update_interval_secs: secs,
                    registrar_request_template: text,
                });
            }
            Err(errors)
        },
        Err(error) => {
            errors.push(ConfigError::ReadError("registrar_request".to_owned(), error));
            Err(errors)
        },
    }
}

} // verus!
