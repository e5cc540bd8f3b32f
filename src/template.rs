//! Substitution of the newly observed IP address into the request template.
use vstd::prelude::*;
use crate::error::{RequestError, TemplateError};

verus! {

/// Whether a text holds one of the characters that envsubst forbids in a
/// variable's name or value.
pub open spec fn has_forbidden_char(s: Seq<char>) -> bool {
    exists|i: int| 0 <= i < s.len() && (s[i] == '$' || s[i] == '{' || s[i] == '}')
}

/// `s` with every occurrence of `pat` replaced by `rep`, scanning from the
/// left and never letting two occurrences overlap.
pub open spec fn replace_all(s: Seq<char>, pat: Seq<char>, rep: Seq<char>) -> Seq<char>
    decreases s.len(),
{
    if pat.len() == 0 || s.len() < pat.len() {
        s
    } else if s.subrange(0, pat.len() as int) == pat {
        rep + replace_all(s.subrange(pat.len() as int, s.len() as int), pat, rep)
    } else {
        seq![s[0]] + replace_all(s.subrange(1, s.len() as int), pat, rep)
    }
}

/// The placeholder `${name}` that stands for the variable `name`.
pub open spec fn placeholder(name: Seq<char>) -> Seq<char> {
    seq!['$', '{'] + name + seq!['}']
}

/// The template with the single variable `name` bound to `value`: `None`
/// where the name or the value holds a forbidden character.
pub open spec fn substitute_spec(template: Seq<char>, name: Seq<char>, value: Seq<char>) -> Option<Seq<char>> {
    if has_forbidden_char(name) || has_forbidden_char(value) {
        None
    } else {
        Some(replace_all(template, placeholder(name), value))
    }
}

/// Relies on envsubst::substitute with one variable: it rejects a name or a
/// value that holds `$`, `{` or `}`, and otherwise returns the template
/// after `str::replace` of `${name}` by the value.
#[verifier::external_body]
fn substitute_one(template: &str, name: &str, value: &str) -> (r: Option<String>)
    ensures
        r is Some <==> substitute_spec(template@, name@, value@) is Some,
        r is Some ==> r->Some_0@ == substitute_spec(template@, name@, value@)->Some_0,
{
    let mut variables = std::collections::HashMap::new();
    variables.insert(name.to_owned(), value.to_owned());
    envsubst::substitute(template, &variables).ok()
}

/// A placeholder stands at `i` and closes at `j`: `${` at `i`, and `j` is
/// the first `}` after it; the variable's name lies between them.
pub open spec fn placeholder_at(s: Seq<char>, i: int, j: int) -> bool {
    &&& 0 <= i && i + 2 <= j < s.len()
    &&& s[i] == '$' && s[i + 1] == '{' && s[j] == '}'
    &&& forall|k: int| i + 2 <= k < j ==> s[k] != '}'
}

/// Whether a template holds a placeholder for a variable other than
/// `ip_address`, the only one defined.
pub open spec fn names_other_variable(s: Seq<char>) -> bool {
    exists|i: int, j: int| #[trigger] placeholder_at(s, i, j) && s.subrange(i + 2, j) != "ip_address"@
}

/// Relies on `str::chars`: the characters of the text, in order.
#[verifier::external_body]
fn chars_of(s: &str) -> (r: Vec<char>)
    ensures
        r@ == s@,
{
    s.chars().collect()
}

/// Whether `v@[from..to]` is `name@`.
fn slice_equals(v: &Vec<char>, from: usize, to: usize, name: &Vec<char>) -> (r: bool)
    requires
        from <= to <= v@.len(),
    ensures
        r == (v@.subrange(from as int, to as int) == name@),
{
    if to - from != name.len() {
        return false;
    }
    let mut k: usize = 0;
    while k < name.len()
        invariant
            from <= to <= v@.len(),
            to - from == name@.len(),
            k <= name@.len(),
            forall|m: int| 0 <= m < k ==> v@[from + m] == name@[m],
        decreases name@.len() - k,
    {
        if v[from + k] != name[k] {
            assert(v@.subrange(from as int, to as int)[k as int] != name@[k as int]);
            return false;
        }
        k = k + 1;
    }
    assert(v@.subrange(from as int, to as int) =~= name@);
    true
}

/// Whether the template names a variable other than `ip_address`.
fn find_other_variable(template: &str) -> (r: bool)
    ensures
        r == names_other_variable(template@),
{
    let v = chars_of(template);
    let ip = chars_of("ip_address");
    let n = v.len();
    let mut i: usize = 0;
    while i < n
        invariant
            n == v@.len(),
            v@ == template@,
            ip@ == "ip_address"@,
            i <= n,
            forall|a: int, b: int| 0 <= a < i && #[trigger] placeholder_at(v@, a, b)
                ==> v@.subrange(a + 2, b) == "ip_address"@,
        decreases n - i,
    {
        if i + 1 < n && v[i] == '$' && v[i + 1] == '{' {
            let mut j: usize = i + 2;
            while j < n && v[j] != '}'
                invariant
                    n == v@.len(),
                    i + 2 <= j <= n,
                    forall|k: int| i + 2 <= k < j ==> v@[k] != '}',
                decreases n - j,
            {
                j = j + 1;
            }
            if j < n {
                assert(placeholder_at(v@, i as int, j as int));
                if !slice_equals(&v, i + 2, j, &ip) {
                    return true;
                }
            }
            assert forall|b: int| #[trigger] placeholder_at(v@, i as int, b)
                implies v@.subrange(i + 2, b) == "ip_address"@ by {
                if b < j {
                    assert(v@[b] != '}');
                } else if b > j {
                    assert(v@[j as int] != '}');
                }
            }
        }
        i = i + 1;
    }
    false
}

/// The rendered template for a newly observed IP address, which stands for
/// the variable `ip_address`; `None` where the template names another
/// variable or the substitution is refused.
pub open spec fn render_spec(template: Seq<char>, ip_address: Seq<char>) -> Option<Seq<char>> {
    if names_other_variable(template) {
        None
    } else {
        substitute_spec(template, "ip_address"@, ip_address)
    }
}

/// Whether an error is the template failure for this template and address:
/// it carries the template and the one variable `ip_address` offered to it.
pub open spec fn is_template_error_for(e: RequestError, template: Seq<char>, ip_address: Seq<char>) -> bool {
    &&& e is TemplateError
    &&& e->TemplateError_0.template@ == template
    &&& e->TemplateError_0.variables@.len() == 1
    &&& e->TemplateError_0.variables@[0].0@ == "ip_address"@
    &&& e->TemplateError_0.variables@[0].1@ == ip_address
}

/// Renders the request template with the new IP address. It fails where the
/// template names an undefined variable, or where the address holds `$`,
/// `{` or `}`; a failure carries the template and the variables
/// that were offered to it.
pub fn render_registrar_requests(request_template: &str, ip_address: String) -> (r: Result<String, RequestError>)
    ensures
        r is Ok <==> render_spec(request_template@, ip_address@) is Some,
        r is Ok ==> r->Ok_0@ == render_spec(request_template@, ip_address@)->Some_0,
        r is Err ==> is_template_error_for(r->Err_0, request_template@, ip_address@),
{
    let accepted = if find_other_variable(request_template) {
        None
    } else {
        substitute_one(request_template, "ip_address", ip_address.as_str())
    };
    match accepted {
        Some(text) => Ok(text),
        None => {
            let mut variables: Vec<(String, String)> = Vec::new();
            variables.push(("ip_address".to_owned(), ip_address));
            Err(RequestError::TemplateError(TemplateError {
                template: request_template.to_owned(),
                variables,
            }))
        },
    }
}

} // verus!
