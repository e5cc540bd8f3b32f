use ddns_client::error::RequestError;
use ddns_client::template::render_registrar_requests;

#[test]
fn replaces_every_placeholder() {
    let out = render_registrar_requests("a=${ip_address}&b=${ip_address}", "10.0.0.1".to_string()).unwrap();
    assert_eq!(out, "a=10.0.0.1&b=10.0.0.1");
}

#[test]
fn leaves_other_text_alone() {
    let out = render_registrar_requests("$ip_address {x} ${ip_address", "x".to_string()).unwrap();
    assert_eq!(out, "$ip_address {x} ${ip_address");
}

#[test]
fn undefined_variable_is_a_template_error() {
    for template in ["${other}", "a=${ip_address}&b=${x}", "${}", "${ip_addr}ess}", "${a${ip_address}"].iter() {
        match render_registrar_requests(template, "10.0.0.1".to_string()) {
            Err(RequestError::TemplateError(e)) => {
                assert_eq!(e.template, *template);
                assert_eq!(e.variables, vec![("ip_address".to_string(), "10.0.0.1".to_string())]);
            }
            other => panic!("expected a template error for {}, got {:?}", template, other),
        }
    }
}

#[test]
fn rejects_forbidden_characters_in_value() {
    for bad in ["a$b", "{", "}"].iter() {
        match render_registrar_requests("${ip_address}", bad.to_string()) {
            Err(RequestError::TemplateError(e)) => {
                assert_eq!(e.template, "${ip_address}");
                assert_eq!(e.variables[0].1, *bad);
            }
            other => panic!("expected a template error, got {:?}", other),
        }
    }
}

#[test]
fn only_the_template_is_checked_for_variables() {
    let out = render_registrar_requests("$${ip_address}{}", String::new()).unwrap();
    assert_eq!(out, "${}");
    let out = render_registrar_requests(r#"{"a":{"b":"${ip_address}"}}"#, "1.2.3.4".to_string()).unwrap();
    assert_eq!(out, r#"{"a":{"b":"1.2.3.4"}}"#);
    let out = render_registrar_requests("${ip_address", "1.2.3.4".to_string()).unwrap();
    assert_eq!(out, "${ip_address");
}
