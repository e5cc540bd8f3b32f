use ddns_client::cycle::{render_and_make_registrar_requests, run_cycle, ChangeDecision, CycleAction, IpState};
use ddns_client::error::{DdnsError, RequestError};
use ddns_client::transport::{decode_service_response, request_scheme, RawResponse, RequestScheme, ServiceResponse};

const TEMPLATE: &str = r#"[{"name":"r1","method":"POST","address":"http://registrar.example/update?ip=${ip_address}","headers":{},"body":""}]"#;

fn resolved(ip: &str) -> Result<ServiceResponse, DdnsError> {
    Ok(ServiceResponse { ip: ip.to_string() })
}

#[test]
fn end_to_end_changed_address_dispatches_one_post() {
    let mut state = IpState::from_seed("");
    assert!(state.last().is_none());
    let reply = RawResponse { status: 200, body: br#"{"ip":"203.0.113.5"}"#.to_vec() };
    let discovered = decode_service_response(reply);
    match run_cycle(&mut state, TEMPLATE, discovered) {
        CycleAction::Dispatch(requests) => {
            assert_eq!(requests.len(), 1);
            assert_eq!(requests[0].name, "r1");
            assert_eq!(requests[0].method, "POST");
            assert_eq!(requests[0].address, "http://registrar.example/update?ip=203.0.113.5");
            assert!(requests[0].headers.is_empty());
            assert_eq!(requests[0].body, "\"\"");
            assert_eq!(request_scheme(&requests[0].address), RequestScheme::Http);
        }
        other => panic!("expected a dispatch, got {:?}", other),
    }
    assert_eq!(state.last().map(|s| s.as_str()), Some("203.0.113.5"));
}

#[test]
fn end_to_end_unchanged_address_sends_nothing() {
    let mut state = IpState::from_seed("203.0.113.5");
    let reply = RawResponse { status: 200, body: br#"{"ip":"203.0.113.5"}"#.to_vec() };
    let action = run_cycle(&mut state, TEMPLATE, decode_service_response(reply));
    assert!(matches!(action, CycleAction::Unchanged));
    assert_eq!(state.last().map(|s| s.as_str()), Some("203.0.113.5"));
}

#[test]
fn repeated_unchanged_cycles_leave_state_alone() {
    let mut state = IpState::from_seed("198.51.100.7");
    for _ in 0..5 {
        let action = run_cycle(&mut state, TEMPLATE, resolved("198.51.100.7"));
        assert!(matches!(action, CycleAction::Unchanged));
        assert_eq!(state.last().map(|s| s.as_str()), Some("198.51.100.7"));
    }
}

#[test]
fn change_is_applied_exactly_once() {
    let mut state = IpState::from_seed("198.51.100.7");
    let first = run_cycle(&mut state, TEMPLATE, resolved("203.0.113.9"));
    match first {
        CycleAction::Dispatch(requests) => {
            assert_eq!(requests[0].address, "http://registrar.example/update?ip=203.0.113.9");
        }
        other => panic!("expected a dispatch, got {:?}", other),
    }
    assert_eq!(state.last().map(|s| s.as_str()), Some("203.0.113.9"));
    let second = run_cycle(&mut state, TEMPLATE, resolved("203.0.113.9"));
    assert!(matches!(second, CycleAction::Unchanged));
}

#[test]
fn detector_reports_new_address() {
    let mut state = IpState::from_seed("10.0.0.1");
    match state.detect_change("10.0.0.2") {
        ChangeDecision::Changed(ip) => assert_eq!(ip, "10.0.0.2"),
        ChangeDecision::Unchanged => panic!("expected a change"),
    }
    assert!(matches!(state.detect_change("10.0.0.2"), ChangeDecision::Unchanged));
}

#[test]
fn unset_state_differs_from_any_address() {
    let mut state = IpState::from_seed("");
    assert!(matches!(state.detect_change(""), ChangeDecision::Changed(_)));
    assert_eq!(state.last().map(|s| s.as_str()), Some(""));
}

#[test]
fn failed_resolution_keeps_state() {
    let mut state = IpState::from_seed("10.0.0.1");
    let reply = RawResponse { status: 503, body: b"down".to_vec() };
    let action = run_cycle(&mut state, TEMPLATE, decode_service_response(reply));
    match action {
        CycleAction::Failed(error) => assert!(!error.is_fatal()),
        other => panic!("expected a failure, got {:?}", other),
    }
    assert_eq!(state.last().map(|s| s.as_str()), Some("10.0.0.1"));
}

#[test]
fn bad_template_fails_after_storing_address() {
    let mut state = IpState::from_seed("");
    let action = run_cycle(&mut state, "[{]", resolved("10.1.1.1"));
    match action {
        CycleAction::Failed(DdnsError::RequestError(RequestError::SerdeJsonError(_))) => {}
        other => panic!("expected a parse failure, got {:?}", other),
    }
    assert_eq!(state.last().map(|s| s.as_str()), Some("10.1.1.1"));
}

#[test]
fn forbidden_character_in_address_is_a_template_error() {
    let result = render_and_make_registrar_requests(TEMPLATE, "1.2.3.4}".to_string());
    match result {
        Err(DdnsError::RequestError(RequestError::TemplateError(error))) => {
            assert_eq!(error.template, TEMPLATE);
            assert_eq!(error.variables, vec![("ip_address".to_string(), "1.2.3.4}".to_string())]);
        }
        other => panic!("expected a template error, got {:?}", other),
    }
}

#[test]
fn template_with_undefined_variable_fails_the_cycle() {
    let mut state = IpState::from_seed("");
    let template = r#"[{"name":"r","method":"GET","address":"http://h/?ip=${ip_address}&key=${API_KEY}","headers":{},"body":""}]"#;
    match run_cycle(&mut state, template, resolved("10.2.2.2")) {
        CycleAction::Failed(DdnsError::RequestError(RequestError::TemplateError(error))) => {
            assert_eq!(error.template, template);
            assert_eq!(error.variables, vec![("ip_address".to_string(), "10.2.2.2".to_string())]);
        }
        other => panic!("expected a template error, got {:?}", other),
    }
}

#[test]
fn malformed_element_after_rendering_is_a_format_error() {
    let template = r#"[{"name":"r","method":"GET","address":"http://h/${ip_address}","headers":{"k":false},"body":""}]"#;
    let result = render_and_make_registrar_requests(template, "10.3.3.3".to_string());
    assert!(matches!(result, Err(DdnsError::RequestError(RequestError::FormatError))));
}
