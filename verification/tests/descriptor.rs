use jmap_gateway::calculate_hash;
use jmap_gateway::error::ProblemDetails;
use jmap_gateway::jmap::rfc8620::build_session;

#[test]
fn unauthorized_problem_body() {
    let p = ProblemDetails::unauthorized();
    assert_eq!(p.problem_type, "unauthorized");
    assert_eq!(p.status, 401);
    assert_eq!(p.detail, "unauthorized");
    assert!(p.limit.is_none());
}

#[test]
fn unexpected_error_carries_the_status() {
    let p = ProblemDetails::unexpected_error(502);
    assert_eq!(p.problem_type, "unexpected error");
    assert_eq!(p.status, 502);
}

#[test]
fn session_descriptor_for_identity() {
    let session = build_session(&String::from("alice@example.org"));
    assert_eq!(session.username, "alice@example.org");
    assert_eq!(session.api_url, "/jmap");
    assert_eq!(session.accounts.len(), 1);
    assert_eq!(session.accounts[0].0, "alice@example.org");
    assert_eq!(session.accounts[0].1.name, "alice@example.org");
    assert!(session.accounts[0].1.is_personal);
    assert!(!session.accounts[0].1.is_read_only);
    assert_eq!(
        session.primary_accounts,
        vec![("urn:ietf:params:jmap:mail".to_string(), "alice@example.org".to_string())]
    );
    assert_eq!(session.capabilities.core.max_calls_in_request, 16);
    assert_eq!(session.capabilities.core.max_size_upload, 50_000_000);
    assert_eq!(session.state, "");
}

#[test]
fn state_hash_is_a_function_of_the_text() {
    let a = String::from("descriptor body");
    let b = String::from("descriptor body");
    let c = String::from("another body");
    assert_eq!(calculate_hash(&a), calculate_hash(&b));
    assert_ne!(calculate_hash(&a), calculate_hash(&c));
}
