use teamup::auth::{parse_token, GateEvent, GateState, GithubUserData, ProviderReply};

fn octocat() -> GithubUserData {
    GithubUserData { login: "octocat".to_string(), avatar_url: "http://a/o.png".to_string() }
}

fn after_header(header: Option<&str>) -> GateState {
    GateState::Unauthenticated.step(GateEvent::HeaderSeen(header.map(|h| h.to_string())))
}

#[test]
fn parse_token_strips_bearer_scheme() {
    assert_eq!(parse_token(Some("Bearer abc123")), Some("abc123".to_string()));
    assert_eq!(parse_token(Some("Bearer ")), Some(String::new()));
}

#[test]
fn parse_token_refuses_other_inputs() {
    assert_eq!(parse_token(None), None);
    assert_eq!(parse_token(Some("Basic abc123")), None);
    assert_eq!(parse_token(Some("bearer abc123")), None);
    assert_eq!(parse_token(Some("Bearer")), None);
    assert_eq!(parse_token(Some("")), None);
}

#[test]
fn bearer_header_leads_to_verification() {
    match after_header(Some("Bearer tok")) {
        GateState::PendingVerification { token } => assert_eq!(token, "tok"),
        _ => panic!("expected a pending verification"),
    }
}

#[test]
fn missing_or_malformed_header_is_rejected() {
    assert!(matches!(after_header(None), GateState::Rejected));
    assert!(matches!(after_header(Some("Token tok")), GateState::Rejected));
    assert!(after_header(None).identity().is_none());
}

#[test]
fn confirmed_token_grants_identity() {
    let state = after_header(Some("Bearer tok")).step(GateEvent::ProviderReplied(
        ProviderReply::Answered { status: 200, user: Some(octocat()) },
    ));
    let who = state.identity().expect("an identity");
    assert_eq!(who.login, "octocat");
    assert_eq!(who.avatar_url, "http://a/o.png");
}

#[test]
fn provider_failures_grant_no_identity() {
    let replies = vec![
        ProviderReply::Answered { status: 401, user: Some(octocat()) },
        ProviderReply::Answered { status: 500, user: None },
        ProviderReply::Answered { status: 200, user: None },
        ProviderReply::Answered {
            status: 200,
            user: Some(GithubUserData { login: String::new(), avatar_url: String::new() }),
        },
        ProviderReply::Unreachable,
    ];
    for reply in replies {
        let state = after_header(Some("Bearer tok")).step(GateEvent::ProviderReplied(reply));
        assert!(matches!(state, GateState::Rejected));
        assert!(state.identity().is_none());
    }
}

#[test]
fn reply_without_pending_token_is_rejected() {
    let state = GateState::Unauthenticated
        .step(GateEvent::ProviderReplied(ProviderReply::Answered { status: 200, user: Some(octocat()) }));
    assert!(state.identity().is_none());
}
