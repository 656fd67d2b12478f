use darkhorse_store::oidc::{
    issuable,
    approval_error,
    decide, live_session, Action, Decision,
    bound_session, max_age, scope_bound, SCOPE_LIMIT, bindable, catalog_bounds, consent_lookup, convert, digest, parse_prompt, prompt, ready,
    revisions_unchanged, AuthorizationError, Interaction, Prompt, Session, TokenError,
    REDIRECT_LIMIT, RESOURCE_LIMIT,
};

const PROMPTS: [Prompt; 5] = [Prompt::Default, Prompt::Silent, Prompt::Login, Prompt::Consent, Prompt::LoginConsent];

#[test]
fn prompts_are_stored_by_name() {
    assert_eq!(prompt(Prompt::Default), "default");
    assert_eq!(prompt(Prompt::Silent), "none");
    assert_eq!(prompt(Prompt::Login), "login");
    assert_eq!(prompt(Prompt::Consent), "consent");
    assert_eq!(prompt(Prompt::LoginConsent), "login_consent");
}

#[test]
fn every_prompt_round_trips() {
    for p in PROMPTS {
        assert_eq!(parse_prompt(prompt(p)), Ok(p));
    }
}

#[test]
fn unknown_prompts_are_a_corrupt_store() {
    assert_eq!(parse_prompt("select_account"), Err(AuthorizationError::Unavailable));
    assert_eq!(parse_prompt("Login"), Err(AuthorizationError::Unavailable));
    assert_eq!(parse_prompt(""), Err(AuthorizationError::Unavailable));
}

#[test]
fn stored_digests() {
    assert_eq!(digest(None), Ok(None));
    assert_eq!(digest(Some(vec![9; 32])), Ok(Some([9; 32])));
    assert_eq!(digest(Some(vec![9; 31])), Err(AuthorizationError::Unavailable));
}

fn session() -> Session {
    Session { digest: [1; 32], principal: 5, authenticated_ms: 6 }
}

#[test]
fn binding_sessions() {
    assert!(matches!(bindable(Some(session()), Interaction::Login), Ok(None)));
    assert!(matches!(bindable(None, Interaction::Login), Ok(None)));
    assert!(matches!(bindable(None, Interaction::Consent), Err(AuthorizationError::InvalidTransaction)));
    match bindable(Some(session()), Interaction::Ready) {
        Ok(Some(s)) => assert_eq!((s.principal, s.authenticated_ms), (5, 6)),
        _ => panic!("a current session binds"),
    }
}

#[test]
fn codes_need_a_ready_request() {
    assert_eq!(ready(Interaction::Ready), Ok(()));
    assert_eq!(ready(Interaction::Login), Err(TokenError::InvalidGrant));
    assert_eq!(ready(Interaction::Consent), Err(TokenError::InvalidGrant));
    assert_eq!(convert(AuthorizationError::Unavailable), TokenError::Unavailable);
    assert_eq!(convert(AuthorizationError::AccessDenied), TokenError::InvalidGrant);
    assert_eq!(convert(AuthorizationError::InvalidTransaction), TokenError::InvalidGrant);
}

#[test]
fn consent_is_looked_up_only_for_plain_requests() {
    assert!(consent_lookup(&None, Some(session())).is_some());
    assert!(consent_lookup(&Some("https://api".to_string()), Some(session())).is_none());
    assert!(consent_lookup(&None, None).is_none());
}

#[test]
fn pending_requests_must_match_revisions() {
    assert_eq!(revisions_unchanged(1, 2, 1, 2), Ok(()));
    assert_eq!(revisions_unchanged(1, 2, 3, 2), Err(AuthorizationError::InvalidTransaction));
    assert_eq!(revisions_unchanged(1, 2, 1, 3), Err(AuthorizationError::InvalidTransaction));
}

#[test]
fn client_catalog_bounds() {
    assert_eq!(catalog_bounds(REDIRECT_LIMIT, RESOURCE_LIMIT), Ok(()));
    assert_eq!(catalog_bounds(REDIRECT_LIMIT + 1, 0), Err(AuthorizationError::Unavailable));
    assert_eq!(catalog_bounds(0, RESOURCE_LIMIT + 1), Err(AuthorizationError::Unavailable));
}

#[test]
fn stored_request_columns() {
    assert_eq!(scope_bound(SCOPE_LIMIT), Ok(()));
    assert_eq!(scope_bound(SCOPE_LIMIT + 1), Err(AuthorizationError::Unavailable));
    assert!(matches!(bound_session(None, 1, 2), Ok(None)));
    match bound_session(Some(vec![4; 32]), 1, 2) {
        Ok(Some(s)) => assert_eq!((s.digest, s.principal, s.authenticated_ms), ([4; 32], 1, 2)),
        _ => panic!("a bound session"),
    }
    assert!(matches!(bound_session(Some(vec![4; 31]), 1, 2), Err(AuthorizationError::Unavailable)));
    assert!(matches!(bound_session(Some(vec![4; 32]), 1, -2), Err(AuthorizationError::Unavailable)));
    assert_eq!(max_age(None), Ok(None));
    assert_eq!(max_age(Some(300)), Ok(Some(300)));
    assert_eq!(max_age(Some(-1)), Err(AuthorizationError::Unavailable));
}

#[test]
fn admitted_decisions() {
    assert!(matches!(decide(Decision::Inspect, Interaction::Consent, None), Ok(Action::View(Interaction::Consent))));
    assert!(matches!(decide(Decision::Deny, Interaction::Consent, Some(session())), Ok(Action::Deny)));
    assert!(matches!(decide(Decision::Approve, Interaction::Consent, None), Err(AuthorizationError::InvalidTransaction)));
    match decide(Decision::Approve, Interaction::Consent, Some(session())) {
        Ok(Action::Approve(s)) => assert_eq!(s.principal, 5),
        _ => panic!("approval with a session"),
    }
}

#[test]
fn live_sessions_count_from_creation() {
    let s = live_session(true, [2; 32], 7, 40).expect("live");
    assert_eq!((s.digest, s.principal, s.authenticated_ms), ([2; 32], 7, 40));
    assert!(live_session(false, [2; 32], 7, 40).is_none());
}

#[test]
fn refused_approvals() {
    assert_eq!(approval_error(TokenError::Unavailable), AuthorizationError::Unavailable);
    assert_eq!(approval_error(TokenError::InvalidGrant), AuthorizationError::AccessDenied);
    assert_eq!(approval_error(TokenError::InvalidToken), AuthorizationError::AccessDenied);
}

#[test]
fn codes_go_to_the_current_session_of_a_ready_request() {
    assert_eq!(issuable(Interaction::Ready, Some(session())).map(|s| s.principal), Ok(5));
    assert_eq!(issuable(Interaction::Ready, None).map(|s| s.principal), Err(TokenError::InvalidGrant));
    assert_eq!(issuable(Interaction::Consent, Some(session())).map(|s| s.principal), Err(TokenError::InvalidGrant));
}
