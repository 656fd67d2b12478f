use darkhorse_store::delivery::{
    admission_counts, admission_window,
    invitation_counters, request_counters, InvitationCounters, RequestCounters, acceptance, admin_error, admitted_attempt, delivery, outcome, record, session_error,
    DeliveryResult, InvitationRow, MailError, QueuedRow,
};
use darkhorse_store::directory::SessionError;
use darkhorse_store::registration::RegistrationError;

#[test]
fn delivery_outcomes() {
    assert_eq!(outcome(DeliveryResult::Accepted, Some(5)), ("accepted", "accepted", None));
    assert_eq!(outcome(DeliveryResult::Retry, Some(5)), ("queued", "retry", Some(5)));
    assert_eq!(outcome(DeliveryResult::Retry, None), ("failed", "failed", None));
    assert_eq!(outcome(DeliveryResult::Rejected, Some(5)), ("failed", "failed", None));
}

fn queued(attempts: i16, seed_len: usize) -> QueuedRow {
    QueuedRow { id: 8, created_ms: 100, attempts, email: "a@b.c".into(), seed: vec![3; seed_len] }
}

#[test]
fn a_claimed_row_is_the_next_attempt() {
    let d = delivery(queued(0, 32)).expect("well formed");
    assert_eq!((d.id, d.created_ms, d.attempt), (8, 100, 1));
    assert_eq!(d.email, "a@b.c");
    assert_eq!(d.seed, [3u8; 32]);
    assert_eq!(delivery(queued(4, 32)).expect("well formed").attempt, 5);
}

#[test]
fn malformed_claimed_rows_are_refused() {
    assert!(delivery(queued(0, 31)).is_none());
    let mut row = queued(0, 32);
    row.created_ms = -1;
    assert!(delivery(row).is_none());
}

#[test]
fn mail_errors() {
    assert_eq!(session_error(SessionError::Unauthorized), MailError::Unauthorized);
    assert_eq!(session_error(SessionError::Unavailable), MailError::Unavailable);
    assert_eq!(admin_error(RegistrationError::Unauthorized), MailError::Unauthorized);
    assert_eq!(admin_error(RegistrationError::Forbidden), MailError::Forbidden);
    assert_eq!(admin_error(RegistrationError::RecentAuthenticationRequired), MailError::RecentAuthentication);
    assert_eq!(admin_error(RegistrationError::Conflict), MailError::Unavailable);
}

fn invitation(expires_ms: i64, closed: bool) -> InvitationRow {
    InvitationRow {
        id: 4,
        email: "x@y.z".into(),
        created_ms: 10,
        expires_ms,
        closed,
        delivery_state: "queued".into(),
    }
}

#[test]
fn invitations_close_when_expired() {
    let open = record(invitation(100, false), 99).expect("well formed");
    assert!(!open.closed);
    assert_eq!((open.id, open.created_ms, open.expires_ms), (4, 10, 100));
    assert_eq!(open.delivery, "queued");
    assert!(record(invitation(100, false), 100).expect("well formed").closed);
    assert!(record(invitation(100, true), 0).expect("well formed").closed);
    assert!(record(invitation(-1, false), 0).is_none());
}

#[test]
fn acceptance_needs_the_expected_admitted_invitation() {
    assert_eq!(acceptance(Ok(()), 3, 3, 1), Ok(()));
    assert_eq!(acceptance(Ok(()), 3, 4, 1), Err(MailError::Invalid));
    assert_eq!(acceptance(Ok(()), 3, 3, 0), Err(MailError::Invalid));
    assert_eq!(acceptance(Err(MailError::Unavailable), 3, 3, 1), Err(MailError::Unavailable));
}

#[test]
fn admission_attempts_count_from_one() {
    assert_eq!(admitted_attempt(0), 1);
    assert_eq!(admitted_attempt(6), 7);
}

#[test]
fn stored_counters_for_the_issuing_policy() {
    assert_eq!(
        request_counters(Some(50), 2, 3),
        Ok(RequestCounters { last_ms: Some(50), daily: 2, queued: 3 })
    );
    assert_eq!(request_counters(None, 0, 0), Ok(RequestCounters { last_ms: None, daily: 0, queued: 0 }));
    assert_eq!(request_counters(Some(-1), 0, 0).map(|c| c.last_ms), Ok(Some(u64::MAX)));
    assert_eq!(request_counters(None, -1, 0), Err(MailError::Unavailable));
    assert_eq!(
        invitation_counters(None, 1, 2, 3),
        Ok(InvitationCounters { last_ms: None, recipient_daily: 1, actor_daily: 2, queued: 3 })
    );
    assert_eq!(invitation_counters(None, 1, -2, 3), Err(MailError::Unavailable));
}

#[test]
fn hashing_admissions() {
    assert_eq!(admission_window(100_000), 40_000);
    assert_eq!(admission_window(60_000), 0);
    assert_eq!(admission_window(5), 0);
    assert_eq!(admission_counts(3, 40), (3, 40));
    assert_eq!(admission_counts(-1, 0), (u64::MAX, 0));
}
