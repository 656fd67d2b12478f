use darkhorse_store::directory::{
    bootstrap_allowed, bootstrap_step, BootstrapError,
    assignment_statement, audit_values, authority_error, directory_error, event, owner_error, page,
    rename_needed, selection, snapshot, status, AccountAction, AccountStatus, AdminError,
    ApplicationSummary, DirectoryFailure, DirectoryRule, Names, SessionError, User, UserChange,
};
use darkhorse_store::registration::RegistrationError;

#[test]
fn account_events() {
    assert_eq!(event(AccountAction::RevokeAll), "account.revoked");
    assert_eq!(event(AccountAction::SetStatus(AccountStatus::Inactive)), "account.deactivated");
    assert_eq!(event(AccountAction::SetStatus(AccountStatus::Active)), "account.reactivated");
}

#[test]
fn snapshots_and_statuses() {
    let s = snapshot(AccountStatus::Active, 2, 3, true, 4);
    assert_eq!((s.status, s.credential_epoch, s.revision, s.eligible_administrator, s.eligible_administrators), (AccountStatus::Active, 2, 3, true, 4));
    assert_eq!(status(true), AccountStatus::Active);
    assert_eq!(status(false), AccountStatus::Inactive);
}

#[test]
fn admin_errors() {
    assert_eq!(directory_error(DirectoryFailure::NotFound), AdminError::NotFound);
    assert_eq!(directory_error(DirectoryFailure::Conflict), AdminError::Conflict);
    assert_eq!(directory_error(DirectoryFailure::Policy(DirectoryRule::LastAdministrator)), AdminError::LastAdministrator);
    assert_eq!(directory_error(DirectoryFailure::Policy(DirectoryRule::Rejected)), AdminError::Invalid);
    assert_eq!(directory_error(DirectoryFailure::Unavailable), AdminError::Unavailable);
    assert_eq!(authority_error(RegistrationError::Unauthorized), AdminError::Unauthorized);
    assert_eq!(authority_error(RegistrationError::Forbidden), AdminError::Forbidden);
    assert_eq!(authority_error(RegistrationError::RecentAuthenticationRequired), AdminError::RecentAuthentication);
    assert_eq!(authority_error(RegistrationError::NotFound), AdminError::Unavailable);
    assert_eq!(owner_error(SessionError::Unavailable), AdminError::Unavailable);
    assert_eq!(owner_error(SessionError::Unauthorized), AdminError::Unauthorized);
}

fn user(id: u128) -> User {
    User {
        id,
        email: format!("u{id}@example.org"),
        first_name: "F".into(),
        last_name: "L".into(),
        status: AccountStatus::Active,
        revision: 1,
        administrator: false,
        email_verified: true,
    }
}

#[test]
fn user_pages() {
    let p = page(9, vec![user(1), user(2), user(3)], 2);
    assert_eq!(p.actor, 9);
    assert_eq!(p.items.iter().map(|u| u.id).collect::<Vec<_>>(), vec![1, 2]);
    assert_eq!(p.next, Some(2));
    let last = page(9, vec![user(1)], 2);
    assert_eq!(last.items.len(), 1);
    assert_eq!(last.next, None);
}

fn app(id: u128) -> ApplicationSummary {
    ApplicationSummary { id, name: format!("a{id}"), active: true }
}

#[test]
fn application_selection() {
    let apps = [app(4), app(6)];
    assert_eq!(selection(&apps, Some(6)), Ok(Some(6)));
    assert_eq!(selection(&apps, Some(5)), Err(AdminError::NotFound));
    assert_eq!(selection(&apps, None), Ok(Some(4)));
    assert_eq!(selection(&[], None), Ok(None));
    assert_eq!(selection(&[], Some(1)), Err(AdminError::NotFound));
}

#[test]
fn user_change_audits() {
    let names = Names { first: "A".into(), last: "B".into() };
    assert_eq!(audit_values(&UserChange::Names(names)), ("names_changed", None, None));
    assert_eq!(audit_values(&UserChange::Status(AccountStatus::Active)), ("reactivated", None, None));
    assert_eq!(audit_values(&UserChange::Status(AccountStatus::Inactive)), ("deactivated", None, None));
    assert_eq!(
        audit_values(&UserChange::Role { application: 1, role: 2, assigned: true, policy_revision: 3 }),
        ("role_assigned", Some(1), Some(2))
    );
    assert_eq!(
        audit_values(&UserChange::Role { application: 1, role: 2, assigned: false, policy_revision: 3 }),
        ("role_removed", Some(1), Some(2))
    );
}

#[test]
fn renames_only_when_a_name_changes() {
    let a = Names { first: "Ada".into(), last: "Lovelace".into() };
    let same = Names { first: "Ada".into(), last: "Lovelace".into() };
    let other = Names { first: "Ada".into(), last: "King".into() };
    assert!(!rename_needed(&a, &same));
    assert!(rename_needed(&a, &other));
}

#[test]
fn assignment_statements() {
    assert_eq!(
        assignment_statement(true),
        "INSERT INTO principal_roles(principal_id,application_id,role_id) VALUES($1,$2,$3) ON CONFLICT DO NOTHING"
    );
    assert_eq!(
        assignment_statement(false),
        "DELETE FROM principal_roles WHERE principal_id=$1 AND application_id=$2 AND role_id=$3"
    );
}

#[test]
fn bootstrapping_happens_once() {
    assert_eq!(bootstrap_allowed(false), Ok(()));
    assert_eq!(bootstrap_allowed(true), Err(BootstrapError::AlreadyInitialized));
}

#[test]
fn a_second_bootstrap_is_refused() {
    let (answer, flag) = bootstrap_step(false, true, 42);
    assert_eq!(answer, Ok(42));
    assert!(flag);
    assert_eq!(bootstrap_step(flag, true, 43), (Err(BootstrapError::AlreadyInitialized), true));
    assert_eq!(bootstrap_step(false, false, 42), (Err(BootstrapError::Storage), false));
}
