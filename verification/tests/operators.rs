use darkhorse_store::authentication::AuthError;
use darkhorse_store::directory::{AccountAction, AccountStatus, DirectoryFailure, DirectoryRule};
use darkhorse_store::operators::{
    account_result, account_values, credential_current, metadata, retirement, catalog_values, client_result, detail_values, directory_error,
    inventory, read_result, registration_error, returned_count, secret_result, selectors,
    AccountOperation, CatalogTarget, OperatorError, ReadTarget, SecretMetadata, SecretOperation,
    SecretOutcome, INVENTORY_PAGE,
};
use darkhorse_store::registration::{Command, RegistrationError};

#[test]
fn operator_errors() {
    assert_eq!(registration_error(RegistrationError::Invalid), OperatorError::Invalid);
    assert_eq!(registration_error(RegistrationError::NotFound), OperatorError::NotFound);
    assert_eq!(registration_error(RegistrationError::Conflict), OperatorError::Conflict);
    assert_eq!(registration_error(RegistrationError::Unauthorized), OperatorError::Denied);
    assert_eq!(registration_error(RegistrationError::Forbidden), OperatorError::Denied);
    assert_eq!(registration_error(RegistrationError::RecentAuthenticationRequired), OperatorError::Denied);
    assert_eq!(registration_error(RegistrationError::Unavailable), OperatorError::Unavailable);
    assert_eq!(directory_error(DirectoryFailure::Policy(DirectoryRule::Rejected)), OperatorError::PolicyRejected);
    assert_eq!(directory_error(DirectoryFailure::NotFound), OperatorError::NotFound);
    assert_eq!(directory_error(DirectoryFailure::Conflict), OperatorError::Conflict);
    assert_eq!(directory_error(DirectoryFailure::Unavailable), OperatorError::Unavailable);
}

#[test]
fn account_audit_values() {
    assert_eq!(account_values(AccountOperation::Show(3)), ("account.show", 3, None));
    let change = |action| AccountOperation::Change { target: 4, revision: 7, action };
    assert_eq!(account_values(change(AccountAction::RevokeAll)), ("account.revoke_all", 4, Some(7)));
    assert_eq!(
        account_values(change(AccountAction::SetStatus(AccountStatus::Inactive))),
        ("account.deactivate", 4, Some(7))
    );
    assert_eq!(
        account_values(change(AccountAction::SetStatus(AccountStatus::Active))),
        ("account.reactivate", 4, Some(7))
    );
}

#[test]
fn account_audit_results() {
    let show = AccountOperation::Show(1);
    let change = AccountOperation::Change { target: 1, revision: 1, action: AccountAction::RevokeAll };
    assert_eq!(account_result(show, Ok(true)), Ok("read"));
    assert_eq!(account_result(change, Ok(true)), Ok("changed"));
    assert_eq!(account_result(change, Ok(false)), Ok("unchanged"));
    assert_eq!(account_result(change, Err(OperatorError::Denied)), Ok("denied"));
    assert_eq!(account_result(change, Err(OperatorError::NotFound)), Ok("not_found"));
    assert_eq!(account_result(change, Err(OperatorError::Conflict)), Ok("conflict"));
    assert_eq!(account_result(change, Err(OperatorError::PolicyRejected)), Ok("policy_rejected"));
    assert_eq!(account_result(change, Err(OperatorError::Uncertain)), Err(OperatorError::Unavailable));
    assert_eq!(account_result(change, Err(OperatorError::Invalid)), Err(OperatorError::Unavailable));
}

#[test]
fn read_and_listing_audits() {
    assert_eq!(read_result(Ok(())), "read");
    assert_eq!(read_result(Err(OperatorError::NotFound)), "not_found");
    assert_eq!(read_result(Err(OperatorError::Unavailable)), "denied");
    assert_eq!(catalog_values(CatalogTarget::Applications), ("application.list", None));
    assert_eq!(catalog_values(CatalogTarget::Clients(5)), ("client.list", Some(5)));
    assert_eq!(detail_values(ReadTarget::Application(5)), ("application.show", 5, None));
    assert_eq!(detail_values(ReadTarget::Client { application: 5, client: 6 }), ("client.show", 5, Some(6)));
    assert_eq!(returned_count(25), Ok(25));
    assert_eq!(returned_count(i32::MAX as usize), Ok(i32::MAX));
    assert_eq!(returned_count(i32::MAX as usize + 1), Err(OperatorError::Unavailable));
}

#[test]
fn client_audit_results() {
    assert_eq!(client_result(Ok(())), Ok("written"));
    assert_eq!(client_result(Err(OperatorError::Denied)), Ok("denied"));
    assert_eq!(client_result(Err(OperatorError::Invalid)), Ok("invalid"));
    assert_eq!(client_result(Err(OperatorError::NotFound)), Ok("not_found"));
    assert_eq!(client_result(Err(OperatorError::Conflict)), Ok("conflict"));
    assert_eq!(client_result(Err(OperatorError::Uncertain)), Err(OperatorError::Unavailable));
}

#[test]
fn secret_audits() {
    let list = SecretOperation::List { after: Some(3), limit: 10 };
    let retire = SecretOperation::Retire { secret: 8, revision: 2 };
    assert_eq!(selectors(list), ("client.secret.list", None, None, Some(3), Some(10)));
    assert_eq!(selectors(retire), ("client.secret.retire", Some(8), Some(2), None, None));
    assert_eq!(secret_result(list, Ok(SecretOutcome::Listed(4))), Ok(("read", Some(4))));
    assert_eq!(secret_result(list, Ok(SecretOutcome::Listed(11))), Err(OperatorError::Unavailable));
    assert_eq!(secret_result(retire, Ok(SecretOutcome::Retired(3))), Ok(("written", None)));
    assert_eq!(secret_result(list, Ok(SecretOutcome::Retired(3))), Err(OperatorError::Unavailable));
    assert_eq!(secret_result(list, Err(OperatorError::Denied)), Ok(("denied", None)));
    assert_eq!(secret_result(retire, Err(OperatorError::NotFound)), Ok(("not_found", None)));
    assert_eq!(secret_result(retire, Err(OperatorError::Conflict)), Ok(("conflict", None)));
    assert_eq!(secret_result(list, Err(OperatorError::Conflict)), Err(OperatorError::Unavailable));
}

fn secret(id: u128) -> SecretMetadata {
    SecretMetadata { id, created_ms: 1, expires_ms: None, retired: false }
}

#[test]
fn secret_inventory_pages() {
    let inv = inventory(4, 77, vec![secret(1), secret(2), secret(3)], 2).expect("a page");
    assert_eq!((inv.revision, inv.observed_ms), (4, 77));
    assert_eq!(inv.items, vec![secret(1), secret(2)]);
    assert_eq!(inv.next, Some(2));
    let last = inventory(4, 77, vec![secret(1)], 2).expect("a page");
    assert_eq!(last.next, None);
    assert!(matches!(inventory(4, 77, vec![], 0), Err(OperatorError::Unavailable)));
    assert!(matches!(inventory(4, 77, vec![], INVENTORY_PAGE + 1), Err(OperatorError::Unavailable)));
    assert!(matches!(inventory(4, 77, vec![secret(1), secret(2), secret(3), secret(4)], 2), Err(OperatorError::Unavailable)));
    assert!(matches!(inventory(-1, 77, vec![], 2), Err(OperatorError::Unavailable)));
    assert!(inventory(0, 77, vec![], INVENTORY_PAGE).is_ok());
}

#[test]
fn operator_credentials_stay_current_until_denied() {
    assert_eq!(credential_current(Ok(())), Ok(true));
    assert_eq!(credential_current(Err(AuthError::Denied)), Ok(false));
    assert_eq!(credential_current(Err(AuthError::Unavailable)), Err(OperatorError::Unavailable));
}

#[test]
fn stored_secret_metadata() {
    assert_eq!(
        metadata(3, 10, Some(20), true),
        Ok(SecretMetadata { id: 3, created_ms: 10, expires_ms: Some(20), retired: true })
    );
    assert_eq!(metadata(3, 10, None, false), Ok(SecretMetadata { id: 3, created_ms: 10, expires_ms: None, retired: false }));
    assert_eq!(metadata(3, -10, None, false), Err(OperatorError::Unavailable));
    assert_eq!(metadata(3, 10, Some(-1), false), Err(OperatorError::Unavailable));
}

#[test]
fn retiring_a_secret_is_a_registration_command() {
    assert_eq!(
        retirement(SecretOperation::Retire { secret: 5, revision: 6 }, 1, 2),
        Ok(Command::RetireSecret { application: 1, client: 2, secret: 5, revision: 6 })
    );
    assert_eq!(retirement(SecretOperation::List { after: None, limit: 3 }, 1, 2), Err(OperatorError::Invalid));
}
