//! Operator commands: the audit vocabulary of account, catalog, client and
//! client-secret operations, error mapping, and secret inventory paging.
use vstd::prelude::*;
use crate::directory::{AccountAction, AccountStatus, DirectoryFailure};
use crate::registration::{Command, RegistrationError};
use crate::authentication::AuthError;

verus! {

/// Why an operator command failed.
#[derive(Debug, Clone, Copy, PartialEq, Eq, Structural)]
pub enum OperatorError {
    Denied,
    NotFound,
    Conflict,
    PolicyRejected,
    Invalid,
    Unavailable,
    Uncertain,
}

/// The operator error of a registration failure: authority failures are
/// denials.
pub open spec fn registration_operator_error(e: RegistrationError) -> OperatorError {
    match e {
        RegistrationError::Invalid => OperatorError::Invalid,
        RegistrationError::NotFound => OperatorError::NotFound,
        RegistrationError::Conflict => OperatorError::Conflict,
        RegistrationError::Unauthorized => OperatorError::Denied,
        RegistrationError::Forbidden => OperatorError::Denied,
        RegistrationError::RecentAuthenticationRequired => OperatorError::Denied,
        RegistrationError::Unavailable => OperatorError::Unavailable,
    }
}

/// The operator error of a registration failure.
pub fn registration_error(e: RegistrationError) -> (r: OperatorError)
    ensures
        r == registration_operator_error(e),
{
    match e {
        RegistrationError::Invalid => OperatorError::Invalid,
        RegistrationError::NotFound => OperatorError::NotFound,
        RegistrationError::Conflict => OperatorError::Conflict,
        RegistrationError::Unauthorized
        | RegistrationError::Forbidden
        | RegistrationError::RecentAuthenticationRequired => OperatorError::Denied,
        RegistrationError::Unavailable => OperatorError::Unavailable,
    }
}

/// The operator error of a directory failure.
pub fn directory_error(e: DirectoryFailure) -> (r: OperatorError)
    ensures
        r == (match e {
            DirectoryFailure::NotFound => OperatorError::NotFound,
            DirectoryFailure::Conflict => OperatorError::Conflict,
            DirectoryFailure::Policy(_) => OperatorError::PolicyRejected,
            DirectoryFailure::Unavailable => OperatorError::Unavailable,
        }),
{
    match e {
        DirectoryFailure::NotFound => OperatorError::NotFound,
        DirectoryFailure::Conflict => OperatorError::Conflict,
        DirectoryFailure::Policy(_) => OperatorError::PolicyRejected,
        DirectoryFailure::Unavailable => OperatorError::Unavailable,
    }
}

/// An operator account command.
#[derive(Debug, Clone, Copy, PartialEq, Eq, Structural)]
pub enum AccountOperation {
    Show(u128),
    Change { target: u128, revision: u64, action: AccountAction },
}

/// The audited command name of an account operation.
pub open spec fn account_command(operation: AccountOperation) -> Seq<char> {
    match operation {
        AccountOperation::Show(_) => "account.show"@,
        AccountOperation::Change { action, .. } => match action {
            AccountAction::SetStatus(AccountStatus::Inactive) => "account.deactivate"@,
            AccountAction::SetStatus(AccountStatus::Active) => "account.reactivate"@,
            AccountAction::RevokeAll => "account.revoke_all"@,
        },
    }
}

/// The command, target and expected revision audited for an account operation.
pub fn account_values(operation: AccountOperation) -> (r: (&'static str, u128, Option<i64>))
    ensures
        r.0@ == account_command(operation),
        r.1 == (match operation { AccountOperation::Show(t) => t, AccountOperation::Change { target, .. } => target }),
        r.2 == (match operation {
            AccountOperation::Show(_) => None::<i64>,
            AccountOperation::Change { revision, .. } => Some(revision as i64),
        }),
{
    match operation {
        AccountOperation::Show(target) => ("account.show", target, None),
        AccountOperation::Change { target, revision, action } => (
            match action {
                AccountAction::SetStatus(AccountStatus::Inactive) => "account.deactivate",
                AccountAction::SetStatus(AccountStatus::Active) => "account.reactivate",
                AccountAction::RevokeAll => "account.revoke_all",
            },
            target,
            Some(revision as i64),
        ),
    }
}

/// The audited result of an account operation; `outcome` carries whether a
/// change changed the account. Unavailable and uncertain outcomes are not
/// audited.
pub open spec fn account_result_text(operation: AccountOperation, outcome: Result<bool, OperatorError>) -> Option<Seq<char>> {
    match outcome {
        Ok(changed) => if operation is Show {
            Some("read"@)
        } else if changed {
            Some("changed"@)
        } else {
            Some("unchanged"@)
        },
        Err(OperatorError::Denied) => Some("denied"@),
        Err(OperatorError::NotFound) => Some("not_found"@),
        Err(OperatorError::Conflict) => Some("conflict"@),
        Err(OperatorError::PolicyRejected) => Some("policy_rejected"@),
        Err(_) => None,
    }
}

/// The audited result of an account operation.
pub fn account_result(operation: AccountOperation, outcome: Result<bool, OperatorError>) -> (r: Result<&'static str, OperatorError>)
    ensures
        match account_result_text(operation, outcome) {
            Some(t) => r matches Ok(s) && s@ == t,
            None => r == Err::<&'static str, OperatorError>(OperatorError::Unavailable),
        },
{
    match outcome {
        Ok(changed) => {
            if let AccountOperation::Show(_) = operation {
                Ok("read")
            } else if changed {
                Ok("changed")
            } else {
                Ok("unchanged")
            }
        },
        Err(OperatorError::Denied) => Ok("denied"),
        Err(OperatorError::NotFound) => Ok("not_found"),
        Err(OperatorError::Conflict) => Ok("conflict"),
        Err(OperatorError::PolicyRejected) => Ok("policy_rejected"),
        Err(_) => Err(OperatorError::Unavailable),
    }
}

/// The audited result of a read: found, not found, or denied.
pub fn read_result(outcome: Result<(), OperatorError>) -> (r: &'static str)
    ensures
        r@ == (match outcome {
            Ok(_) => "read"@,
            Err(OperatorError::NotFound) => "not_found"@,
            Err(_) => "denied"@,
        }),
{
    match outcome {
        Ok(_) => "read",
        Err(OperatorError::NotFound) => "not_found",
        Err(_) => "denied",
    }
}

/// What a catalog listing command lists.
#[derive(Debug, Clone, Copy, PartialEq, Eq, Structural)]
pub enum CatalogTarget {
    Applications,
    Clients(u128),
}

/// The command and application audited for a catalog listing.
pub fn catalog_values(target: CatalogTarget) -> (r: (&'static str, Option<u128>))
    ensures
        r.0@ == (match target { CatalogTarget::Applications => "application.list"@, CatalogTarget::Clients(_) => "client.list"@ }),
        r.1 == (match target { CatalogTarget::Applications => None::<u128>, CatalogTarget::Clients(id) => Some(id) }),
{
    match target {
        CatalogTarget::Applications => ("application.list", None),
        CatalogTarget::Clients(id) => ("client.list", Some(id)),
    }
}

/// What a catalog detail command reads.
#[derive(Debug, Clone, Copy, PartialEq, Eq, Structural)]
pub enum ReadTarget {
    Application(u128),
    Client { application: u128, client: u128 },
}

/// The command, application and client audited for a catalog detail read.
pub fn detail_values(target: ReadTarget) -> (r: (&'static str, u128, Option<u128>))
    ensures
        r.0@ == (match target { ReadTarget::Application(_) => "application.show"@, ReadTarget::Client { .. } => "client.show"@ }),
        r.1 == (match target { ReadTarget::Application(app) => app, ReadTarget::Client { application, .. } => application }),
        r.2 == (match target { ReadTarget::Application(_) => None::<u128>, ReadTarget::Client { client, .. } => Some(client) }),
{
    match target {
        ReadTarget::Application(app) => ("application.show", app, None),
        ReadTarget::Client { application, client } => ("client.show", application, Some(client)),
    }
}

/// A returned row count as audited; `Unavailable` when it exceeds the
/// audit column.
pub fn returned_count(len: usize) -> (r: Result<i32, OperatorError>)
    ensures
        r == (if len <= i32::MAX { Ok::<i32, OperatorError>(len as i32) } else { Err(OperatorError::Unavailable) }),
{
    if len > 2147483647 {
        return Err(OperatorError::Unavailable);
    }
    Ok(len as i32)
}

/// The audited result of a client update.
pub fn client_result(outcome: Result<(), OperatorError>) -> (r: Result<&'static str, OperatorError>)
    ensures
        match outcome {
            Ok(_) => r matches Ok(s) && s@ == "written"@,
            Err(OperatorError::Denied) => r matches Ok(s) && s@ == "denied"@,
            Err(OperatorError::Invalid) => r matches Ok(s) && s@ == "invalid"@,
            Err(OperatorError::NotFound) => r matches Ok(s) && s@ == "not_found"@,
            Err(OperatorError::Conflict) => r matches Ok(s) && s@ == "conflict"@,
            Err(_) => r == Err::<&'static str, OperatorError>(OperatorError::Unavailable),
        },
{
    match outcome {
        Ok(_) => Ok("written"),
        Err(OperatorError::Denied) => Ok("denied"),
        Err(OperatorError::Invalid) => Ok("invalid"),
        Err(OperatorError::NotFound) => Ok("not_found"),
        Err(OperatorError::Conflict) => Ok("conflict"),
        Err(_) => Err(OperatorError::Unavailable),
    }
}

/// A client-secret command.
#[derive(Debug, Clone, Copy, PartialEq, Eq, Structural)]
pub enum SecretOperation {
    List { after: Option<u128>, limit: u16 },
    Retire { secret: u128, revision: u64 },
}

/// The command, secret, expected revision, cursor and page size audited for
/// a client-secret command.
pub fn selectors(operation: SecretOperation) -> (r: (&'static str, Option<u128>, Option<i64>, Option<u128>, Option<i16>))
    ensures
        match operation {
            SecretOperation::List { after, limit } => r.0@ == "client.secret.list"@ && r.1 is None && r.2 is None
                && r.3 == after && r.4 == Some(limit as i16),
            SecretOperation::Retire { secret, revision } => r.0@ == "client.secret.retire"@ && r.1 == Some(secret)
                && r.2 == Some(revision as i64) && r.3 is None && r.4 is None,
        },
{
    match operation {
        SecretOperation::List { after, limit } => ("client.secret.list", None, None, after, Some(limit as i16)),
        SecretOperation::Retire { secret, revision } => ("client.secret.retire", Some(secret), Some(revision as i64), None, None),
    }
}

/// The outcome of a client-secret command.
#[derive(Debug, Clone, Copy, PartialEq, Eq, Structural)]
pub enum SecretOutcome {
    /// Listed this many secrets.
    Listed(usize),
    /// Retired; the client is now at this revision.
    Retired(u64),
}

/// The audited result and returned count of a client-secret command;
/// outcomes that do not fit the command (or a list longer than its page)
/// and unavailable failures are not audited.
pub open spec fn secret_result_text(operation: SecretOperation, outcome: Result<SecretOutcome, OperatorError>) -> Option<(Seq<char>, Option<i16>)> {
    match (operation, outcome) {
        (SecretOperation::List { limit, .. }, Ok(SecretOutcome::Listed(n))) => if n <= limit {
            Some(("read"@, Some(n as i16)))
        } else {
            None
        },
        (SecretOperation::Retire { .. }, Ok(SecretOutcome::Retired(_))) => Some(("written"@, None)),
        (_, Err(OperatorError::Denied)) => Some(("denied"@, None)),
        (_, Err(OperatorError::NotFound)) => Some(("not_found"@, None)),
        (SecretOperation::Retire { .. }, Err(OperatorError::Conflict)) => Some(("conflict"@, None)),
        _ => None,
    }
}

/// The audited result and returned count of a client-secret command.
pub fn secret_result(operation: SecretOperation, outcome: Result<SecretOutcome, OperatorError>) -> (r: Result<(&'static str, Option<i16>), OperatorError>)
    ensures
        match secret_result_text(operation, outcome) {
            Some((t, n)) => r matches Ok((s, m)) && s@ == t && m == n,
            None => r == Err::<(&'static str, Option<i16>), OperatorError>(OperatorError::Unavailable),
        },
{
    match (operation, outcome) {
        (SecretOperation::List { limit, .. }, Ok(SecretOutcome::Listed(n))) => {
            if n <= limit as usize {
                Ok(("read", Some(n as i16)))
            } else {
                Err(OperatorError::Unavailable)
            }
        },
        (SecretOperation::Retire { .. }, Ok(SecretOutcome::Retired(_))) => Ok(("written", None)),
        (_, Err(OperatorError::Denied)) => Ok(("denied", None)),
        (_, Err(OperatorError::NotFound)) => Ok(("not_found", None)),
        (SecretOperation::Retire { .. }, Err(OperatorError::Conflict)) => Ok(("conflict", None)),
        _ => Err(OperatorError::Unavailable),
    }
}

/// Metadata of one client secret; its verifier never leaves the store.
#[derive(Debug, Clone, Copy, PartialEq, Eq, Structural)]
pub struct SecretMetadata {
    pub id: u128,
    pub created_ms: u64,
    pub expires_ms: Option<u64>,
    pub retired: bool,
}

/// A page of a client's secrets at its current revision.
#[derive(Debug, Clone)]
pub struct Inventory {
    pub revision: u64,
    pub observed_ms: u64,
    pub items: Vec<SecretMetadata>,
    pub next: Option<u128>,
}

/// Largest secret inventory page.
pub const INVENTORY_PAGE: u16 = 25;

/// The inventory page of fetched secrets (fetched one longer than the
/// page): `Unavailable` for a page size outside 1..=25, more rows than were
/// asked for, or a negative revision.
pub fn inventory(revision: i64, observed_ms: u64, items: Vec<SecretMetadata>, limit: u16) -> (r: Result<Inventory, OperatorError>)
    ensures
        (1 <= limit <= INVENTORY_PAGE && items@.len() <= limit + 1 && revision >= 0) <==> r is Ok,
        r is Err ==> r == Err::<Inventory, OperatorError>(OperatorError::Unavailable),
        r matches Ok(inv) ==> {
            &&& inv.revision == revision as u64
            &&& inv.observed_ms == observed_ms
            &&& inv.items@ == (if items@.len() > limit { items@.take(limit as int) } else { items@ })
            &&& inv.next == (if items@.len() > limit { Some(items@[limit - 1].id) } else { None })
        },
{
    if limit < 1 || limit > INVENTORY_PAGE || items.len() > limit as usize + 1 {
        return Err(OperatorError::Unavailable);
    }
    let more = items.len() > limit as usize;
    let mut items = items;
    items.truncate(limit as usize);
    let next = if more { Some(items[items.len() - 1].id) } else { None };
    if revision < 0 {
        return Err(OperatorError::Unavailable);
    }
    Ok(Inventory { revision: revision as u64, observed_ms, items, next })
}

/// Whether the operator's credential is still current, from the recheck of
/// its expected state: a denied recheck means no longer current, any other
/// failure leaves the command unavailable.
pub fn credential_current(recheck: Result<(), AuthError>) -> (r: Result<bool, OperatorError>)
    ensures
        r == (match recheck {
            Ok(_) => Ok::<bool, OperatorError>(true),
            Err(AuthError::Denied) => Ok(false),
            Err(_) => Err(OperatorError::Unavailable),
        }),
{
    match recheck {
        Ok(_) => Ok(true),
        Err(AuthError::Denied) => Ok(false),
        Err(_) => Err(OperatorError::Unavailable),
    }
}

/// The metadata of a stored client secret; a negative time means a corrupt
/// store.
pub fn metadata(id: u128, created_ms: i64, expires_ms: Option<i64>, retired: bool) -> (r: Result<SecretMetadata, OperatorError>)
    ensures
        (created_ms >= 0 && (expires_ms matches Some(e) ==> e >= 0)) <==> r is Ok,
        r is Err ==> r == Err::<SecretMetadata, OperatorError>(OperatorError::Unavailable),
        r matches Ok(m) ==> m == (SecretMetadata {
            id,
            created_ms: created_ms as u64,
            expires_ms: match expires_ms { Some(e) => Some(e as u64), None => None },
            retired,
        }),
{
    if created_ms < 0 {
        return Err(OperatorError::Unavailable);
    }
    let expires = match expires_ms {
        Some(e) => {
            if e < 0 {
                return Err(OperatorError::Unavailable);
            }
            Some(e as u64)
        },
        None => None,
    };
    Ok(SecretMetadata { id, created_ms: created_ms as u64, expires_ms: expires, retired })
}

/// The registration command retiring a secret of `client` in `application`;
/// `Invalid` for a listing.
pub fn retirement(operation: SecretOperation, application: u128, client: u128) -> (r: Result<Command, OperatorError>)
    ensures
        r == (match operation {
            SecretOperation::Retire { secret, revision } =>
                Ok::<Command, OperatorError>(Command::RetireSecret { application, client, secret, revision }),
            SecretOperation::List { .. } => Err(OperatorError::Invalid),
        }),
{
    match operation {
        SecretOperation::Retire { secret, revision } => Ok(Command::RetireSecret { application, client, secret, revision }),
        SecretOperation::List { .. } => Err(OperatorError::Invalid),
    }
}

} // verus!
