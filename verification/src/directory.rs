//! Account directory: statuses and actions, their audit events, the
//! snapshot a status change is planned from, and the administration
//! directory's paging, application selection, audit vocabulary and error
//! mapping.
use vstd::prelude::*;
use crate::registration::RegistrationError;
use crate::sql::same_text;

verus! {

/// Whether an account may sign in.
#[derive(Debug, Clone, Copy, PartialEq, Eq, Structural)]
pub enum AccountStatus {
    Active,
    Inactive,
}

/// An action on an account's security state.
#[derive(Debug, Clone, Copy, PartialEq, Eq, Structural)]
pub enum AccountAction {
    /// Revoke every credential and session of the account.
    RevokeAll,
    SetStatus(AccountStatus),
}

/// The security-audit event of an account action.
pub open spec fn action_event(action: AccountAction) -> Seq<char> {
    match action {
        AccountAction::RevokeAll => "account.revoked"@,
        AccountAction::SetStatus(AccountStatus::Inactive) => "account.deactivated"@,
        AccountAction::SetStatus(AccountStatus::Active) => "account.reactivated"@,
    }
}

/// The security-audit event of an account action.
pub fn event(action: AccountAction) -> (r: &'static str)
    ensures
        r@ == action_event(action),
{
    match action {
        AccountAction::RevokeAll => "account.revoked",
        AccountAction::SetStatus(AccountStatus::Inactive) => "account.deactivated",
        AccountAction::SetStatus(AccountStatus::Active) => "account.reactivated",
    }
}

/// The security state of an account a change is planned from.
#[derive(Debug, Clone, Copy, PartialEq, Eq, Structural)]
pub struct AccountSnapshot {
    pub status: AccountStatus,
    pub credential_epoch: u64,
    pub revision: u64,
    pub eligible_administrator: bool,
    pub eligible_administrators: u64,
}

/// The snapshot of an account's current state, with the number of eligible
/// administrators counted by the database.
pub fn snapshot(
    status: AccountStatus,
    credential_epoch: u64,
    revision: u64,
    eligible_administrator: bool,
    administrators: i64,
) -> (r: AccountSnapshot)
    ensures
        r == (AccountSnapshot {
            status,
            credential_epoch,
            revision,
            eligible_administrator,
            eligible_administrators: administrators as u64,
        }),
{
    AccountSnapshot {
        status,
        credential_epoch,
        revision,
        eligible_administrator,
        eligible_administrators: administrators as u64,
    }
}

/// Whether a stored flag means an active account.
pub fn status(active: bool) -> (r: AccountStatus)
    ensures
        r == (if active { AccountStatus::Active } else { AccountStatus::Inactive }),
{
    if active { AccountStatus::Active } else { AccountStatus::Inactive }
}

/// A directory policy refusal.
#[derive(Debug, Clone, Copy, PartialEq, Eq, Structural)]
pub enum DirectoryRule {
    /// The change would leave no eligible administrator.
    LastAdministrator,
    /// Any other policy refusal.
    Rejected,
}

/// Why a directory read or change failed.
#[derive(Debug, Clone, Copy, PartialEq, Eq, Structural)]
pub enum DirectoryFailure {
    NotFound,
    Conflict,
    Policy(DirectoryRule),
    Unavailable,
}

/// Errors of the administration directory.
#[derive(Debug, Clone, Copy, PartialEq, Eq, Structural)]
pub enum AdminError {
    Unauthorized,
    Forbidden,
    RecentAuthentication,
    NotFound,
    Conflict,
    LastAdministrator,
    Invalid,
    Unavailable,
}

/// The administration error of a directory failure.
pub open spec fn directory_admin_error(e: DirectoryFailure) -> AdminError {
    match e {
        DirectoryFailure::NotFound => AdminError::NotFound,
        DirectoryFailure::Conflict => AdminError::Conflict,
        DirectoryFailure::Policy(DirectoryRule::LastAdministrator) => AdminError::LastAdministrator,
        DirectoryFailure::Policy(_) => AdminError::Invalid,
        DirectoryFailure::Unavailable => AdminError::Unavailable,
    }
}

/// The administration error of a directory failure.
pub fn directory_error(e: DirectoryFailure) -> (r: AdminError)
    ensures
        r == directory_admin_error(e),
{
    match e {
        DirectoryFailure::NotFound => AdminError::NotFound,
        DirectoryFailure::Conflict => AdminError::Conflict,
        DirectoryFailure::Policy(DirectoryRule::LastAdministrator) => AdminError::LastAdministrator,
        DirectoryFailure::Policy(_) => AdminError::Invalid,
        DirectoryFailure::Unavailable => AdminError::Unavailable,
    }
}

/// The administration error of a failed administrator authority check.
pub open spec fn authority_admin_error(e: RegistrationError) -> AdminError {
    match e {
        RegistrationError::Unauthorized => AdminError::Unauthorized,
        RegistrationError::Forbidden => AdminError::Forbidden,
        RegistrationError::RecentAuthenticationRequired => AdminError::RecentAuthentication,
        _ => AdminError::Unavailable,
    }
}

/// The administration error of a failed administrator authority check.
pub fn authority_error(e: RegistrationError) -> (r: AdminError)
    ensures
        r == authority_admin_error(e),
{
    match e {
        RegistrationError::Unauthorized => AdminError::Unauthorized,
        RegistrationError::Forbidden => AdminError::Forbidden,
        RegistrationError::RecentAuthenticationRequired => AdminError::RecentAuthentication,
        _ => AdminError::Unavailable,
    }
}

/// A directory user as the administration console shows it.
#[derive(Debug, Clone)]
pub struct User {
    pub id: u128,
    pub email: String,
    pub first_name: String,
    pub last_name: String,
    pub status: AccountStatus,
    pub revision: u64,
    pub administrator: bool,
    pub email_verified: bool,
}

/// A page of directory users for an acting administrator.
#[derive(Debug, Clone)]
pub struct UserPage {
    pub actor: u128,
    pub items: Vec<User>,
    pub next: Option<u128>,
}

/// Cuts fetched users (fetched one longer than the page) to `limit` and sets
/// the next cursor to the last user kept when more were fetched.
pub fn page(actor: u128, items: Vec<User>, limit: usize) -> (r: UserPage)
    ensures
        r.actor == actor,
        r.items@ == (if items@.len() > limit { items@.take(limit as int) } else { items@ }),
        r.next == (if items@.len() > limit && limit > 0 { Some(items@[limit - 1].id) } else { None }),
{
    let more = items.len() > limit;
    let mut items = items;
    items.truncate(limit);
    let next = if more && items.len() > 0 { Some(items[items.len() - 1].id) } else { None };
    UserPage { actor, items, next }
}

/// An application a role can be assigned in.
#[derive(Debug, Clone)]
pub struct ApplicationSummary {
    pub id: u128,
    pub name: String,
    pub active: bool,
}

/// Whether some listed application has identifier `id`.
pub open spec fn lists(applications: Seq<ApplicationSummary>, id: u128) -> bool {
    exists|i: int| 0 <= i < applications.len() && applications[i].id == id
}

/// The application whose roles are shown: the requested one, which must be
/// listed (`NotFound` otherwise), or else the first listed, or none.
pub fn selection(applications: &[ApplicationSummary], requested: Option<u128>) -> (r: Result<Option<u128>, AdminError>)
    ensures
        match requested {
            Some(id) => if lists(applications@, id) {
                r == Ok::<Option<u128>, AdminError>(Some(id))
            } else {
                r == Err::<Option<u128>, AdminError>(AdminError::NotFound)
            },
            None => r == Ok::<Option<u128>, AdminError>(
                if applications@.len() > 0 { Some(applications@[0].id) } else { None },
            ),
        },
{
    if let Some(id) = requested {
        let mut i: usize = 0;
        while i < applications.len()
            invariant
                requested == Some(id),
                0 <= i <= applications@.len(),
                forall|j: int| 0 <= j < i ==> applications@[j].id != id,
            decreases applications@.len() - i,
        {
            if applications[i].id == id {
                assert(applications@[i as int].id == id);
                return Ok(Some(id));
            }
            i += 1;
        }
        return Err(AdminError::NotFound);
    }
    if applications.len() > 0 {
        Ok(Some(applications[0].id))
    } else {
        Ok(None)
    }
}

/// First and last name of a directory user.
#[derive(Debug, Clone)]
pub struct Names {
    pub first: String,
    pub last: String,
}

/// A change an administrator makes to a user.
#[derive(Debug, Clone)]
pub enum UserChange {
    Names(Names),
    Status(AccountStatus),
    Role { application: u128, role: u128, assigned: bool, policy_revision: u64 },
}

/// The audit event of a user change.
pub open spec fn change_event(change: UserChange) -> Seq<char> {
    match change {
        UserChange::Names(_) => "names_changed"@,
        UserChange::Status(AccountStatus::Active) => "reactivated"@,
        UserChange::Status(AccountStatus::Inactive) => "deactivated"@,
        UserChange::Role { assigned, .. } => if assigned { "role_assigned"@ } else { "role_removed"@ },
    }
}

/// The event, application and role recorded for a user change.
pub fn audit_values(change: &UserChange) -> (r: (&'static str, Option<u128>, Option<u128>))
    ensures
        r.0@ == change_event(*change),
        r.1 == (match *change { UserChange::Role { application, .. } => Some(application), _ => None::<u128> }),
        r.2 == (match *change { UserChange::Role { role, .. } => Some(role), _ => None::<u128> }),
{
    match change {
        UserChange::Names(_) => ("names_changed", None, None),
        UserChange::Status(AccountStatus::Active) => ("reactivated", None, None),
        UserChange::Status(AccountStatus::Inactive) => ("deactivated", None, None),
        UserChange::Role { application, role, assigned, .. } => (
            if *assigned { "role_assigned" } else { "role_removed" },
            Some(*application),
            Some(*role),
        ),
    }
}

/// Whether a rename writes anything: not when both names are unchanged.
pub fn rename_needed(current: &Names, next: &Names) -> (r: bool)
    ensures
        r == !(current.first@ == next.first@ && current.last@ == next.last@),
{
    !(same_text(current.first.as_str(), next.first.as_str()) && same_text(current.last.as_str(), next.last.as_str()))
}

/// The statement assigning or removing a role of a user in an application.
pub fn assignment_statement(assigned: bool) -> (r: &'static str)
    ensures
        r@ == (if assigned {
            "INSERT INTO principal_roles(principal_id,application_id,role_id) VALUES($1,$2,$3) ON CONFLICT DO NOTHING"@
        } else {
            "DELETE FROM principal_roles WHERE principal_id=$1 AND application_id=$2 AND role_id=$3"@
        }),
{
    if assigned {
        "INSERT INTO principal_roles(principal_id,application_id,role_id) VALUES($1,$2,$3) ON CONFLICT DO NOTHING"
    } else {
        "DELETE FROM principal_roles WHERE principal_id=$1 AND application_id=$2 AND role_id=$3"
    }
}

/// Errors of session ownership lookups.
#[derive(Debug, Clone, Copy, PartialEq, Eq, Structural)]
pub enum SessionError {
    Unauthorized,
    Unavailable,
}

/// The administration error of a failed session ownership lookup: an
/// unavailable store stays unavailable, anything else is unauthorized.
pub fn owner_error(e: SessionError) -> (r: AdminError)
    ensures
        r == (if e == SessionError::Unavailable { AdminError::Unavailable } else { AdminError::Unauthorized }),
{
    if e == SessionError::Unavailable { AdminError::Unavailable } else { AdminError::Unauthorized }
}

/// Why bootstrapping the first administrator failed.
#[derive(Debug, Clone, Copy, PartialEq, Eq, Structural)]
pub enum BootstrapError {
    AlreadyInitialized,
    Storage,
}

/// Bootstrapping happens once: refused when the store says it already has.
pub fn bootstrap_allowed(bootstrapped: bool) -> (r: Result<(), BootstrapError>)
    ensures
        r == (if bootstrapped { Err::<(), BootstrapError>(BootstrapError::AlreadyInitialized) } else { Ok(()) }),
{
    if bootstrapped {
        return Err(BootstrapError::AlreadyInitialized);
    }
    Ok(())
}

/// What a bootstrap of `administrator` answers, given whether the store was
/// already bootstrapped and whether writing the administrator, its password
/// credential, its platform role, the audit row and the flag all committed.
pub open spec fn bootstrap_answer(bootstrapped: bool, committed: bool, administrator: u128) -> Result<u128, BootstrapError> {
    if bootstrapped {
        Err(BootstrapError::AlreadyInitialized)
    } else if committed {
        Ok(administrator)
    } else {
        Err(BootstrapError::Storage)
    }
}

/// The store's flag after a bootstrap that answered `answer`: the flag is set
/// in the transaction that writes the administrator, so it changes exactly
/// when that transaction commits.
pub open spec fn bootstrapped_after(bootstrapped: bool, answer: Result<u128, BootstrapError>) -> bool {
    bootstrapped || answer is Ok
}

/// One bootstrap: its answer and the store's flag after it.
pub fn bootstrap_step(bootstrapped: bool, committed: bool, administrator: u128) -> (r: (Result<u128, BootstrapError>, bool))
    ensures
        r.0 == bootstrap_answer(bootstrapped, committed, administrator),
        r.1 == bootstrapped_after(bootstrapped, r.0),
{
    if bootstrapped {
        (Err(BootstrapError::AlreadyInitialized), true)
    } else if committed {
        (Ok(administrator), true)
    } else {
        (Err(BootstrapError::Storage), false)
    }
}

/// Bootstrapping succeeds at most once: once a bootstrap has succeeded, every
/// later one, of any administrator, is refused as already initialised and
/// leaves the flag set; a refused or failed bootstrap leaves the flag as it
/// was.
pub proof fn law_bootstrap_once(
    bootstrapped: bool,
    first_committed: bool,
    first: u128,
    second_committed: bool,
    second: u128,
)
    ensures
        ({
            let answer = bootstrap_answer(bootstrapped, first_committed, first);
            let flag = bootstrapped_after(bootstrapped, answer);
            &&& answer is Ok ==> !bootstrapped && answer == Ok::<u128, BootstrapError>(first)
            &&& answer is Err ==> flag == bootstrapped
            &&& answer is Ok ==> bootstrap_answer(flag, second_committed, second)
                == Err::<u128, BootstrapError>(BootstrapError::AlreadyInitialized)
            &&& answer is Ok ==> bootstrapped_after(flag, bootstrap_answer(flag, second_committed, second))
        }),
{
}

} // verus!
