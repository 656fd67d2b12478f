//! Errors of application and client registration, shared by the catalog
//! administration, and the classification of database constraint failures.
use vstd::prelude::*;
use vstd::arithmetic::power2::pow2;
use sqlx::Error as DriverError;
use crate::sql::same_text;
use crate::catalog::{ResourceRecord, ScopeRecord};

verus! {

/// Why a registration or catalog request failed.
#[derive(Debug, Clone, Copy, PartialEq, Eq, Structural)]
pub enum RegistrationError {
    Invalid,
    NotFound,
    Conflict,
    Unauthorized,
    Forbidden,
    RecentAuthenticationRequired,
    Unavailable,
}

/// The error a constraint violation with SQLSTATE `code` maps to: a unique
/// violation is a conflict, a foreign-key or check violation an invalid
/// request, anything else (or no code) an unavailable store.
pub open spec fn constraint_error(code: Option<Seq<char>>) -> RegistrationError {
    match code {
        Some(c) => if c == "23505"@ {
            RegistrationError::Conflict
        } else if c == "23503"@ || c == "23514"@ {
            RegistrationError::Invalid
        } else {
            RegistrationError::Unavailable
        },
        None => RegistrationError::Unavailable,
    }
}

/// Classifies the SQLSTATE of a failed write.
pub fn constraint_code(code: Option<&str>) -> (r: RegistrationError)
    ensures
        r == constraint_error(match code { Some(c) => Some(c@), None => None }),
{
    match code {
        Some(c) => {
            if same_text(c, "23505") {
                RegistrationError::Conflict
            } else if same_text(c, "23503") || same_text(c, "23514") {
                RegistrationError::Invalid
            } else {
                RegistrationError::Unavailable
            }
        },
        None => RegistrationError::Unavailable,
    }
}

#[verifier::external_type_specification]
#[verifier::external_body]
pub struct ExDriverError(DriverError);

/// The SQLSTATE a driver error carries, as its text: the code the server
/// attached to a failed statement, none for failures that are not the
/// server's.
pub uninterp spec fn sqlstate(error: DriverError) -> Option<Seq<char>>;

/// `sqlx::Error::as_database_error` followed by `DatabaseError::code`: the
/// SQLSTATE the server attached to a failed statement, none when the error
/// did not come from the server or carries no code. The code is a function
/// of the error value alone, so it is named (`sqlstate`) rather than
/// described.
#[verifier::external_body]
fn database_code(error: &DriverError) -> (r: Option<String>)
    ensures
        sqlstate(*error) == (match r { Some(s) => Some(s@), None => None::<Seq<char>> }),
{
    error.as_database_error().and_then(|e| e.code()).map(|code| code.into_owned())
}

/// Classifies a failed write by the SQLSTATE the server attached to it: a
/// unique violation is a conflict, a foreign-key or check violation an
/// invalid request, anything else an unavailable store.
pub fn constraint(error: DriverError) -> (r: RegistrationError)
    ensures
        r == constraint_error(sqlstate(error)),
{
    match database_code(&error) {
        Some(code) => constraint_code(Some(code.as_str())),
        None => constraint_code(None),
    }
}


/// The identifying fields of a registration command: which application,
/// client, resource or secret it addresses, the revision it expects, and
/// the owner it names.
#[derive(Debug, Clone, Copy, PartialEq, Eq, Structural)]
pub enum Command {
    CreateApplication { owner: u128 },
    UpdateApplication { application: u128, revision: u64, owner: u128 },
    CreateResource { application: u128 },
    CreateScope { application: u128, resource: u128 },
    CreateClient { application: u128 },
    UpdateClient { application: u128, client: u128, revision: u64 },
    RotateSecret { application: u128, client: u128, revision: u64, overlap_seconds: u16 },
    RetireSecret { application: u128, client: u128, secret: u128, revision: u64 },
}

/// One precondition a registration command is checked against, inside the
/// transaction that then writes it.
#[derive(Debug, Clone, Copy, PartialEq, Eq, Structural)]
pub enum Check {
    /// The owner exists and is active (`Invalid` otherwise).
    ActiveOwner(u128),
    /// The application exists and is at the expected revision.
    ApplicationRevision { application: u128, revision: u64 },
    /// The application exists (`NotFound` otherwise).
    ApplicationExists(u128),
    /// The resource exists in the application (`NotFound` otherwise).
    ResourceExists { application: u128, resource: u128 },
    /// The client's specification is valid and grants only resources and
    /// scopes of the application.
    ClientGrants(u128),
    /// The client exists in the application and is at the expected revision.
    ClientRevision { application: u128, client: u128, revision: u64 },
    /// The overlap of a rotated secret ends at a representable time.
    OverlapDeadline(u16),
    /// The secret is a live secret of the client (`NotFound` otherwise).
    LiveSecret { client: u128, secret: u128 },
}

/// The checks of a registration command, in the order they run.
pub open spec fn command_checks(command: Command) -> Seq<Check> {
    match command {
        Command::CreateApplication { owner } => seq![Check::ActiveOwner(owner)],
        Command::UpdateApplication { application, revision, owner } =>
            seq![Check::ApplicationRevision { application, revision }, Check::ActiveOwner(owner)],
        Command::CreateResource { application } => seq![Check::ApplicationExists(application)],
        Command::CreateScope { application, resource } => seq![Check::ResourceExists { application, resource }],
        Command::CreateClient { application } => seq![Check::ApplicationExists(application), Check::ClientGrants(application)],
        Command::UpdateClient { application, client, revision } =>
            seq![Check::ClientRevision { application, client, revision }, Check::ClientGrants(application)],
        Command::RotateSecret { application, client, revision, overlap_seconds } =>
            seq![Check::OverlapDeadline(overlap_seconds), Check::ClientRevision { application, client, revision }],
        Command::RetireSecret { application, client, secret, revision } =>
            seq![Check::ClientRevision { application, client, revision }, Check::LiveSecret { client, secret }],
    }
}

/// The checks of a registration command, in the order they run.
pub fn checks(command: Command) -> (r: Vec<Check>)
    ensures
        r@ == command_checks(command),
{
    let r = match command {
        Command::CreateApplication { owner } => vec![Check::ActiveOwner(owner)],
        Command::UpdateApplication { application, revision, owner } =>
            vec![Check::ApplicationRevision { application, revision }, Check::ActiveOwner(owner)],
        Command::CreateResource { application } => vec![Check::ApplicationExists(application)],
        Command::CreateScope { application, resource } => vec![Check::ResourceExists { application, resource }],
        Command::CreateClient { application } => vec![Check::ApplicationExists(application), Check::ClientGrants(application)],
        Command::UpdateClient { application, client, revision } =>
            vec![Check::ClientRevision { application, client, revision }, Check::ClientGrants(application)],
        Command::RotateSecret { application, client, revision, overlap_seconds } =>
            vec![Check::OverlapDeadline(overlap_seconds), Check::ClientRevision { application, client, revision }],
        Command::RetireSecret { application, client, secret, revision } =>
            vec![Check::ClientRevision { application, client, revision }, Check::LiveSecret { client, secret }],
    };
    assert(r@ =~= command_checks(command));
    r
}

/// Whether a check reads a row whose absence refuses the command: every
/// check but the grant and deadline rules, which read no single row.
pub open spec fn reads_row(check: Check) -> bool {
    !(check is ClientGrants) && !(check is OverlapDeadline)
}

/// The answer of a check's row lookup: a missing (or inactive) owner makes
/// the request invalid, any other missing row answers `NotFound`.
pub open spec fn lookup_answer(check: Check, found: bool) -> Result<(), RegistrationError> {
    if !reads_row(check) || found {
        Ok(())
    } else if check is ActiveOwner {
        Err(RegistrationError::Invalid)
    } else {
        Err(RegistrationError::NotFound)
    }
}

/// The answer of a check's row lookup, `found` telling whether the row it
/// reads is there: the active owner, the application, the resource in the
/// application, the client in the application, or the live (not retired)
/// secret of the client. A missing owner answers `Invalid`, any other
/// missing row `NotFound`. The grant and deadline checks read no single row
/// and are answered by their rules.
pub fn check_outcome(check: Check, found: bool) -> (r: Result<(), RegistrationError>)
    ensures
        r == lookup_answer(check, found),
{
    match check {
        Check::ClientGrants(_) | Check::OverlapDeadline(_) => Ok(()),
        Check::ActiveOwner(_) => if found { Ok(()) } else { Err(RegistrationError::Invalid) },
        _ => if found { Ok(()) } else { Err(RegistrationError::NotFound) },
    }
}

/// The answer of a revision check once its row was found: a negative stored
/// revision means a corrupt store; otherwise the revision rule's answer
/// (`admitted`, the rule applied to the stored and the expected revision)
/// stands.
pub fn revision_outcome(stored: i64, admitted: Result<u64, RegistrationError>) -> (r: Result<(), RegistrationError>)
    ensures
        r == (if stored < 0 {
            Err::<(), RegistrationError>(RegistrationError::Unavailable)
        } else {
            match admitted {
                Ok(_) => Ok(()),
                Err(e) => Err(e),
            }
        }),
{
    if stored < 0 {
        return Err(RegistrationError::Unavailable);
    }
    match admitted {
        Ok(_) => Ok(()),
        Err(e) => Err(e),
    }
}

/// The answer of the first failed check among `outcomes`, in order.
pub open spec fn first_failure(outcomes: Seq<Result<(), RegistrationError>>) -> Result<(), RegistrationError>
    decreases outcomes.len(),
{
    if outcomes.len() == 0 {
        Ok(())
    } else if outcomes[0] is Err {
        outcomes[0]
    } else {
        first_failure(outcomes.drop_first())
    }
}

/// A command's answer from the answers of its checks, taken in the order
/// they run: the first refusal, or success when every check passed.
pub fn command_outcome(outcomes: &[Result<(), RegistrationError>]) -> (r: Result<(), RegistrationError>)
    ensures
        r == first_failure(outcomes@),
        r is Ok <==> forall|i: int| 0 <= i < outcomes@.len() ==> #[trigger] outcomes@[i] is Ok,
{
    let mut i: usize = 0;
    assert(outcomes@.subrange(0, outcomes@.len() as int) =~= outcomes@);
    while i < outcomes.len()
        invariant
            0 <= i <= outcomes@.len(),
            forall|k: int| 0 <= k < i ==> #[trigger] outcomes@[k] is Ok,
            first_failure(outcomes@) == first_failure(outcomes@.subrange(i as int, outcomes@.len() as int)),
        decreases outcomes@.len() - i,
    {
        let o = outcomes[i];
        let ghost rest = outcomes@.subrange(i as int, outcomes@.len() as int);
        if o.is_err() {
            assert(rest[0] == outcomes@[i as int]);
            return o;
        }
        assert(rest.drop_first() =~= outcomes@.subrange(i + 1, outcomes@.len() as int));
        i += 1;
    }
    assert(outcomes@.subrange(i as int, outcomes@.len() as int).len() == 0);
    Ok(())
}

/// Every command that names an existing client checks its revision, and
/// every command that changes an existing application checks its revision.
pub proof fn law_existing_entries_are_revision_checked(command: Command)
    ensures
        match command {
            Command::UpdateApplication { application, revision, .. } =>
                command_checks(command).contains(Check::ApplicationRevision { application, revision }),
            Command::UpdateClient { application, client, revision } =>
                command_checks(command).contains(Check::ClientRevision { application, client, revision }),
            Command::RotateSecret { application, client, revision, .. } =>
                command_checks(command).contains(Check::ClientRevision { application, client, revision }),
            Command::RetireSecret { application, client, revision, .. } =>
                command_checks(command).contains(Check::ClientRevision { application, client, revision }),
            _ => true,
        },
{
    match command {
        Command::UpdateApplication { application, revision, .. } =>
            assert(command_checks(command)[0] == Check::ApplicationRevision { application, revision }),
        Command::UpdateClient { application, client, revision } =>
            assert(command_checks(command)[0] == Check::ClientRevision { application, client, revision }),
        Command::RotateSecret { application, client, revision, .. } =>
            assert(command_checks(command)[1] == Check::ClientRevision { application, client, revision }),
        Command::RetireSecret { application, client, revision, .. } =>
            assert(command_checks(command)[0] == Check::ClientRevision { application, client, revision }),
        _ => {},
    }
}

/// The registration audit event of a command.
pub open spec fn command_event(command: Command) -> Seq<char> {
    match command {
        Command::CreateApplication { .. } => "application_created"@,
        Command::UpdateApplication { .. } => "application_updated"@,
        Command::CreateResource { .. } => "resource_created"@,
        Command::CreateScope { .. } => "scope_created"@,
        Command::CreateClient { .. } => "client_created"@,
        Command::UpdateClient { .. } => "client_updated"@,
        Command::RotateSecret { .. } => "secret_rotated"@,
        Command::RetireSecret { .. } => "secret_retired"@,
    }
}

/// The audited target and event of a command whose written record has
/// identifier `record`.
pub fn audit_values(command: Command, record: u128) -> (r: (u128, &'static str))
    ensures
        r.0 == record,
        r.1@ == command_event(command),
{
    let event = match command {
        Command::CreateApplication { .. } => "application_created",
        Command::UpdateApplication { .. } => "application_updated",
        Command::CreateResource { .. } => "resource_created",
        Command::CreateScope { .. } => "scope_created",
        Command::CreateClient { .. } => "client_created",
        Command::UpdateClient { .. } => "client_updated",
        Command::RotateSecret { .. } => "secret_rotated",
        Command::RetireSecret { .. } => "secret_retired",
    };
    (record, event)
}

/// A write touched exactly the rows it had to; anything else means the store
/// changed under the transaction.
pub fn affected(actual: u64, expected: u64) -> (r: Result<(), RegistrationError>)
    ensures
        r == (if actual == expected { Ok::<(), RegistrationError>(()) } else { Err(RegistrationError::Unavailable) }),
{
    if actual == expected {
        Ok(())
    } else {
        Err(RegistrationError::Unavailable)
    }
}

/// The fresh identifier prepared for a creation; its absence is a fault of
/// the caller's preparation.
pub fn new_id(identifier: Option<u128>) -> (r: Result<u128, RegistrationError>)
    ensures
        r == (match identifier { Some(id) => Ok::<u128, RegistrationError>(id), None => Err(RegistrationError::Unavailable) }),
{
    match identifier {
        Some(id) => Ok(id),
        None => Err(RegistrationError::Unavailable),
    }
}

/// A live secret of a client: when it was created and when it expires.
#[derive(Debug, Clone, Copy, PartialEq, Eq, Structural)]
pub struct ClientSecret {
    pub id: u128,
    pub created_ms: u64,
    pub expires_ms: Option<u64>,
}

/// A stored client secret; a negative time means a corrupt store.
pub fn secret(id: u128, created_ms: i64, expires_ms: Option<i64>) -> (r: Result<ClientSecret, RegistrationError>)
    ensures
        (created_ms >= 0 && (expires_ms matches Some(e) ==> e >= 0)) <==> r is Ok,
        r is Err ==> r == Err::<ClientSecret, RegistrationError>(RegistrationError::Unavailable),
        r matches Ok(s) ==> s == (ClientSecret {
            id,
            created_ms: created_ms as u64,
            expires_ms: match expires_ms { Some(e) => Some(e as u64), None => None },
        }),
{
    if created_ms < 0 {
        return Err(RegistrationError::Unavailable);
    }
    let expires = match expires_ms {
        Some(e) => {
            if e < 0 {
                return Err(RegistrationError::Unavailable);
            }
            Some(e as u64)
        },
        None => None,
    };
    Ok(ClientSecret { id, created_ms: created_ms as u64, expires_ms: expires })
}

/// A revision as stored; revisions past the stored range cannot be written
/// and leave the store unavailable.
pub fn integer(n: u64) -> (r: Result<i64, RegistrationError>)
    ensures
        r == (if n <= i64::MAX { Ok::<i64, RegistrationError>(n as i64) } else { Err(RegistrationError::Unavailable) }),
{
    if n > 9223372036854775807u64 {
        return Err(RegistrationError::Unavailable);
    }
    Ok(n as i64)
}

/// One write of a registration command, in the order the command performs
/// them inside its transaction.
#[derive(Debug, Clone, Copy, PartialEq, Eq, Structural)]
pub enum RegistrationWrite {
    InsertApplication(u128),
    UpdateApplication { application: u128, revision: u64 },
    InsertResource { application: u128, resource: u128 },
    InsertScope { application: u128, resource: u128, scope: u128 },
    InsertClient { application: u128, client: u128 },
    UpdateClient { application: u128, client: u128, revision: u64 },
    /// Replace the client's redirects, resources and scopes by its
    /// specification's.
    ReplaceGrants { application: u128, client: u128 },
    /// Retire the client's secrets that already expire.
    RetireExpiring(u128),
    /// Let the client's current secret expire after the overlap.
    ExpireCurrent { client: u128, overlap_seconds: u16 },
    InsertSecret { client: u128, secret: u128 },
    RetireSecret { client: u128, secret: u128 },
    /// Move the client past the expected revision.
    BumpRevision { client: u128, revision: u64 },
}

/// Whether a command creates an entry and needs a fresh identifier.
pub open spec fn needs_identifier(command: Command) -> bool {
    command is CreateApplication || command is CreateResource || command is CreateScope || command is CreateClient
}

/// Whether a command stores a new client secret.
pub open spec fn needs_secret(command: Command) -> bool {
    command is CreateClient || command is RotateSecret
}

/// The writes of a command given its prepared identifier and secret.
pub open spec fn command_writes(command: Command, id: u128, secret: u128) -> Seq<RegistrationWrite> {
    match command {
        Command::CreateApplication { .. } => seq![RegistrationWrite::InsertApplication(id)],
        Command::UpdateApplication { application, revision, .. } =>
            seq![RegistrationWrite::UpdateApplication { application, revision }],
        Command::CreateResource { application } => seq![RegistrationWrite::InsertResource { application, resource: id }],
        Command::CreateScope { application, resource } =>
            seq![RegistrationWrite::InsertScope { application, resource, scope: id }],
        Command::CreateClient { application } => seq![
            RegistrationWrite::InsertClient { application, client: id },
            RegistrationWrite::ReplaceGrants { application, client: id },
            RegistrationWrite::InsertSecret { client: id, secret },
        ],
        Command::UpdateClient { application, client, revision } => seq![
            RegistrationWrite::UpdateClient { application, client, revision },
            RegistrationWrite::ReplaceGrants { application, client },
        ],
        Command::RotateSecret { client, revision, overlap_seconds, .. } => seq![
            RegistrationWrite::RetireExpiring(client),
            RegistrationWrite::ExpireCurrent { client, overlap_seconds },
            RegistrationWrite::InsertSecret { client, secret },
            RegistrationWrite::BumpRevision { client, revision },
        ],
        Command::RetireSecret { client, secret: retired, revision, .. } => seq![
            RegistrationWrite::RetireSecret { client, secret: retired },
            RegistrationWrite::BumpRevision { client, revision },
        ],
    }
}

/// The writes carrying out a checked command: `Unavailable` when the
/// preparation lacks the fresh identifier a creation needs or the secret a
/// new client or a rotation stores.
pub fn writes(command: Command, identifier: Option<u128>, secret: Option<u128>) -> (r: Result<Vec<RegistrationWrite>, RegistrationError>)
    ensures
        ((needs_identifier(command) ==> identifier is Some) && (needs_secret(command) ==> secret is Some)) <==> r is Ok,
        r is Err ==> r == Err::<Vec<RegistrationWrite>, RegistrationError>(RegistrationError::Unavailable),
        r matches Ok(w) ==> w@ == command_writes(
            command,
            match identifier { Some(i) => i, None => 0 },
            match secret { Some(s) => s, None => 0 },
        ),
{
    let creates = match command {
        Command::CreateApplication { .. } | Command::CreateResource { .. } | Command::CreateScope { .. }
        | Command::CreateClient { .. } => true,
        _ => false,
    };
    let stores_secret = match command {
        Command::CreateClient { .. } | Command::RotateSecret { .. } => true,
        _ => false,
    };
    if (creates && identifier.is_none()) || (stores_secret && secret.is_none()) {
        return Err(RegistrationError::Unavailable);
    }
    let id = match identifier { Some(i) => i, None => 0 };
    let stored = match secret { Some(s) => s, None => 0 };
    let w = match command {
        Command::CreateApplication { .. } => vec![RegistrationWrite::InsertApplication(id)],
        Command::UpdateApplication { application, revision, .. } =>
            vec![RegistrationWrite::UpdateApplication { application, revision }],
        Command::CreateResource { application } => vec![RegistrationWrite::InsertResource { application, resource: id }],
        Command::CreateScope { application, resource } =>
            vec![RegistrationWrite::InsertScope { application, resource, scope: id }],
        Command::CreateClient { application } => vec![
            RegistrationWrite::InsertClient { application, client: id },
            RegistrationWrite::ReplaceGrants { application, client: id },
            RegistrationWrite::InsertSecret { client: id, secret: stored },
        ],
        Command::UpdateClient { application, client, revision } => vec![
            RegistrationWrite::UpdateClient { application, client, revision },
            RegistrationWrite::ReplaceGrants { application, client },
        ],
        Command::RotateSecret { client, revision, overlap_seconds, .. } => vec![
            RegistrationWrite::RetireExpiring(client),
            RegistrationWrite::ExpireCurrent { client, overlap_seconds },
            RegistrationWrite::InsertSecret { client, secret: stored },
            RegistrationWrite::BumpRevision { client, revision },
        ],
        Command::RetireSecret { client, secret: retired, revision, .. } => vec![
            RegistrationWrite::RetireSecret { client, secret: retired },
            RegistrationWrite::BumpRevision { client, revision },
        ],
    };
    assert(w@ =~= command_writes(command, id, stored));
    Ok(w)
}

/// Every command that changes an existing client moves it to a new
/// revision or rewrites it at the expected one, and a new secret is always
/// stored for the client the command addresses.
pub proof fn law_client_changes_are_revisioned(command: Command, id: u128, secret: u128)
    ensures
        match command {
            Command::UpdateClient { application, client, revision } =>
                command_writes(command, id, secret).contains(RegistrationWrite::UpdateClient { application, client, revision }),
            Command::RotateSecret { client, revision, .. } =>
                command_writes(command, id, secret).contains(RegistrationWrite::BumpRevision { client, revision })
                && command_writes(command, id, secret).contains(RegistrationWrite::InsertSecret { client, secret }),
            Command::RetireSecret { client, revision, .. } =>
                command_writes(command, id, secret).contains(RegistrationWrite::BumpRevision { client, revision }),
            Command::CreateClient { .. } =>
                command_writes(command, id, secret).contains(RegistrationWrite::InsertSecret { client: id, secret }),
            _ => true,
        },
{
    let w = command_writes(command, id, secret);
    match command {
        Command::UpdateClient { application, client, revision } => assert(w[0] == RegistrationWrite::UpdateClient { application, client, revision }),
        Command::RotateSecret { client, revision, .. } => {
            assert(w[3] == RegistrationWrite::BumpRevision { client, revision });
            assert(w[2] == RegistrationWrite::InsertSecret { client, secret });
        },
        Command::RetireSecret { client, revision, .. } => assert(w[1] == RegistrationWrite::BumpRevision { client, revision }),
        Command::CreateClient { .. } => assert(w[2] == RegistrationWrite::InsertSecret { client: id, secret }),
        _ => {},
    }
}

/// Every command that sets a client's specification, creating or updating
/// the client, rewrites that client's grants after writing the client row;
/// no other command touches grants.
pub proof fn law_client_specifications_replace_grants(command: Command, id: u128, secret: u128)
    ensures
        command matches Command::CreateClient { application } ==> {
            &&& command_writes(command, id, secret).contains(RegistrationWrite::ReplaceGrants { application, client: id })
            &&& command_writes(command, id, secret)[0] == RegistrationWrite::InsertClient { application, client: id }
        },
        command matches Command::UpdateClient { application, client, revision } ==> {
            &&& command_writes(command, id, secret).contains(RegistrationWrite::ReplaceGrants { application, client })
            &&& command_writes(command, id, secret)[0] == RegistrationWrite::UpdateClient { application, client, revision }
        },
        !(command is CreateClient || command is UpdateClient) ==> forall|i: int|
            0 <= i < command_writes(command, id, secret).len() ==> !(#[trigger] command_writes(command, id, secret)[i] is ReplaceGrants),
{
    let w = command_writes(command, id, secret);
    match command {
        Command::CreateClient { application } =>
            assert(w[1] == RegistrationWrite::ReplaceGrants { application, client: id }),
        Command::UpdateClient { application, client, .. } =>
            assert(w[1] == RegistrationWrite::ReplaceGrants { application, client }),
        _ => {},
    }
}

/// The lowercase hexadecimal digit of `d`, for `0 <= d < 16`.
pub open spec fn hex_digit(d: int) -> char {
    if d < 10 { (48 + d) as char } else { (87 + d) as char }
}

/// The `i`-th of the 32 hexadecimal digits of `id`, most significant first.
pub open spec fn uuid_digit(id: u128, i: int) -> int {
    (id as int / pow2((4 * (31 - i)) as nat) as int) % 16
}

/// The hyphenated lowercase text of the UUID whose 128 bits are `id`: its
/// 32 hexadecimal digits, most significant first, grouped 8-4-4-4-12.
pub open spec fn uuid_text(id: u128) -> Seq<char> {
    Seq::new(36, |k: int| {
        let hyphens_before: int = (if k > 8 { 1int } else { 0 }) + (if k > 13 { 1int } else { 0 })
            + (if k > 18 { 1int } else { 0 }) + (if k > 23 { 1int } else { 0 });
        if k == 8 || k == 13 || k == 18 || k == 23 {
            '-'
        } else {
            hex_digit(uuid_digit(id, k - hyphens_before))
        }
    })
}

/// `uuid::Uuid::from_u128(id)` displayed through `to_string`: `from_u128`
/// takes the bits most significant first, and the crate's `Display` writes
/// the hyphenated lowercase form.
#[verifier::external_body]
fn uuid_display(id: u128) -> (r: String)
    ensures
        r@ == uuid_text(id),
{
    uuid::Uuid::from_u128(id).to_string()
}

/// The token audience of the protected resource `id`.
pub open spec fn audience_text(id: u128) -> Seq<char> {
    "urn:darkhorse:resource:"@ + uuid_text(id)
}

/// The token audience of the protected resource `id`: its URN, the
/// identifier written as a UUID.
pub fn audience(id: u128) -> (r: String)
    ensures
        r@ == audience_text(id),
{
    let text = uuid_display(id);
    let mut out = String::new();
    out.append("urn:darkhorse:resource:");
    out.append(text.as_str());
    out
}

/// The record of a resource created with identifier `id`: its audience is
/// derived from the identifier.
pub fn created_resource(id: u128, application: u128, name: String) -> (r: ResourceRecord)
    ensures
        r.id == id,
        r.application == application,
        r.name@ == name@,
        r.audience@ == audience_text(id),
{
    ResourceRecord { id, application, name, audience: audience(id) }
}

/// The record of a scope created with identifier `id`.
pub fn created_scope(id: u128, application: u128, resource: u128, name: String) -> (r: ScopeRecord)
    ensures
        r.id == id,
        r.application == application,
        r.resource == resource,
        r.name@ == name@,
{
    ScopeRecord { id, application, resource, name }
}

} // verus!
