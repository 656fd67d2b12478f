//! Outbound e-mail queues (verification messages and invitations): how a
//! delivery attempt's result moves a queued message, how a claimed row
//! becomes a delivery, and the invitation records and checks around them.
use vstd::prelude::*;
use crate::registration::RegistrationError;
use crate::directory::SessionError;

verus! {

/// What the mail relay answered for one delivery attempt.
#[derive(Debug, Clone, Copy, PartialEq, Eq, Structural)]
pub enum DeliveryResult {
    Accepted,
    /// A transient failure: try again if the retry policy still allows it.
    Retry,
    Rejected,
}

/// The delivery state, audit event and next attempt time after an attempt.
pub open spec fn outcome_of(result: DeliveryResult, retry: Option<u64>) -> (Seq<char>, Seq<char>, Option<u64>) {
    match result {
        DeliveryResult::Accepted => ("accepted"@, "accepted"@, None),
        DeliveryResult::Retry => match retry {
            Some(next) => ("queued"@, "retry"@, Some(next)),
            None => ("failed"@, "failed"@, None),
        },
        DeliveryResult::Rejected => ("failed"@, "failed"@, None),
    }
}

/// The new delivery state, the audit event and the next attempt time after
/// an attempt ended in `result`; `retry` is when the retry policy allows the
/// next attempt, if it allows one.
pub fn outcome(result: DeliveryResult, retry: Option<u64>) -> (r: (&'static str, &'static str, Option<u64>))
    ensures
        (r.0@, r.1@, r.2) == outcome_of(result, retry),
{
    match result {
        DeliveryResult::Accepted => ("accepted", "accepted", None),
        DeliveryResult::Retry => match retry {
            Some(next) => ("queued", "retry", Some(next)),
            None => ("failed", "failed", None),
        },
        DeliveryResult::Rejected => ("failed", "failed", None),
    }
}

/// A queued message as claimed from its table.
#[derive(Debug, Clone)]
pub struct QueuedRow {
    pub id: u128,
    pub created_ms: i64,
    pub attempts: i16,
    pub email: String,
    pub seed: Vec<u8>,
}

/// A message handed to the mailer.
#[derive(Debug, Clone)]
pub struct Delivery {
    pub id: u128,
    pub created_ms: u64,
    /// The attempt this delivery is, counting from one.
    pub attempt: u16,
    pub email: String,
    pub seed: [u8; 32],
}

/// The delivery of a claimed row: its attempt is one past the stored count;
/// `None` when the row is malformed (negative creation time, or a seed that
/// is not 32 bytes).
pub fn delivery(row: QueuedRow) -> (r: Option<Delivery>)
    requires
        row.attempts < i16::MAX,
    ensures
        (row.created_ms >= 0 && row.seed@.len() == 32) <==> r is Some,
        r matches Some(d) ==> {
            &&& d.id == row.id
            &&& d.created_ms == row.created_ms as u64
            &&& d.attempt == (row.attempts + 1) as u16
            &&& d.email == row.email
            &&& d.seed@ == row.seed@
        },
{
    if row.created_ms < 0 || row.seed.len() != 32 {
        return None;
    }
    let mut seed = [0u8; 32];
    let mut i: usize = 0;
    while i < 32
        invariant
            row.seed@.len() == 32,
            0 <= i <= 32,
            forall|j: int| 0 <= j < i ==> seed@[j] == row.seed@[j],
        decreases 32 - i,
    {
        seed[i] = row.seed[i];
        i += 1;
    }
    assert(seed@ =~= row.seed@);
    let attempt = (row.attempts + 1) as u16;
    Some(Delivery { id: row.id, created_ms: row.created_ms as u64, attempt, email: row.email, seed })
}

/// Why an e-mail verification or invitation request failed.
#[derive(Debug, Clone, Copy, PartialEq, Eq, Structural)]
pub enum MailError {
    Unauthorized,
    Forbidden,
    RecentAuthentication,
    Invalid,
    Unavailable,
}

/// The error of a failed session ownership lookup for a mail request.
pub fn session_error(e: SessionError) -> (r: MailError)
    ensures
        r == (if e == SessionError::Unauthorized { MailError::Unauthorized } else { MailError::Unavailable }),
{
    match e {
        SessionError::Unauthorized => MailError::Unauthorized,
        _ => MailError::Unavailable,
    }
}

/// The invitation error of a failed administrator authority check.
pub open spec fn admin_mail_error(e: RegistrationError) -> MailError {
    match e {
        RegistrationError::Unauthorized => MailError::Unauthorized,
        RegistrationError::Forbidden => MailError::Forbidden,
        RegistrationError::RecentAuthenticationRequired => MailError::RecentAuthentication,
        _ => MailError::Unavailable,
    }
}

/// The invitation error of a failed administrator authority check.
pub fn admin_error(e: RegistrationError) -> (r: MailError)
    ensures
        r == admin_mail_error(e),
{
    match e {
        RegistrationError::Unauthorized => MailError::Unauthorized,
        RegistrationError::Forbidden => MailError::Forbidden,
        RegistrationError::RecentAuthenticationRequired => MailError::RecentAuthentication,
        _ => MailError::Unavailable,
    }
}

/// An invitation as the administration console lists it.
#[derive(Debug, Clone)]
pub struct InvitationRecord {
    pub id: u128,
    pub email: String,
    pub created_ms: u64,
    pub expires_ms: u64,
    /// Revoked, consumed, superseded, or expired by now.
    pub closed: bool,
    pub delivery: String,
}

/// A stored invitation row.
#[derive(Debug, Clone)]
pub struct InvitationRow {
    pub id: u128,
    pub email: String,
    pub created_ms: i64,
    pub expires_ms: i64,
    pub closed: bool,
    pub delivery_state: String,
}

/// The listed record of an invitation at time `now`: closed when the row
/// says so or when it has expired; `None` for a row with a negative time.
pub fn record(row: InvitationRow, now: u64) -> (r: Option<InvitationRecord>)
    ensures
        (row.created_ms >= 0 && row.expires_ms >= 0) <==> r is Some,
        r matches Some(rec) ==> {
            &&& rec.id == row.id
            &&& rec.email == row.email
            &&& rec.created_ms == row.created_ms as u64
            &&& rec.expires_ms == row.expires_ms as u64
            &&& rec.closed == (row.closed || now >= row.expires_ms as u64)
            &&& rec.delivery == row.delivery_state
        },
{
    if row.created_ms < 0 || row.expires_ms < 0 {
        return None;
    }
    let expires = row.expires_ms as u64;
    Some(InvitationRecord {
        id: row.id,
        email: row.email,
        created_ms: row.created_ms as u64,
        expires_ms: expires,
        closed: row.closed || now >= expires,
        delivery: row.delivery_state,
    })
}

/// Whether a proof may complete the invitation the recipient expects: the
/// proof must redeem (`check`), name that invitation, and have been admitted
/// to password hashing at least once.
pub fn acceptance(check: Result<(), MailError>, id: u128, expected: u128, hash_attempts: i16) -> (r: Result<(), MailError>)
    ensures
        r == (match check {
            Err(e) => Err::<(), MailError>(e),
            Ok(_) => if id != expected || hash_attempts == 0 {
                Err(MailError::Invalid)
            } else {
                Ok(())
            },
        }),
{
    check?;
    if id != expected || hash_attempts == 0 {
        return Err(MailError::Invalid);
    }
    Ok(())
}

/// The attempt number an admission to password hashing is audited with.
pub fn admitted_attempt(hash_attempts: i16) -> (r: u16)
    requires
        hash_attempts < i16::MAX,
    ensures
        r == (hash_attempts + 1) as u16,
{
    (hash_attempts + 1) as u16
}

/// What the issuing policy weighs a verification request against: when the
/// owner last asked, how often today, and how many messages are queued.
#[derive(Debug, Clone, Copy, PartialEq, Eq, Structural)]
pub struct RequestCounters {
    pub last_ms: Option<u64>,
    pub daily: u64,
    pub queued: u64,
}

/// The counters of a verification request as stored; the last request time
/// is read as stored, and a negative count means a corrupt store.
pub fn request_counters(last_ms: Option<i64>, daily: i64, queued: i64) -> (r: Result<RequestCounters, MailError>)
    ensures
        (daily >= 0 && queued >= 0) <==> r is Ok,
        r is Err ==> r == Err::<RequestCounters, MailError>(MailError::Unavailable),
        r matches Ok(c) ==> {
            &&& c.last_ms == (match last_ms { Some(n) => Some(n as u64), None => None::<u64> })
            &&& c.daily == daily as u64
            &&& c.queued == queued as u64
        },
{
    if daily < 0 || queued < 0 {
        return Err(MailError::Unavailable);
    }
    let last = match last_ms {
        Some(n) => Some(n as u64),
        None => None,
    };
    Ok(RequestCounters { last_ms: last, daily: daily as u64, queued: queued as u64 })
}

/// What the issuing policy weighs an invitation against: when the recipient
/// was last invited, how often the recipient and the issuer were today, and
/// how many messages are queued.
#[derive(Debug, Clone, Copy, PartialEq, Eq, Structural)]
pub struct InvitationCounters {
    pub last_ms: Option<u64>,
    pub recipient_daily: u64,
    pub actor_daily: u64,
    pub queued: u64,
}

/// The counters of an invitation as stored; the last invitation time is read
/// as stored, and a negative count means a corrupt store.
pub fn invitation_counters(
    last_ms: Option<i64>,
    recipient_daily: i64,
    actor_daily: i64,
    queued: i64,
) -> (r: Result<InvitationCounters, MailError>)
    ensures
        (recipient_daily >= 0 && actor_daily >= 0 && queued >= 0) <==> r is Ok,
        r is Err ==> r == Err::<InvitationCounters, MailError>(MailError::Unavailable),
        r matches Ok(c) ==> {
            &&& c.last_ms == (match last_ms { Some(n) => Some(n as u64), None => None::<u64> })
            &&& c.recipient_daily == recipient_daily as u64
            &&& c.actor_daily == actor_daily as u64
            &&& c.queued == queued as u64
        },
{
    if recipient_daily < 0 || actor_daily < 0 || queued < 0 {
        return Err(MailError::Unavailable);
    }
    let last = match last_ms {
        Some(n) => Some(n as u64),
        None => None,
    };
    Ok(InvitationCounters {
        last_ms: last,
        recipient_daily: recipient_daily as u64,
        actor_daily: actor_daily as u64,
        queued: queued as u64,
    })
}

/// Start of the window over which admissions to password hashing are
/// counted: one minute before `now`, and never before time zero.
pub fn admission_window(now: u64) -> (r: u64)
    ensures
        r == (if now >= 60_000 { (now - 60_000) as u64 } else { 0 }),
{
    now.saturating_sub(60_000)
}

/// The counts the admission policy weighs: the invitation's own hashing
/// attempts and the admissions across all invitations in the window, read as
/// stored (reinterpreted as unsigned).
pub fn admission_counts(attempts: i16, global: i64) -> (r: (u64, u64))
    ensures
        r == (attempts as u64, global as u64),
{
    (attempts as u64, global as u64)
}

} // verus!
