//! The shared attempt limiter's enforcement authority: decoding the stored
//! authority, fencing a new generation during recovery, and projecting an
//! activation attempt.
use vstd::prelude::*;

verus! {

/// An enforcement generation: a strictly increasing epoch and its nonce.
#[derive(Debug, Clone, Copy)]
pub struct Generation {
    pub epoch: u64,
    pub nonce: [u8; 16],
}

/// The identity of the limiter server an activation bound.
#[derive(Debug, Clone, Copy)]
pub struct ServerIdentity {
    pub run: [u8; 20],
    pub replication: [u8; 20],
}

/// The stored enforcement authority, observed at `now_ms`.
#[derive(Debug, Clone, Copy)]
pub struct Enforcement {
    pub generation: Generation,
    pub active: bool,
    pub identity: Option<ServerIdentity>,
    pub now_ms: u64,
    pub not_before_ms: u64,
}

/// The limiter is unavailable: no decision could be read or made.
#[derive(Debug, Clone, Copy, PartialEq, Eq, Structural)]
pub struct LimiterUnavailable;

/// A stored server identifier of exactly 20 bytes.
pub fn identifier_bytes(value: &Vec<u8>) -> (r: Option<[u8; 20]>)
    ensures
        (value@.len() == 20) <==> r is Some,
        r matches Some(b) ==> b@ == value@,
{
    if value.len() != 20 {
        return None;
    }
    let mut out = [0u8; 20];
    let mut i: usize = 0;
    while i < 20
        invariant
            value@.len() == 20,
            0 <= i <= 20,
            forall|j: int| 0 <= j < i ==> out@[j] == value@[j],
        decreases 20 - i,
    {
        out[i] = value[i];
        i += 1;
    }
    assert(out@ =~= value@);
    Some(out)
}

/// A stored server identity: both identifiers present and 20 bytes long.
pub open spec fn identity_valid(run: Option<Vec<u8>>, replication: Option<Vec<u8>>) -> bool {
    &&& run matches Some(r) && r@.len() == 20
    &&& replication matches Some(p) && p@.len() == 20
}

/// The identity of stored identifiers, `None` unless both are present and 20
/// bytes long.
pub fn identity(run: &Option<Vec<u8>>, replication: &Option<Vec<u8>>) -> (r: Option<ServerIdentity>)
    ensures
        identity_valid(*run, *replication) <==> r is Some,
        r matches Some(id) ==> id.run@ == run->Some_0@ && id.replication@ == replication->Some_0@,
{
    let run = match run {
        Some(bytes) => identifier_bytes(bytes)?,
        None => return None,
    };
    let replication = match replication {
        Some(bytes) => identifier_bytes(bytes)?,
        None => return None,
    };
    Some(ServerIdentity { run, replication })
}

/// The stored authority row.
#[derive(Debug, Clone)]
pub struct AuthorityRow {
    pub epoch: i64,
    pub generation: [u8; 16],
    pub active: bool,
    pub run_id: Option<Vec<u8>>,
    pub replication_id: Option<Vec<u8>>,
    pub now_ms: i64,
    pub not_before_ms: i64,
}

/// A stored authority row is well formed: non-negative epoch and times, and
/// a server identity exactly when active.
pub open spec fn authority_valid(row: AuthorityRow) -> bool {
    &&& row.epoch >= 0
    &&& row.now_ms >= 0
    &&& row.not_before_ms >= 0
    &&& row.active ==> identity_valid(row.run_id, row.replication_id)
}

/// `e` is the enforcement state `row` stores.
pub open spec fn describes(e: Enforcement, row: AuthorityRow) -> bool {
    &&& e.generation.epoch == row.epoch as u64
    &&& e.generation.nonce == row.generation
    &&& e.active == row.active
    &&& e.identity is Some == row.active
    &&& (e.identity matches Some(id) ==> id.run@ == row.run_id->Some_0@ && id.replication@ == row.replication_id->Some_0@)
    &&& e.now_ms == row.now_ms as u64
    &&& e.not_before_ms == row.not_before_ms as u64
}

/// The enforcement state a stored authority row describes; the identity is
/// read only when the authority is active.
pub fn state(row: &AuthorityRow) -> (r: Result<Enforcement, LimiterUnavailable>)
    ensures
        authority_valid(*row) <==> r is Ok,
        r matches Ok(e) ==> describes(e, *row),
{
    let identity = if row.active {
        match identity(&row.run_id, &row.replication_id) {
            Some(id) => Some(id),
            None => return Err(LimiterUnavailable),
        }
    } else {
        None
    };
    if row.epoch < 0 || row.now_ms < 0 || row.not_before_ms < 0 {
        return Err(LimiterUnavailable);
    }
    Ok(Enforcement {
        generation: Generation { epoch: row.epoch as u64, nonce: row.generation },
        active: row.active,
        identity,
        now_ms: row.now_ms as u64,
        not_before_ms: row.not_before_ms as u64,
    })
}

/// Whether two generation nonces are equal.
pub fn same_nonce(a: &[u8; 16], b: &[u8; 16]) -> (r: bool)
    ensures
        r == (a@ == b@),
{
    let mut i: usize = 0;
    while i < 16
        invariant
            0 <= i <= 16,
            forall|j: int| 0 <= j < i ==> a@[j] == b@[j],
        decreases 16 - i,
    {
        if a[i] != b[i] {
            return false;
        }
        i += 1;
    }
    assert(a@ =~= b@);
    true
}

/// Whether a recovery fence must be refused: it would reuse the current
/// nonce or move the activation deadline backward.
pub open spec fn fence_refused(current: Option<Enforcement>, nonce: [u8; 16], deadline: u64) -> bool {
    current matches Some(s) && (s.generation.nonce@ == nonce@ || deadline < s.not_before_ms)
}

/// The generation and activation deadline of a recovery fence: the epoch
/// after the current one (the first epoch when there is none) with the fresh
/// `nonce`; `deadline` is the recovery deadline computed from the database
/// clock. Refused when the nonce is reused or the deadline would move back.
pub fn next_fence(current: Option<Enforcement>, nonce: [u8; 16], deadline: u64) -> (r: Result<(Generation, u64), LimiterUnavailable>)
    requires
        current matches Some(s) ==> s.generation.epoch < u64::MAX,
    ensures
        fence_refused(current, nonce, deadline) <==> r is Err,
        r matches Ok((g, d)) ==> {
            &&& g.epoch == (match current { Some(s) => s.generation.epoch + 1, None => 1 })
            &&& g.nonce == nonce
            &&& d == deadline
        },
{
    let epoch = match current {
        Some(s) => s.generation.epoch + 1,
        None => 1,
    };
    if let Some(s) = current {
        if same_nonce(&s.generation.nonce, &nonce) || deadline < s.not_before_ms {
            return Err(LimiterUnavailable);
        }
    }
    Ok((Generation { epoch, nonce }, deadline))
}

/// Fencing always moves to a newer generation with a different nonce, and
/// never brings the activation deadline forward in time.
pub proof fn law_fence_advances(current: Enforcement, nonce: [u8; 16], deadline: u64, next: Generation, d: u64)
    requires
        !fence_refused(Some(current), nonce, deadline),
        next.epoch == current.generation.epoch + 1,
        next.nonce == nonce,
        d == deadline,
    ensures
        next.epoch > current.generation.epoch,
        next.nonce@ != current.generation.nonce@,
        d >= current.not_before_ms,
{
}

/// An activation proceeds only while the authority is ready for one
/// (`ready`, as the recovery policy judged the current state) and still at
/// the generation the activation was fenced with.
pub fn activation_matches(ready: bool, current: Generation, expected: Generation) -> (r: Result<(), LimiterUnavailable>)
    ensures
        r is Ok <==> (ready && current.epoch == expected.epoch && current.nonce@ == expected.nonce@),
{
    if !ready {
        return Err(LimiterUnavailable);
    }
    if current.epoch != expected.epoch || !same_nonce(&current.nonce, &expected.nonce) {
        return Err(LimiterUnavailable);
    }
    Ok(())
}

/// Why an activation journal request failed.
#[derive(Debug, Clone, Copy, PartialEq, Eq, Structural)]
pub enum ActivationError {
    Unavailable,
    NotFound,
    NotReady,
    Uncertain,
}

/// A recorded completion of an activation.
#[derive(Debug, Clone, Copy)]
pub struct Completion {
    pub completed_ms: u64,
    pub identity: ServerIdentity,
}

/// An activation attempt as inspected: its intent, its completion if any,
/// and the current authority.
#[derive(Debug, Clone)]
pub struct Attempt {
    pub id: u128,
    pub generation: Generation,
    pub not_before_ms: u64,
    pub prepared_ms: u64,
    pub database_role: String,
    pub completion: Option<Completion>,
    pub current: Enforcement,
}

/// One snapshot of an activation attempt: the primary's recovery flag, the
/// intent (absent when no operation has this identifier), its receipt, and
/// the current authority.
#[derive(Debug, Clone)]
pub struct AttemptRow {
    pub in_recovery: bool,
    pub operation_id: Option<u128>,
    pub epoch: i64,
    pub generation: [u8; 16],
    pub not_before_ms: i64,
    pub prepared_ms: i64,
    pub database_role: String,
    pub completed_ms: Option<i64>,
    pub completed_run: Option<Vec<u8>>,
    pub completed_replication: Option<Vec<u8>>,
    pub current: AuthorityRow,
}

/// An intent row is well formed: non-negative epoch and times, a valid
/// current authority, and a valid identity when completed.
pub open spec fn attempt_valid(row: AttemptRow) -> bool {
    &&& authority_valid(row.current)
    &&& (row.completed_ms matches Some(ms) ==> ms >= 0 && identity_valid(row.completed_run, row.completed_replication))
    &&& row.epoch >= 0
    &&& row.not_before_ms >= 0
    &&& row.prepared_ms >= 0
}

/// The attempt `id` as one snapshot shows it: unavailable on a replica,
/// not found without an intent, unavailable when a row is malformed.
pub fn attempt(id: u128, row: AttemptRow) -> (r: Result<Attempt, ActivationError>)
    ensures
        row.in_recovery ==> r == Err::<Attempt, ActivationError>(ActivationError::Unavailable),
        !row.in_recovery && row.operation_id is None ==> r == Err::<Attempt, ActivationError>(ActivationError::NotFound),
        !row.in_recovery && row.operation_id is Some && !attempt_valid(row) ==> r == Err::<Attempt, ActivationError>(ActivationError::Unavailable),
        !row.in_recovery && row.operation_id is Some && attempt_valid(row) <==> r is Ok,
        r matches Ok(a) ==> {
            &&& a.id == id
            &&& a.generation.epoch == row.epoch as u64
            &&& a.generation.nonce == row.generation
            &&& a.not_before_ms == row.not_before_ms as u64
            &&& a.prepared_ms == row.prepared_ms as u64
            &&& a.database_role == row.database_role
            &&& a.completion is Some == row.completed_ms is Some
            &&& (a.completion matches Some(c) ==> {
                &&& c.completed_ms == row.completed_ms->Some_0 as u64
                &&& c.identity.run@ == row.completed_run->Some_0@
                &&& c.identity.replication@ == row.completed_replication->Some_0@
            })
            &&& describes(a.current, row.current)
        },
{
    if row.in_recovery {
        return Err(ActivationError::Unavailable);
    }
    if row.operation_id.is_none() {
        return Err(ActivationError::NotFound);
    }
    let current = match state(&row.current) {
        Ok(s) => s,
        Err(_) => return Err(ActivationError::Unavailable),
    };
    let completion = match row.completed_ms {
        Some(ms) => {
            if ms < 0 {
                return Err(ActivationError::Unavailable);
            }
            match identity(&row.completed_run, &row.completed_replication) {
                Some(identity) => Some(Completion { completed_ms: ms as u64, identity }),
                None => return Err(ActivationError::Unavailable),
            }
        },
        None => None,
    };
    if row.epoch < 0 || row.not_before_ms < 0 || row.prepared_ms < 0 {
        return Err(ActivationError::Unavailable);
    }
    Ok(Attempt {
        id,
        generation: Generation { epoch: row.epoch as u64, nonce: row.generation },
        not_before_ms: row.not_before_ms as u64,
        prepared_ms: row.prepared_ms as u64,
        database_role: row.database_role,
        completion,
        current,
    })
}

} // verus!
