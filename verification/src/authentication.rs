//! Browser sign-in: how a stored session row becomes the facts its liveness
//! is judged on, and the errors sign-in reports.
use vstd::prelude::*;
use crate::directory::SessionError;

verus! {

/// Why sign-in or a session lookup failed.
#[derive(Debug, Clone, Copy, PartialEq, Eq, Structural)]
pub enum AuthError {
    /// No such session, or one that is no longer live.
    Denied,
    Unavailable,
}

/// A browser session row joined with its principal and credential.
#[derive(Debug, Clone, Copy, PartialEq, Eq, Structural)]
pub struct SessionRow {
    pub active: bool,
    pub credential_live: bool,
    pub revoked: bool,
    pub credential_epoch: i64,
    pub current_epoch: i64,
    pub created_ms: i64,
    pub seen_ms: i64,
    pub expires_ms: i64,
}

/// What a session's liveness is judged on.
#[derive(Debug, Clone, Copy, PartialEq, Eq, Structural)]
pub struct SessionFacts {
    pub active: bool,
    pub credential_live: bool,
    pub revoked: bool,
    pub issued_epoch: u64,
    pub current_epoch: u64,
    pub created_ms: u64,
    pub seen_ms: u64,
    pub expires_ms: u64,
}

/// Every stored count and time of the row is non-negative.
pub open spec fn row_valid(row: SessionRow) -> bool {
    &&& row.credential_epoch >= 0
    &&& row.current_epoch >= 0
    &&& row.created_ms >= 0
    &&& row.seen_ms >= 0
    &&& row.expires_ms >= 0
}

/// The facts of a session row; `Unavailable` for a row holding a negative
/// count or time, which a sound store never does.
pub fn session_facts(row: SessionRow) -> (r: Result<SessionFacts, AuthError>)
    ensures
        row_valid(row) <==> r is Ok,
        r is Err ==> r == Err::<SessionFacts, AuthError>(AuthError::Unavailable),
        r matches Ok(f) ==> f == (SessionFacts {
            active: row.active,
            credential_live: row.credential_live,
            revoked: row.revoked,
            issued_epoch: row.credential_epoch as u64,
            current_epoch: row.current_epoch as u64,
            created_ms: row.created_ms as u64,
            seen_ms: row.seen_ms as u64,
            expires_ms: row.expires_ms as u64,
        }),
{
    if row.credential_epoch < 0 || row.current_epoch < 0 || row.created_ms < 0 || row.seen_ms < 0
        || row.expires_ms < 0 {
        return Err(AuthError::Unavailable);
    }
    Ok(SessionFacts {
        active: row.active,
        credential_live: row.credential_live,
        revoked: row.revoked,
        issued_epoch: row.credential_epoch as u64,
        current_epoch: row.current_epoch as u64,
        created_ms: row.created_ms as u64,
        seen_ms: row.seen_ms as u64,
        expires_ms: row.expires_ms as u64,
    })
}

/// A session lookup succeeds only for a live session (`live`, as the
/// session policy judged its facts at the lookup's time).
pub fn checked(live: bool) -> (r: Result<(), AuthError>)
    ensures
        r == (if live { Ok::<(), AuthError>(()) } else { Err(AuthError::Denied) }),
{
    if !live {
        return Err(AuthError::Denied);
    }
    Ok(())
}

/// A credential epoch as stored: epochs past the stored range cannot be
/// written and make the store unavailable.
pub fn stored_epoch(epoch: u64) -> (r: Result<i64, AuthError>)
    ensures
        r == (if epoch <= i64::MAX { Ok::<i64, AuthError>(epoch as i64) } else { Err(AuthError::Unavailable) }),
{
    if epoch > i64::MAX as u64 {
        return Err(AuthError::Unavailable);
    }
    Ok(epoch as i64)
}

/// The login key digest the store holds after a bind of `key`: the insert
/// does nothing where a digest is already pinned, so the first one stays.
pub open spec fn pinned_key(stored: Option<Seq<u8>>, key: Seq<u8>) -> Seq<u8> {
    match stored {
        Some(digest) => digest,
        None => key,
    }
}

/// What a bind of `key` answers once `pinned` is the stored digest.
pub open spec fn bind_answer(pinned: Seq<u8>, key: Seq<u8>) -> Result<(), AuthError> {
    if pinned == key { Ok(()) } else { Err(AuthError::Unavailable) }
}

/// The pinned login key must be the one the server was started with; a
/// different one leaves sign-in unavailable.
pub fn login_key(pinned: &[u8], key: &[u8; 32]) -> (r: Result<(), AuthError>)
    ensures
        r == bind_answer(pinned@, key@),
{
    if pinned.len() != 32 {
        return Err(AuthError::Unavailable);
    }
    let mut i: usize = 0;
    while i < 32
        invariant
            pinned@.len() == 32,
            key@.len() == 32,
            0 <= i <= 32,
            forall|j: int| 0 <= j < i ==> pinned@[j] == key@[j],
        decreases 32 - i,
    {
        if pinned[i] != key[i] {
            return Err(AuthError::Unavailable);
        }
        i += 1;
    }
    assert(pinned@ =~= key@);
    Ok(())
}

/// One bind of the login key: the digest stored after it and the answer.
pub fn bind_step(stored: Option<Vec<u8>>, key: &[u8; 32]) -> (r: (Vec<u8>, Result<(), AuthError>))
    ensures
        r.0@ == pinned_key(
            match stored {
                Some(d) => Some(d@),
                None => None,
            },
            key@,
        ),
        r.1 == bind_answer(r.0@, key@),
{
    let pinned = match stored {
        Some(digest) => digest,
        None => {
            let mut digest: Vec<u8> = Vec::new();
            let mut i: usize = 0;
            while i < 32
                invariant
                    0 <= i <= 32,
                    key@.len() == 32,
                    digest@ == key@.subrange(0, i as int),
                decreases 32 - i,
            {
                digest.push(key[i]);
                assert(digest@ =~= key@.subrange(0, i + 1));
                i += 1;
            }
            assert(digest@ =~= key@);
            digest
        },
    };
    let answer = login_key(pinned.as_slice(), key);
    (pinned, answer)
}

/// The login key is pinned once and never replaced: the first bind of an
/// empty store pins its key and succeeds; any later bind leaves that digest
/// in place and succeeds exactly when it offers the same key.
pub proof fn law_login_key_pinned_once(stored: Option<Seq<u8>>, first: Seq<u8>, later: Seq<u8>)
    ensures
        ({
            let pinned = pinned_key(stored, first);
            &&& stored matches Some(d) ==> pinned == d
            &&& stored is None ==> pinned == first && bind_answer(pinned, first) is Ok
            &&& pinned_key(Some(pinned), later) == pinned
            &&& bind_answer(pinned_key(Some(pinned), later), later) is Ok <==> later == pinned
        }),
{
}

/// The sign-in error of a failed session operation: an unauthorized session
/// is denied, anything else is unavailable.
pub fn session_error(e: SessionError) -> (r: AuthError)
    ensures
        r == (if e == SessionError::Unauthorized { AuthError::Denied } else { AuthError::Unavailable }),
{
    match e {
        SessionError::Unauthorized => AuthError::Denied,
        _ => AuthError::Unavailable,
    }
}

} // verus!
