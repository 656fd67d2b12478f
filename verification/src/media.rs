//! Profiles and media: which principal or branding slot a media request
//! addresses, the vocabulary media rows are stored and audited with, how
//! stored profile columns are read back, and the errors of both.
use vstd::prelude::*;
use crate::registration::RegistrationError;
use crate::directory::SessionError;

verus! {

/// Why a profile or media request failed.
#[derive(Debug, Clone, Copy, PartialEq, Eq, Structural)]
pub enum ProfileError {
    Invalid,
    NotFound,
    Conflict,
    Unauthorized,
    Forbidden,
    RecentAuthentication,
    Unavailable,
}

/// What a media asset illustrates.
#[derive(Debug, Clone, Copy, PartialEq, Eq, Structural)]
pub enum Kind {
    /// A principal's portrait.
    Portrait,
    /// The branding logo.
    Logo,
    /// The branding background.
    Background,
}

/// The slot a media request addresses: a portrait of a principal (the
/// requester's own when none is named), or a branding slot, which names no
/// principal.
#[derive(Debug, Clone, Copy, PartialEq, Eq, Structural)]
pub struct MediaTarget {
    pub kind: Kind,
    pub principal: Option<u128>,
}

/// The stored name of a kind.
pub open spec fn kind_text(kind: Kind) -> Seq<char> {
    match kind {
        Kind::Portrait => "portrait"@,
        Kind::Logo => "logo"@,
        Kind::Background => "background"@,
    }
}

/// The stored name of a kind.
pub fn kind(value: Kind) -> (r: &'static str)
    ensures
        r@ == kind_text(value),
{
    match value {
        Kind::Portrait => "portrait",
        Kind::Logo => "logo",
        Kind::Background => "background",
    }
}

/// A branding slot, which anyone may read: `Invalid` for a portrait or for a
/// target that names a principal.
pub fn public_target(target: MediaTarget) -> (r: Result<MediaTarget, ProfileError>)
    ensures
        r == (if target.kind == Kind::Portrait || target.principal is Some {
            Err::<MediaTarget, ProfileError>(ProfileError::Invalid)
        } else {
            Ok(target)
        }),
{
    if target.kind == Kind::Portrait || target.principal.is_some() {
        Err(ProfileError::Invalid)
    } else {
        Ok(target)
    }
}

/// The target a request by `actor` resolves to: a portrait of the named
/// principal or else of the actor; a branding slot with no principal.
pub fn resolved(target: MediaTarget, actor: u128) -> (r: MediaTarget)
    ensures
        r.kind == target.kind,
        r.principal == (if target.kind == Kind::Portrait {
            Some(match target.principal { Some(p) => p, None => actor })
        } else {
            None::<u128>
        }),
{
    let principal = if target.kind == Kind::Portrait {
        Some(match target.principal {
            Some(p) => p,
            None => actor,
        })
    } else {
        None
    };
    MediaTarget { kind: target.kind, principal }
}

/// The media error of a failed administrator check for a branding change.
pub open spec fn branding_error(e: RegistrationError) -> ProfileError {
    match e {
        RegistrationError::Forbidden => ProfileError::Forbidden,
        RegistrationError::Unauthorized => ProfileError::Unauthorized,
        RegistrationError::RecentAuthenticationRequired => ProfileError::RecentAuthentication,
        _ => ProfileError::Unavailable,
    }
}

/// The media error of a failed administrator check for a branding change.
pub fn administrator_error(e: RegistrationError) -> (r: ProfileError)
    ensures
        r == branding_error(e),
{
    match e {
        RegistrationError::Forbidden => ProfileError::Forbidden,
        RegistrationError::Unauthorized => ProfileError::Unauthorized,
        RegistrationError::RecentAuthenticationRequired => ProfileError::RecentAuthentication,
        _ => ProfileError::Unavailable,
    }
}

/// The profile error of a failed session ownership lookup: an unavailable
/// store stays unavailable, anything else is unauthorized.
pub fn session_error(e: SessionError) -> (r: ProfileError)
    ensures
        r == (if e == SessionError::Unavailable { ProfileError::Unavailable } else { ProfileError::Unauthorized }),
{
    match e {
        SessionError::Unavailable => ProfileError::Unavailable,
        _ => ProfileError::Unauthorized,
    }
}

/// The principal a profile request addresses: the named one, else the actor.
pub fn profile_target(target: Option<u128>, actor: u128) -> (r: u128)
    ensures
        r == (match target { Some(t) => t, None => actor }),
{
    match target {
        Some(t) => t,
        None => actor,
    }
}

/// The audit event of a media change that leaves `asset` in the slot.
pub fn media_event(asset: Option<u128>) -> (r: &'static str)
    ensures
        r@ == (if asset is Some { "published"@ } else { "removed"@ }),
{
    if asset.is_some() { "published" } else { "removed" }
}

/// What removing the asset of a slot at revision `current` does: with no
/// asset there is nothing to write and the revision stays; otherwise the slot
/// is cleared at `next`. The result is the revision the slot ends at and
/// whether anything is written.
pub fn removal(current: u64, old: Option<u128>, next: u64) -> (r: (u64, bool))
    ensures
        r == (if old is Some { (next, true) } else { (current, false) }),
{
    match old {
        Some(_) => (next, true),
        None => (current, false),
    }
}

/// The branding settings as shown to administrators.
#[derive(Debug, Clone, Copy, PartialEq, Eq, Structural)]
pub struct Branding {
    pub revision: u64,
    pub logo: bool,
    pub background: bool,
}

/// The branding settings at `revision` with the assets in the two slots.
pub fn branding(revision: u64, logo: Option<u128>, background: Option<u128>) -> (r: Branding)
    ensures
        r == (Branding { revision, logo: logo is Some, background: background is Some }),
{
    Branding { revision, logo: logo.is_some(), background: background.is_some() }
}

/// The stored object storage matches the one the server was started with;
/// a different one is a conflict.
pub fn storage_binding(stored: &[u8], fingerprint: &[u8; 32]) -> (r: Result<(), ProfileError>)
    ensures
        r == (if stored@ == fingerprint@ { Ok::<(), ProfileError>(()) } else { Err(ProfileError::Conflict) }),
{
    if stored.len() != 32 {
        return Err(ProfileError::Conflict);
    }
    let mut i: usize = 0;
    while i < 32
        invariant
            stored@.len() == 32,
            fingerprint@.len() == 32,
            0 <= i <= 32,
            forall|j: int| 0 <= j < i ==> stored@[j] == fingerprint@[j],
        decreases 32 - i,
    {
        if stored[i] != fingerprint[i] {
            return Err(ProfileError::Conflict);
        }
        i += 1;
    }
    assert(stored@ =~= fingerprint@);
    Ok(())
}

/// A stored optional text column; absent reads as empty.
pub fn optional(value: Option<String>) -> (r: String)
    ensures
        r@ == (match value { Some(v) => v@, None => Seq::<char>::empty() }),
{
    match value {
        Some(v) => v,
        None => String::new(),
    }
}

/// A stored telephone number: calling code and national number are both
/// present or both absent; one without the other is a corrupt row.
pub fn phone(code: Option<String>, national: Option<String>) -> (r: Result<Option<(String, String)>, ProfileError>)
    ensures
        (code is Some == national is Some) <==> r is Ok,
        r is Err ==> r == Err::<Option<(String, String)>, ProfileError>(ProfileError::Unavailable),
        r matches Ok(p) ==> match (code, national) {
            (Some(c), Some(n)) => p matches Some(pair) && pair.0@ == c@ && pair.1@ == n@,
            _ => p is None,
        },
{
    match (code, national) {
        (None, None) => Ok(None),
        (Some(c), Some(n)) => Ok(Some((c, n))),
        _ => Err(ProfileError::Unavailable),
    }
}

/// The size and digest of a ready asset row: a non-negative byte count and a
/// 32-byte digest, else the store is corrupt.
pub fn asset_metadata(bytes: i32, digest: &Vec<u8>) -> (r: Result<(u32, [u8; 32]), ProfileError>)
    ensures
        (bytes >= 0 && digest@.len() == 32) <==> r is Ok,
        r is Err ==> r == Err::<(u32, [u8; 32]), ProfileError>(ProfileError::Unavailable),
        r matches Ok(m) ==> m.0 == bytes as u32 && m.1@ == digest@,
{
    if bytes < 0 || digest.len() != 32 {
        return Err(ProfileError::Unavailable);
    }
    let mut out = [0u8; 32];
    let mut i: usize = 0;
    while i < 32
        invariant
            digest@.len() == 32,
            0 <= i <= 32,
            forall|j: int| 0 <= j < i ==> out@[j] == digest@[j],
        decreases 32 - i,
    {
        out[i] = digest[i];
        i += 1;
    }
    assert(out@ =~= digest@);
    Ok((bytes as u32, out))
}

} // verus!
