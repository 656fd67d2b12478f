//! OpenID Connect authorization transactions: the stored prompt vocabulary,
//! stored digests and bound sessions, and the small decisions around a
//! pending request and its authorization code.
use vstd::prelude::*;
use crate::sql::same_text;

verus! {

/// What the client asked the user to be prompted for.
#[derive(Debug, Clone, Copy, PartialEq, Eq, Structural)]
pub enum Prompt {
    Default,
    /// Stored as `none`: the user must not be prompted at all.
    Silent,
    Login,
    Consent,
    LoginConsent,
}

/// The stored name of a prompt.
pub open spec fn prompt_text(p: Prompt) -> Seq<char> {
    match p {
        Prompt::Default => "default"@,
        Prompt::Silent => "none"@,
        Prompt::Login => "login"@,
        Prompt::Consent => "consent"@,
        Prompt::LoginConsent => "login_consent"@,
    }
}

/// The prompt a stored name denotes, if any.
pub open spec fn prompt_named(s: Seq<char>) -> Option<Prompt> {
    if s == "default"@ {
        Some(Prompt::Default)
    } else if s == "none"@ {
        Some(Prompt::Silent)
    } else if s == "login"@ {
        Some(Prompt::Login)
    } else if s == "consent"@ {
        Some(Prompt::Consent)
    } else if s == "login_consent"@ {
        Some(Prompt::LoginConsent)
    } else {
        None
    }
}

/// Why an authorization request or transaction failed.
#[derive(Debug, Clone, Copy, PartialEq, Eq, Structural)]
pub enum AuthorizationError {
    InvalidRequest,
    InvalidTransaction,
    AccessDenied,
    Unavailable,
}

/// Why a token request failed.
#[derive(Debug, Clone, Copy, PartialEq, Eq, Structural)]
pub enum TokenError {
    InvalidGrant,
    InvalidToken,
    Unavailable,
}

/// The stored name of a prompt.
pub fn prompt(value: Prompt) -> (r: &'static str)
    ensures
        r@ == prompt_text(value),
{
    match value {
        Prompt::Default => "default",
        Prompt::Silent => "none",
        Prompt::Login => "login",
        Prompt::Consent => "consent",
        Prompt::LoginConsent => "login_consent",
    }
}

/// The prompt a stored name denotes; an unknown name means a corrupt store.
pub fn parse_prompt(value: &str) -> (r: Result<Prompt, AuthorizationError>)
    ensures
        r == (match prompt_named(value@) {
            Some(p) => Ok::<Prompt, AuthorizationError>(p),
            None => Err(AuthorizationError::Unavailable),
        }),
{
    if same_text(value, "default") {
        Ok(Prompt::Default)
    } else if same_text(value, "none") {
        Ok(Prompt::Silent)
    } else if same_text(value, "login") {
        Ok(Prompt::Login)
    } else if same_text(value, "consent") {
        Ok(Prompt::Consent)
    } else if same_text(value, "login_consent") {
        Ok(Prompt::LoginConsent)
    } else {
        Err(AuthorizationError::Unavailable)
    }
}

/// Every prompt survives being stored and read back.
pub proof fn law_prompt_round_trip(p: Prompt)
    ensures
        prompt_named(prompt_text(p)) == Some(p),
{
    reveal_strlit("default");
    reveal_strlit("none");
    reveal_strlit("login");
    reveal_strlit("consent");
    reveal_strlit("login_consent");
    let d = "default"@;
    let n = "none"@;
    let l = "login"@;
    let c = "consent"@;
    let lc = "login_consent"@;
    assert(n[0] != d[0]);
    assert(l[0] != d[0] && l[0] != n[0]);
    assert(c[0] != d[0] && c[0] != n[0] && c[0] != l[0]);
    assert(lc[0] != d[0] && lc[0] != n[0] && lc[0] != c[0]);
    assert(lc.len() != l.len());
}

/// A stored 32-byte digest; `Err` when the stored value has another length.
pub fn digest(value: Option<Vec<u8>>) -> (r: Result<Option<[u8; 32]>, AuthorizationError>)
    ensures
        match value {
            None => r == Ok::<Option<[u8; 32]>, AuthorizationError>(None),
            Some(v) => if v@.len() == 32 {
                r matches Ok(Some(d)) && d@ == v@
            } else {
                r == Err::<Option<[u8; 32]>, AuthorizationError>(AuthorizationError::Unavailable)
            },
        },
{
    match value {
        None => Ok(None),
        Some(v) => {
            if v.len() != 32 {
                return Err(AuthorizationError::Unavailable);
            }
            let mut out = [0u8; 32];
            let mut i: usize = 0;
            while i < 32
                invariant
                    v@.len() == 32,
                    0 <= i <= 32,
                    forall|j: int| 0 <= j < i ==> out@[j] == v@[j],
                decreases 32 - i,
            {
                out[i] = v[i];
                i += 1;
            }
            assert(out@ =~= v@);
            Ok(Some(out))
        },
    }
}

/// Where the interaction of a pending request stands.
#[derive(Debug, Clone, Copy, PartialEq, Eq, Structural)]
pub enum Interaction {
    Login,
    Consent,
    Ready,
}

/// A browser session bound to a request.
#[derive(Debug, Clone, Copy)]
pub struct Session {
    pub digest: [u8; 32],
    pub principal: u128,
    pub authenticated_ms: u64,
}

/// Whether a request may be bound to a session at this stage: not while the
/// user still has to log in; otherwise a current session is required.
pub fn bindable(current: Option<Session>, interaction: Interaction) -> (r: Result<Option<Session>, AuthorizationError>)
    ensures
        interaction == Interaction::Login ==> r == Ok::<Option<Session>, AuthorizationError>(None),
        interaction != Interaction::Login && current is None ==> r == Err::<Option<Session>, AuthorizationError>(AuthorizationError::InvalidTransaction),
        interaction != Interaction::Login && current is Some ==> (r matches Ok(Some(s)) && s == current->Some_0),
{
    if interaction == Interaction::Login {
        return Ok(None);
    }
    match current {
        Some(session) => Ok(Some(session)),
        None => Err(AuthorizationError::InvalidTransaction),
    }
}

/// A code is issued only for a request that is ready.
pub fn ready(state: Interaction) -> (r: Result<(), TokenError>)
    ensures
        r == (if state == Interaction::Ready { Ok::<(), TokenError>(()) } else { Err(TokenError::InvalidGrant) }),
{
    if state != Interaction::Ready {
        return Err(TokenError::InvalidGrant);
    }
    Ok(())
}

/// The token error of a failed authorization step: an unavailable store
/// stays unavailable, any other failure refuses the grant.
pub fn convert(error: AuthorizationError) -> (r: TokenError)
    ensures
        r == (if error == AuthorizationError::Unavailable { TokenError::Unavailable } else { TokenError::InvalidGrant }),
{
    match error {
        AuthorizationError::Unavailable => TokenError::Unavailable,
        _ => TokenError::InvalidGrant,
    }
}

/// Whether stored consent must be looked up: never for resource requests,
/// which always ask, nor without a current session.
pub fn consent_lookup(resource: &Option<String>, session: Option<Session>) -> (r: Option<Session>)
    ensures
        r is Some <==> (resource is None && session is Some),
        r is Some ==> r == session,
{
    if resource.is_some() {
        return None;
    }
    session
}

/// Whether a pending request still matches its client's current revisions.
pub fn revisions_unchanged(
    pending_client: u64,
    pending_application: u64,
    client: u64,
    application: u64,
) -> (r: Result<(), AuthorizationError>)
    ensures
        r == (if pending_client == client && pending_application == application {
            Ok::<(), AuthorizationError>(())
        } else {
            Err(AuthorizationError::InvalidTransaction)
        }),
{
    if pending_client != client || pending_application != application {
        return Err(AuthorizationError::InvalidTransaction);
    }
    Ok(())
}

/// Most redirect URIs a client has.
pub const REDIRECT_LIMIT: usize = 8;

/// Most resources a client may request.
pub const RESOURCE_LIMIT: usize = 32;

/// Most scopes of one resource a client may request.
pub const SCOPE_LIMIT: usize = 128;

/// A client catalog read within its bounds; beyond them the store is
/// treated as unavailable.
pub fn catalog_bounds(redirects: usize, resources: usize) -> (r: Result<(), AuthorizationError>)
    ensures
        r == (if redirects <= REDIRECT_LIMIT && resources <= RESOURCE_LIMIT {
            Ok::<(), AuthorizationError>(())
        } else {
            Err(AuthorizationError::Unavailable)
        }),
{
    if redirects > REDIRECT_LIMIT || resources > RESOURCE_LIMIT {
        return Err(AuthorizationError::Unavailable);
    }
    Ok(())
}

/// The scopes of one requested resource within their bound; beyond it the
/// store is treated as unavailable.
pub fn scope_bound(scopes: usize) -> (r: Result<(), AuthorizationError>)
    ensures
        r == (if scopes <= SCOPE_LIMIT { Ok::<(), AuthorizationError>(()) } else { Err(AuthorizationError::Unavailable) }),
{
    if scopes > SCOPE_LIMIT {
        return Err(AuthorizationError::Unavailable);
    }
    Ok(())
}

/// The session a pending request is bound to, from its stored columns:
/// none without a stored session digest; `Unavailable` for a digest of
/// another length or a negative authentication time.
pub fn bound_session(
    digest_value: Option<Vec<u8>>,
    principal: u128,
    authenticated_ms: i64,
) -> (r: Result<Option<Session>, AuthorizationError>)
    ensures
        match digest_value {
            None => r == Ok::<Option<Session>, AuthorizationError>(None),
            Some(v) => if v@.len() == 32 && authenticated_ms >= 0 {
                r matches Ok(Some(s)) && s.digest@ == v@ && s.principal == principal
                    && s.authenticated_ms == authenticated_ms as u64
            } else {
                r == Err::<Option<Session>, AuthorizationError>(AuthorizationError::Unavailable)
            },
        },
{
    let stored = match digest(digest_value) {
        Ok(Some(d)) => d,
        Ok(None) => return Ok(None),
        Err(e) => return Err(e),
    };
    if authenticated_ms < 0 {
        return Err(AuthorizationError::Unavailable);
    }
    Ok(Some(Session { digest: stored, principal, authenticated_ms: authenticated_ms as u64 }))
}

/// A stored maximum authentication age; a negative one means a corrupt store.
pub fn max_age(value: Option<i64>) -> (r: Result<Option<u64>, AuthorizationError>)
    ensures
        r == (match value {
            None => Ok::<Option<u64>, AuthorizationError>(None),
            Some(n) => if n >= 0 { Ok(Some(n as u64)) } else { Err(AuthorizationError::Unavailable) },
        }),
{
    match value {
        None => Ok(None),
        Some(n) => {
            if n < 0 {
                return Err(AuthorizationError::Unavailable);
            }
            Ok(Some(n as u64))
        },
    }
}

/// What the user decided on a pending request, as the interaction policy
/// admitted it for the request's stage.
#[derive(Debug, Clone, Copy, PartialEq, Eq, Structural)]
pub enum Decision {
    Inspect,
    Deny,
    Approve,
}

/// What the store does with an admitted decision.
#[derive(Debug, Clone, Copy)]
pub enum Action {
    /// Show the request at this stage.
    View(Interaction),
    /// Close the request and send the user back with `AccessDenied`.
    Deny,
    /// Record the approval for this session, then show the request as ready.
    Approve(Session),
}

/// The action of an admitted decision at `stage`: inspecting shows the
/// request as it stands, denying closes it, and approving needs a current
/// session (`InvalidTransaction` otherwise).
pub fn decide(decision: Decision, stage: Interaction, current: Option<Session>) -> (r: Result<Action, AuthorizationError>)
    ensures
        decision == Decision::Inspect ==> (r matches Ok(Action::View(s)) && s == stage),
        decision == Decision::Deny ==> r matches Ok(Action::Deny),
        decision == Decision::Approve && current is None ==> r == Err::<Action, AuthorizationError>(AuthorizationError::InvalidTransaction),
        decision == Decision::Approve && current is Some ==> (r matches Ok(Action::Approve(s)) && s == current->Some_0),
{
    match decision {
        Decision::Inspect => Ok(Action::View(stage)),
        Decision::Deny => Ok(Action::Deny),
        Decision::Approve => match current {
            Some(session) => Ok(Action::Approve(session)),
            None => Err(AuthorizationError::InvalidTransaction),
        },
    }
}

/// The session a browser digest names, when the session policy judged it
/// `live`; it counts as authenticated when it was created.
pub fn live_session(live: bool, digest_bytes: [u8; 32], principal: u128, created_ms: u64) -> (r: Option<Session>)
    ensures
        live <==> r is Some,
        r matches Some(s) ==> s.digest == digest_bytes && s.principal == principal && s.authenticated_ms == created_ms,
{
    if !live {
        return None;
    }
    Some(Session { digest: digest_bytes, principal, authenticated_ms: created_ms })
}

/// The authorization error of a refused consent approval: an unavailable
/// store stays unavailable, any other refusal denies access.
pub fn approval_error(error: TokenError) -> (r: AuthorizationError)
    ensures
        r == (if error == TokenError::Unavailable { AuthorizationError::Unavailable } else { AuthorizationError::AccessDenied }),
{
    match error {
        TokenError::Unavailable => AuthorizationError::Unavailable,
        _ => AuthorizationError::AccessDenied,
    }
}

/// The session a code is issued to: only a ready request with a current
/// session gets a code; anything else refuses the grant.
pub fn issuable(state: Interaction, current: Option<Session>) -> (r: Result<Session, TokenError>)
    ensures
        (state == Interaction::Ready && current is Some) <==> r is Ok,
        r is Err ==> r == Err::<Session, TokenError>(TokenError::InvalidGrant),
        r matches Ok(s) ==> s == current->Some_0,
{
    match ready(state) {
        Ok(()) => {},
        Err(e) => return Err(e),
    }
    match current {
        Some(session) => Ok(session),
        None => Err(TokenError::InvalidGrant),
    }
}

} // verus!
