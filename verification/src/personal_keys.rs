//! Personal API keys: capability sets, the policy projection a key is planned
//! and introspected against, key listing pages, and introspection outcomes.
use vstd::prelude::*;
use crate::directory::AccountStatus;
use crate::oidc::TokenError;
use std::collections::BTreeSet;
use vstd::laws_cmp::obeys_cmp;
use vstd::std_specs::btree::{axiom_increasing_seq_meaning, axiom_spec_btree_keys_iter, spec_btree_keys_iter};
use vstd::std_specs::cmp::OrdSpec;
use vstd::std_specs::iter::IteratorSpec;

verus! {

/// Why a personal-key request failed.
#[derive(Debug, Clone, Copy, PartialEq, Eq, Structural)]
pub enum KeyError {
    Unauthorized,
    Forbidden,
    NotFound,
    Invalid,
    Unavailable,
}

/// Keys or options per page.
pub const PAGE_SIZE: usize = 25;

/// Most resources one key is granted.
pub const MAX_RESOURCES: usize = 16;

/// Most capabilities a resource exposes (and most historical ones).
pub const CAPABILITY_LIMIT: usize = 256;

/// Most roles that grant on one resource.
pub const ROLE_LIMIT: usize = 64;

/// A set of capabilities, held in strictly increasing order.
pub open spec fn strictly_sorted(s: Seq<u128>) -> bool {
    forall|i: int, j: int| 0 <= i < j < s.len() ==> s[i] < s[j]
}

/// The set of the capabilities listed in `ids`.
pub fn capabilities(ids: &[u128]) -> (r: BTreeSet<u128>)
    ensures
        r@ == ids@.to_set(),
{
    let mut set: BTreeSet<u128> = BTreeSet::new();
    let mut i: usize = 0;
    while i < ids.len()
        invariant
            0 <= i <= ids@.len(),
            set@ == ids@.subrange(0, i as int).to_set(),
        decreases ids@.len() - i,
    {
        set.insert(ids[i]);
        assert(ids@.subrange(0, i + 1) =~= ids@.subrange(0, i as int).push(ids@[i as int]));
        proof {
            ids@.subrange(0, i as int).lemma_push_to_set_commute(ids@[i as int]);
        }
        i += 1;
    }
    assert(ids@.subrange(0, ids@.len() as int) =~= ids@);
    set
}

/// The capabilities of a set in increasing order, as a set is stored.
pub fn encoded(caps: &BTreeSet<u128>) -> (r: Vec<u128>)
    ensures
        r@.to_set() == caps@,
        strictly_sorted(r@),
{
    let ghost rem = spec_btree_keys_iter(caps).remaining();
    let mut out: Vec<u128> = Vec::new();
    for x in it: caps.iter()
        invariant
            it.seq() == rem,
            out@ == rem.unref().take(it.index() as int),
    {
        out.push(*x);
        assert(out@ =~= rem.unref().take(it.index() + 1));
    }
    proof {
        assert(out@ =~= rem.unref());
        lemma_keys_increase(caps);
    }
    out
}

proof fn lemma_keys_increase(caps: &BTreeSet<u128>)
    ensures
        spec_btree_keys_iter(caps).remaining().unref().to_set() == caps@,
        strictly_sorted(spec_btree_keys_iter(caps).remaining().unref()),
{
    axiom_spec_btree_keys_iter(caps);
    let rem = spec_btree_keys_iter(caps).remaining();
    assert(obeys_cmp::<&u128>());
    axiom_increasing_seq_meaning(rem);
    assert forall|i: int, j: int| 0 <= i < j < rem.len() implies rem.unref()[i] < rem.unref()[j] by {
        assert((&rem[i]).cmp_spec(&&rem[j]) is Less);
    }
}

/// The capabilities in `a` or in `b`.
pub fn union_of(a: &BTreeSet<u128>, b: &BTreeSet<u128>) -> (r: BTreeSet<u128>)
    ensures
        r@ == a@.union(b@),
{
    let mut set = a.clone();
    let ids = encoded(b);
    let mut i: usize = 0;
    while i < ids.len()
        invariant
            0 <= i <= ids@.len(),
            ids@.to_set() == b@,
            set@ == a@.union(ids@.subrange(0, i as int).to_set()),
        decreases ids@.len() - i,
    {
        set.insert(ids[i]);
        assert(ids@.subrange(0, i + 1) =~= ids@.subrange(0, i as int).push(ids@[i as int]));
        proof {
            ids@.subrange(0, i as int).lemma_push_to_set_commute(ids@[i as int]);
        }
        assert(set@ =~= a@.union(ids@.subrange(0, i + 1).to_set()));
        i += 1;
    }
    assert(ids@.subrange(0, ids@.len() as int) =~= ids@);
    set
}

/// A capability list in increasing order is determined by its members: two
/// such lists holding the same capabilities are the same sequence.
pub proof fn law_set_determined_by_members(a: Seq<u128>, b: Seq<u128>)
    requires
        strictly_sorted(a),
        strictly_sorted(b),
        forall|y: u128| a.contains(y) <==> b.contains(y),
    ensures
        a == b,
    decreases a.len(),
{
    if a.len() == 0 {
        if b.len() > 0 {
            assert(b.contains(b[0]));
        }
        assert(a =~= b);
    } else {
        assert(a.contains(a[0]));
        assert(b.contains(a[0]));
        assert(b.len() > 0);
        assert(b.contains(b[0]));
        assert(a.contains(b[0]));
        let j = choose|j: int| 0 <= j < b.len() && b[j] == a[0];
        let i = choose|i: int| 0 <= i < a.len() && a[i] == b[0];
        if j > 0 {
            assert(b[0] < b[j]);
            if i > 0 {
                assert(a[0] < a[i]);
            }
            assert(false);
        }
        let ra = a.drop_first();
        let rb = b.drop_first();
        assert forall|y: u128| ra.contains(y) <==> rb.contains(y) by {
            if ra.contains(y) {
                let k = choose|k: int| 0 <= k < ra.len() && ra[k] == y;
                assert(a[k + 1] == y);
                assert(a[0] < a[k + 1]);
                assert(a.contains(y));
                let m = choose|m: int| 0 <= m < b.len() && b[m] == y;
                if m == 0 {
                    assert(false);
                }
                assert(rb[m - 1] == y);
            }
            if rb.contains(y) {
                let k = choose|k: int| 0 <= k < rb.len() && rb[k] == y;
                assert(b[k + 1] == y);
                assert(b[0] < b[k + 1]);
                assert(b.contains(y));
                let m = choose|m: int| 0 <= m < a.len() && a[m] == y;
                if m == 0 {
                    assert(false);
                }
                assert(ra[m - 1] == y);
            }
        }
        law_set_determined_by_members(ra, rb);
        assert(a =~= seq![a[0]] + ra);
        assert(b =~= seq![b[0]] + rb);
    }
}

/// Storing a set and reading it back gives the set, and a set has one
/// stored form: any increasing list of its members is its encoding.
pub proof fn law_encoding_round_trips(caps: Set<u128>, stored: Seq<u128>, other: Seq<u128>)
    requires
        strictly_sorted(stored),
        stored.to_set() == caps,
        strictly_sorted(other),
        other.to_set() == caps,
    ensures
        stored.to_set() == caps,
        other == stored,
{
    assert forall|y: u128| stored.contains(y) <==> other.contains(y) by {
        assert(stored.to_set().contains(y) == other.to_set().contains(y));
    }
    law_set_determined_by_members(stored, other);
}

/// The policy row of one resource for one principal.
#[derive(Debug, Clone)]
pub struct Projection {
    pub resource_id: u128,
    pub application_id: u128,
    pub resource_name: String,
    pub application_name: String,
    pub active: bool,
    pub principal_active: bool,
    pub credential_epoch: i64,
    pub capabilities: Vec<u128>,
    pub roles: Vec<(u128, Vec<u128>)>,
    pub historical: Vec<u128>,
}

/// A role of the principal in the resource's application, and what it grants.
#[derive(Debug, Clone)]
pub struct RoleGrant {
    pub id: u128,
    pub capabilities: BTreeSet<u128>,
}

/// A capability the policy knows of, and whether the resource exposes it
/// (then it belongs to the resource's application, else to none).
#[derive(Debug, Clone, Copy, PartialEq, Eq, Structural)]
pub struct KnownCapability {
    pub id: u128,
    pub exposed: bool,
}

/// The authorization policy of one resource for one principal.
#[derive(Debug, Clone)]
pub struct Policy {
    pub application: u128,
    pub resource: u128,
    pub application_active: bool,
    pub application_name: String,
    pub resource_name: String,
    /// What the resource exposes now.
    pub exposed: BTreeSet<u128>,
    /// What it exposes now and what a key's ceiling recorded before.
    pub known: Vec<KnownCapability>,
    pub roles: Vec<RoleGrant>,
    pub principal: u128,
    pub status: AccountStatus,
    pub credential_epoch: u64,
}

/// The identifiers of known capabilities, in order.
pub open spec fn known_ids(known: Seq<KnownCapability>) -> Seq<u128> {
    known.map_values(|c: KnownCapability| c.id)
}

impl Policy {
    /// Plans a key for `application` against this policy: only the policy's
    /// own application may be planned for (`Forbidden` otherwise), and a plan
    /// the planner refuses is forbidden too.
    pub fn plan<T, E, F: FnOnce() -> Result<T, E>>(&self, application: u128, planner: F) -> (r: Result<T, KeyError>)
        requires
            application == self.application ==> planner.requires(()),
        ensures
            application != self.application ==> r == Err::<T, KeyError>(KeyError::Forbidden),
            application == self.application ==> exists|out: Result<T, E>| #[trigger] planner.ensures((), out)
                && r == (match out {
                    Ok(t) => Ok::<T, KeyError>(t),
                    Err(_) => Err(KeyError::Forbidden),
                }),
    {
        if application != self.application {
            return Err(KeyError::Forbidden);
        }
        match planner() {
            Ok(t) => Ok(t),
            Err(_) => Err(KeyError::Forbidden),
        }
    }
}

/// A projection row within the policy's bounds.
pub open spec fn projection_bounded(row: Projection) -> bool {
    &&& row.capabilities@.len() <= CAPABILITY_LIMIT
    &&& row.roles@.len() <= ROLE_LIMIT
    &&& row.historical@.len() <= CAPABILITY_LIMIT
    &&& row.credential_epoch >= 0
}

/// The policy a projection row describes for `principal`: exposed and known
/// capability sets, the roles' capability sets in row order, and the
/// principal's status and epoch. `Unavailable` beyond the bounds or for a
/// negative epoch.
pub fn assemble(row: Projection, principal: u128) -> (r: Result<Policy, KeyError>)
    ensures
        projection_bounded(row) <==> r is Ok,
        r is Err ==> r == Err::<Policy, KeyError>(KeyError::Unavailable),
        r matches Ok(p) ==> {
            &&& p.application == row.application_id
            &&& p.resource == row.resource_id
            &&& p.application_active == row.active
            &&& p.application_name == row.application_name
            &&& p.resource_name == row.resource_name
            &&& p.exposed@ == row.capabilities@.to_set()
            &&& (forall|k: int| 0 <= k < p.known@.len() ==> #[trigger] p.known@[k].exposed == row.capabilities@.contains(p.known@[k].id))
            &&& strictly_sorted(known_ids(p.known@))
            &&& known_ids(p.known@).to_set() == row.capabilities@.to_set().union(row.historical@.to_set())
            &&& p.roles@.len() == row.roles@.len()
            &&& (forall|k: int| 0 <= k < p.roles@.len() ==> {
                &&& (#[trigger] p.roles@[k]).id == row.roles@[k].0
                &&& p.roles@[k].capabilities@ == row.roles@[k].1@.to_set()
            })
            &&& p.principal == principal
            &&& p.status == (if row.principal_active { AccountStatus::Active } else { AccountStatus::Inactive })
            &&& p.credential_epoch == row.credential_epoch as u64
        },
{
    if row.capabilities.len() > CAPABILITY_LIMIT || row.roles.len() > ROLE_LIMIT
        || row.historical.len() > CAPABILITY_LIMIT {
        return Err(KeyError::Unavailable);
    }
    let exposed = capabilities(row.capabilities.as_slice());
    let historical = capabilities(row.historical.as_slice());
    let all = encoded(&union_of(&exposed, &historical));
    let mut known: Vec<KnownCapability> = Vec::new();
    let mut i: usize = 0;
    while i < all.len()
        invariant
            0 <= i <= all@.len(),
            known@.len() == i,
            exposed@ == row.capabilities@.to_set(),
            forall|k: int| 0 <= k < i ==> (#[trigger] known@[k]).id == all@[k]
                && known@[k].exposed == row.capabilities@.contains(all@[k]),
        decreases all@.len() - i,
    {
        let id = all[i];
        let is_exposed = exposed.contains(&id);
        known.push(KnownCapability { id, exposed: is_exposed });
        i += 1;
    }
    assert(known_ids(known@) =~= all@);
    let mut roles: Vec<RoleGrant> = Vec::new();
    let mut j: usize = 0;
    while j < row.roles.len()
        invariant
            0 <= j <= row.roles@.len(),
            roles@.len() == j,
            forall|k: int| 0 <= k < j ==> {
                &&& (#[trigger] roles@[k]).id == row.roles@[k].0
                &&& roles@[k].capabilities@ == row.roles@[k].1@.to_set()
            },
        decreases row.roles@.len() - j,
    {
        let role = &row.roles[j];
        let granted = capabilities(role.1.as_slice());
        roles.push(RoleGrant { id: role.0, capabilities: granted });
        j += 1;
    }
    if row.credential_epoch < 0 {
        return Err(KeyError::Unavailable);
    }
    Ok(Policy {
        application: row.application_id,
        resource: row.resource_id,
        application_active: row.active,
        application_name: row.application_name,
        resource_name: row.resource_name,
        exposed,
        known,
        roles,
        principal,
        status: if row.principal_active { AccountStatus::Active } else { AccountStatus::Inactive },
        credential_epoch: row.credential_epoch as u64,
    })
}

/// The cursor of the next page of keys or options fetched one past a page:
/// the last identifier on this page when there are more.
pub fn continuation(ids: &[u128]) -> (r: Option<u128>)
    ensures
        r == (if ids@.len() > PAGE_SIZE { Some(ids@[PAGE_SIZE - 1]) } else { None }),
{
    if ids.len() > PAGE_SIZE {
        Some(ids[PAGE_SIZE - 1])
    } else {
        None
    }
}

/// A key grants at least one and at most `MAX_RESOURCES` resources; any
/// other stored count is a corrupt store.
pub fn grant_count(rows: usize) -> (r: Result<(), KeyError>)
    ensures
        r == (if 0 < rows <= MAX_RESOURCES { Ok::<(), KeyError>(()) } else { Err(KeyError::Unavailable) }),
{
    if rows == 0 || rows > MAX_RESOURCES {
        return Err(KeyError::Unavailable);
    }
    Ok(())
}

/// Whether a listed key is active: not revoked, issued at the owner's current
/// credential epoch, and live by its own validity window (`live`).
pub fn key_active(revoked: bool, principal_epoch: u64, actor_epoch: u64, live: bool) -> (r: bool)
    ensures
        r == (!revoked && principal_epoch == actor_epoch && live),
{
    !revoked && principal_epoch == actor_epoch && live
}

/// Introspection answers "inactive" for every failure but an unavailable
/// store, which it reports.
pub fn inactive<T>(result: Result<T, TokenError>) -> (r: Result<Option<T>, TokenError>)
    ensures
        match result {
            Ok(active) => r == Ok::<Option<T>, TokenError>(Some(active)),
            Err(TokenError::Unavailable) => r == Err::<Option<T>, TokenError>(TokenError::Unavailable),
            Err(_) => r == Ok::<Option<T>, TokenError>(None),
        },
{
    match result {
        Ok(active) => Ok(Some(active)),
        Err(TokenError::Unavailable) => Err(TokenError::Unavailable),
        Err(_) => Ok(None),
    }
}

/// The token error of a failed policy load: an unavailable store stays
/// unavailable, anything else makes the token invalid.
pub fn policy_error(error: KeyError) -> (r: TokenError)
    ensures
        r == (if error == KeyError::Unavailable { TokenError::Unavailable } else { TokenError::InvalidToken }),
{
    match error {
        KeyError::Unavailable => TokenError::Unavailable,
        _ => TokenError::InvalidToken,
    }
}

/// A personal key's grant on one resource, as introspection reads it.
#[derive(Debug, Clone)]
pub struct GrantRow {
    pub credential_id: u128,
    pub principal_id: u128,
    pub application_id: u128,
    pub resource_id: u128,
    pub revoked: bool,
    pub principal_epoch: i64,
    pub created_ms: i64,
    pub expires_ms: Option<i64>,
    pub capability_ceiling: Vec<u128>,
}

/// The credential grant a key row describes: its validity in whole seconds
/// and its capability ceiling as a set.
#[derive(Debug, Clone)]
pub struct CredentialGrant {
    pub credential: u128,
    pub subject: u128,
    pub application: u128,
    pub resource: u128,
    pub revoked: bool,
    pub principal_epoch: u64,
    pub valid_from: u64,
    pub expires_at: Option<u64>,
    pub ceiling: BTreeSet<u128>,
}

/// A grant row holds no negative epoch or time.
pub open spec fn grant_row_valid(row: GrantRow) -> bool {
    &&& row.principal_epoch >= 0
    &&& row.created_ms >= 0
    &&& (row.expires_ms matches Some(e) ==> e >= 0)
}

/// The credential grant of a key row; `Unavailable` for a negative epoch or
/// time. Times are kept in whole seconds.
pub fn decode(row: GrantRow) -> (r: Result<CredentialGrant, KeyError>)
    ensures
        grant_row_valid(row) <==> r is Ok,
        r is Err ==> r == Err::<CredentialGrant, KeyError>(KeyError::Unavailable),
        r matches Ok(g) ==> {
            &&& g.credential == row.credential_id
            &&& g.subject == row.principal_id
            &&& g.application == row.application_id
            &&& g.resource == row.resource_id
            &&& g.revoked == row.revoked
            &&& g.principal_epoch == row.principal_epoch as u64
            &&& g.valid_from == row.created_ms as u64 / 1000
            &&& g.expires_at == (match row.expires_ms { Some(e) => Some(e as u64 / 1000), None => None::<u64> })
            &&& g.ceiling@ == row.capability_ceiling@.to_set()
        },
{
    if row.principal_epoch < 0 || row.created_ms < 0 {
        return Err(KeyError::Unavailable);
    }
    let expires_at = match row.expires_ms {
        Some(e) => {
            if e < 0 {
                return Err(KeyError::Unavailable);
            }
            Some(e as u64 / 1000)
        },
        None => None,
    };
    let ceiling = capabilities(row.capability_ceiling.as_slice());
    Ok(CredentialGrant {
        credential: row.credential_id,
        subject: row.principal_id,
        application: row.application_id,
        resource: row.resource_id,
        revoked: row.revoked,
        principal_epoch: row.principal_epoch as u64,
        valid_from: row.created_ms as u64 / 1000,
        expires_at,
        ceiling,
    })
}

/// An active key as introspection reports it.
#[derive(Debug, Clone)]
pub struct Active {
    pub credential: u128,
    pub subject: u128,
    pub resource: u128,
    pub capabilities: BTreeSet<u128>,
    pub issued: u64,
    pub expires: Option<u64>,
}

/// The introspection answer for a grant: inactive (`InvalidToken`) unless
/// the key is `live` by its validity window and the authorization policy
/// grants it a non-empty set of `effective` capabilities.
pub fn evaluate(live: bool, grant: CredentialGrant, effective: Result<BTreeSet<u128>, KeyError>) -> (r: Result<Active, TokenError>)
    ensures
        r is Ok <==> (live && effective is Ok && !effective->Ok_0@.is_empty()),
        r is Err ==> r == Err::<Active, TokenError>(TokenError::InvalidToken),
        r matches Ok(a) ==> {
            &&& a.credential == grant.credential
            &&& a.subject == grant.subject
            &&& a.resource == grant.resource
            &&& a.capabilities@ == effective->Ok_0@
            &&& a.issued == grant.valid_from
            &&& a.expires == grant.expires_at
        },
{
    if !live {
        return Err(TokenError::InvalidToken);
    }
    let capabilities = match effective {
        Ok(c) => c,
        Err(_) => return Err(TokenError::InvalidToken),
    };
    if capabilities.is_empty() {
        return Err(TokenError::InvalidToken);
    }
    Ok(Active {
        credential: grant.credential,
        subject: grant.subject,
        resource: grant.resource,
        capabilities,
        issued: grant.valid_from,
        expires: grant.expires_at,
    })
}

/// The stored expiry bounds of personal keys, in days: the default and the
/// maximum; a negative bound means a corrupt store.
pub fn policy_days(default_days: i16, maximum_days: i16) -> (r: Result<(u16, u16), KeyError>)
    ensures
        (default_days >= 0 && maximum_days >= 0) <==> r is Ok,
        r is Err ==> r == Err::<(u16, u16), KeyError>(KeyError::Unavailable),
        r matches Ok(d) ==> d.0 == default_days as u16 && d.1 == maximum_days as u16,
{
    if default_days < 0 || maximum_days < 0 {
        return Err(KeyError::Unavailable);
    }
    Ok((default_days as u16, maximum_days as u16))
}

} // verus!
