//! Catalog administration: listing statements, paging, the link rows that
//! bind capabilities, roles, resources and scopes, the statements that read
//! and write them, the write plan of a change, and its audit vocabulary.
use vstd::prelude::*;
use crate::registration::RegistrationError as Error;
use crate::sql::{decimal, push_decimal};
use std::collections::BTreeSet;

verus! {

/// Joined columns of an application with its owner's e-mail address.
pub const APPLICATION: &'static str = "SELECT a.id,a.name,a.owner_id,p.email AS owner_email,a.active,a.revision FROM applications a JOIN principals p ON p.id=a.owner_id";

/// What a catalog listing enumerates; clients, resources and scopes always
/// belong to one application, capabilities and roles optionally.
#[derive(Debug, Clone, Copy, PartialEq, Eq, Structural)]
pub enum List {
    Applications,
    Clients(u128),
    Resources(u128),
    Scopes(u128),
    Capabilities(Option<u128>),
    Roles(Option<u128>),
}

/// A listing request: keyset cursor, name prefix, activity filter and page size.
#[derive(Debug, Clone)]
pub struct Query {
    pub after: Option<u128>,
    pub search: String,
    pub active: Option<bool>,
    pub limit: u16,
}

/// A catalog entry that can be viewed or changed.
#[derive(Debug, Clone, Copy, PartialEq, Eq, Structural)]
pub enum Target {
    Capability(u128),
    Role(u128),
    /// Application, resource.
    Resource(u128, u128),
    /// Application, resource, scope.
    Scope(u128, u128, u128),
}

/// A permission a capability grants: its key and what it means.
#[derive(Debug, Clone)]
pub struct Permission {
    pub key: String,
    pub meaning: String,
}

/// A change to the catalog.
#[derive(Debug, Clone)]
#[allow(inconsistent_fields)]
pub enum Change {
    CreateCapability { definition: Permission, application: Option<u128> },
    CreateRole { name: String, application: Option<u128> },
    RetireCapability(u128),
    CapabilityBinding { application: u128, capability: u128, bound: bool },
    RoleBinding { application: u128, role: u128, bound: bool },
    RoleCapability { role: u128, capability: u128, granted: bool },
    ResourceCapability { application: u128, resource: u128, capability: u128, exposed: bool },
    ScopeCapability { application: u128, resource: u128, scope: u128, capability: u128, included: bool },
}

/// A registered application with its owner.
#[derive(Debug, Clone)]
pub struct ApplicationRecord {
    pub id: u128,
    pub name: String,
    pub owner: u128,
    pub owner_email: String,
    pub active: bool,
    pub revision: u64,
}

/// A client of an application as listings show it.
#[derive(Debug, Clone)]
pub struct ClientSummary {
    pub id: u128,
    pub application: u128,
    pub name: String,
    pub active: bool,
    pub revision: u64,
}

/// A protected resource of an application and its token audience.
#[derive(Debug, Clone)]
pub struct ResourceRecord {
    pub id: u128,
    pub application: u128,
    pub name: String,
    pub audience: String,
}

/// A scope of a protected resource.
#[derive(Debug, Clone)]
pub struct ScopeRecord {
    pub id: u128,
    pub application: u128,
    pub resource: u128,
    pub name: String,
}

/// A capability: its permission key, what it means, and whether it is retired.
#[derive(Debug, Clone)]
pub struct CapabilitySummary {
    pub id: u128,
    pub key: String,
    pub meaning: String,
    pub retired: bool,
}

/// A role.
#[derive(Debug, Clone)]
pub struct RoleSummary {
    pub id: u128,
    pub name: String,
}

/// One entry of a catalog listing.
#[derive(Debug, Clone)]
pub enum Item {
    Application(ApplicationRecord),
    Client(ClientSummary),
    Resource(ResourceRecord),
    Scope(ScopeRecord),
    Capability(CapabilitySummary),
    Role(RoleSummary),
}

/// The identifier of a listed entry.
pub open spec fn item_id(item: Item) -> u128 {
    match item {
        Item::Application(r) => r.id,
        Item::Client(r) => r.id,
        Item::Resource(r) => r.id,
        Item::Scope(r) => r.id,
        Item::Capability(r) => r.id,
        Item::Role(r) => r.id,
    }
}

impl Item {
    /// The identifier of this entry, the listing's keyset cursor.
    pub fn id(&self) -> (r: u128)
        ensures
            r == item_id(*self),
    {
        match self {
            Item::Application(r) => r.id,
            Item::Client(r) => r.id,
            Item::Resource(r) => r.id,
            Item::Scope(r) => r.id,
            Item::Capability(r) => r.id,
            Item::Role(r) => r.id,
        }
    }
}

/// A page of a listing, with the cursor of the next page when there is one.
#[derive(Debug, Clone)]
pub struct Page {
    pub items: Vec<Item>,
    pub next: Option<u128>,
    pub policy_revision: u64,
}

/// The cursor after a page cut from `items` at `limit`: the last kept
/// entry, when more entries were fetched than the page holds.
pub open spec fn next_cursor(items: Seq<Item>, limit: int) -> Option<u128> {
    if items.len() > limit && limit > 0 {
        Some(item_id(items[limit - 1]))
    } else {
        None
    }
}

/// Cuts a fetched listing (fetched one longer than the page) to `limit`
/// entries and sets the next cursor.
pub fn page(items: Vec<Item>, limit: usize, policy_revision: u64) -> (r: Page)
    ensures
        r.items@ == (if items@.len() > limit { items@.take(limit as int) } else { items@ }),
        r.next == next_cursor(items@, limit as int),
        r.policy_revision == policy_revision,
{
    let more = items.len() > limit;
    let mut items = items;
    items.truncate(limit);
    let next = if more && items.len() > 0 {
        Some(items[items.len() - 1].id())
    } else {
        None
    };
    Page { items, next, policy_revision }
}

/// Listed entries in increasing identifier order, as every listing
/// statement orders them.
pub open spec fn ordered_by_id(items: Seq<Item>) -> bool {
    forall|i: int, j: int| 0 <= i < j < items.len() ==> item_id(items[i]) < item_id(items[j])
}

/// Keyset paging loses and repeats nothing: when a listing fetched past
/// the page, every entry kept is at or before the next cursor and every
/// entry cut off is after it, so the next page (entries after the cursor)
/// starts exactly where this one ended.
pub proof fn law_cursor_splits_the_listing(items: Seq<Item>, limit: int)
    requires
        ordered_by_id(items),
        0 < limit < items.len(),
    ensures
        next_cursor(items, limit) == Some(item_id(items[limit - 1])),
        forall|k: int| 0 <= k < limit ==> item_id(#[trigger] items[k]) <= item_id(items[limit - 1]),
        forall|k: int| limit <= k < items.len() ==> item_id(#[trigger] items[k]) > item_id(items[limit - 1]),
{
}

/// Whether a listing of `target` cannot filter on activity.
pub open spec fn without_activity(target: List) -> bool {
    target is Resources || target is Scopes || target is Roles
}

/// The inner selection of a listing.
pub open spec fn list_select(target: List) -> Seq<char> {
    match target {
        List::Applications => APPLICATION@,
        List::Clients(_) => "SELECT a.id,a.application_id,a.name,a.active,a.revision FROM oauth_clients a"@,
        List::Resources(_) => "SELECT a.id,a.application_id,a.name,a.audience,true AS active FROM protected_resources a"@,
        List::Scopes(_) => "SELECT a.id,a.application_id,a.resource_id,a.name,true AS active FROM resource_scopes a"@,
        List::Capabilities(_) => "SELECT a.id,a.permission_key AS name,a.meaning,NOT a.retired AS active FROM capabilities a"@,
        List::Roles(_) => "SELECT a.id,a.name,true AS active FROM roles a"@,
    }
}

/// The application filter of a listing, on parameter `$4`.
pub open spec fn list_filter(target: List) -> Seq<char> {
    match target {
        List::Applications => "($4::uuid IS NULL)"@,
        List::Clients(_) => "a.application_id=$4"@,
        List::Resources(_) => "a.application_id=$4"@,
        List::Scopes(_) => "a.application_id=$4"@,
        List::Capabilities(_) => "($4::uuid IS NULL OR EXISTS(SELECT 1 FROM capability_applications b WHERE b.capability_id=a.id AND b.application_id=$4))"@,
        List::Roles(_) => "($4::uuid IS NULL OR EXISTS(SELECT 1 FROM role_applications b WHERE b.role_id=a.id AND b.application_id=$4))"@,
    }
}

/// The application a listing is scoped to, bound as `$4`.
pub open spec fn list_scope(target: List) -> Option<u128> {
    match target {
        List::Applications => None,
        List::Clients(app) => Some(app),
        List::Resources(app) => Some(app),
        List::Scopes(app) => Some(app),
        List::Capabilities(app) => app,
        List::Roles(app) => app,
    }
}

/// The complete listing statement: cursor `$1`, name pattern `$2`, activity
/// `$3`, application `$4`, row limit `$5`; every user value is a parameter.
pub open spec fn list_text(target: List) -> Seq<char> {
    "SELECT * FROM ("@ + list_select(target) + " WHERE "@ + list_filter(target)
        + ") a WHERE ($1::uuid IS NULL OR a.id>$1) AND lower(a.name) LIKE lower($2) ESCAPE '\\' AND ($3::boolean IS NULL OR a.active=$3) ORDER BY a.id LIMIT $5"@
}

fn select_text(target: List) -> (r: &'static str)
    ensures
        r@ == list_select(target),
{
    match target {
        List::Applications => APPLICATION,
        List::Clients(_) => "SELECT a.id,a.application_id,a.name,a.active,a.revision FROM oauth_clients a",
        List::Resources(_) => "SELECT a.id,a.application_id,a.name,a.audience,true AS active FROM protected_resources a",
        List::Scopes(_) => "SELECT a.id,a.application_id,a.resource_id,a.name,true AS active FROM resource_scopes a",
        List::Capabilities(_) => "SELECT a.id,a.permission_key AS name,a.meaning,NOT a.retired AS active FROM capabilities a",
        List::Roles(_) => "SELECT a.id,a.name,true AS active FROM roles a",
    }
}

fn filter_text(target: List) -> (r: &'static str)
    ensures
        r@ == list_filter(target),
{
    match target {
        List::Applications => "($4::uuid IS NULL)",
        List::Clients(_) => "a.application_id=$4",
        List::Resources(_) => "a.application_id=$4",
        List::Scopes(_) => "a.application_id=$4",
        List::Capabilities(_) => "($4::uuid IS NULL OR EXISTS(SELECT 1 FROM capability_applications b WHERE b.capability_id=a.id AND b.application_id=$4))",
        List::Roles(_) => "($4::uuid IS NULL OR EXISTS(SELECT 1 FROM role_applications b WHERE b.role_id=a.id AND b.application_id=$4))",
    }
}

/// The listing statement of `target` and the application it is scoped to;
/// `Invalid` when an activity filter is asked of resources, scopes or roles,
/// which have none.
pub fn statement(target: List, q: &Query) -> (r: Result<(String, Option<u128>), Error>)
    ensures
        (q.active is Some && without_activity(target)) <==> r is Err,
        r is Err ==> r == Err::<(String, Option<u128>), Error>(Error::Invalid),
        r matches Ok((sql, app)) ==> sql@ == list_text(target) && app == list_scope(target),
{
    let restricted = match target {
        List::Resources(_) | List::Scopes(_) | List::Roles(_) => true,
        _ => false,
    };
    if q.active.is_some() && restricted {
        return Err(Error::Invalid);
    }
    let app = match target {
        List::Applications => None,
        List::Clients(app) => Some(app),
        List::Resources(app) => Some(app),
        List::Scopes(app) => Some(app),
        List::Capabilities(app) => app,
        List::Roles(app) => app,
    };
    let mut sql = String::new();
    sql.append("SELECT * FROM (");
    sql.append(select_text(target));
    sql.append(" WHERE ");
    sql.append(filter_text(target));
    sql.append(") a WHERE ($1::uuid IS NULL OR a.id>$1) AND lower(a.name) LIKE lower($2) ESCAPE '\\' AND ($3::boolean IS NULL OR a.active=$3) ORDER BY a.id LIMIT $5");
    Ok((sql, app))
}

/// The identifier a change's audit row names as its target.
pub open spec fn target_key(target: Target) -> u128 {
    match target {
        Target::Capability(id) => id,
        Target::Role(id) => id,
        Target::Resource(_, id) => id,
        Target::Scope(_, _, id) => id,
    }
}

/// The identifier of the entry a target designates.
pub fn target_id(target: Target) -> (r: u128)
    ensures
        r == target_key(target),
{
    match target {
        Target::Capability(id) => id,
        Target::Role(id) => id,
        Target::Resource(_, id) => id,
        Target::Scope(_, _, id) => id,
    }
}

/// The audit event of a change.
pub open spec fn audit_event(change: Change) -> Seq<char> {
    match change {
        Change::CreateCapability { .. } => "capability_created"@,
        Change::RetireCapability(_) => "capability_retired"@,
        Change::CreateRole { .. } => "role_created"@,
        Change::CapabilityBinding { bound, .. } => if bound { "capability_bound"@ } else { "capability_unbound"@ },
        Change::RoleBinding { bound, .. } => if bound { "role_bound"@ } else { "role_unbound"@ },
        Change::RoleCapability { granted, .. } => if granted { "role_capability_granted"@ } else { "role_capability_removed"@ },
        Change::ResourceCapability { exposed, .. } => if exposed { "resource_capability_exposed"@ } else { "resource_capability_removed"@ },
        Change::ScopeCapability { included, .. } => if included { "scope_capability_included"@ } else { "scope_capability_removed"@ },
    }
}

/// The application an audit row of a change names.
pub open spec fn audit_application(change: Change) -> Option<u128> {
    match change {
        Change::CreateCapability { application, .. } => application,
        Change::RetireCapability(_) => None,
        Change::CreateRole { application, .. } => application,
        Change::CapabilityBinding { application, .. } => Some(application),
        Change::RoleBinding { application, .. } => Some(application),
        Change::RoleCapability { .. } => None,
        Change::ResourceCapability { application, .. } => Some(application),
        Change::ScopeCapability { application, .. } => Some(application),
    }
}

/// The related capability an audit row of a change names.
pub open spec fn audit_related(change: Change) -> Option<u128> {
    match change {
        Change::RoleCapability { capability, .. } => Some(capability),
        Change::ResourceCapability { capability, .. } => Some(capability),
        Change::ScopeCapability { capability, .. } => Some(capability),
        _ => None,
    }
}

/// The event, application and related capability recorded for a change.
pub fn audit_values(change: &Change) -> (r: (&'static str, Option<u128>, Option<u128>))
    ensures
        r.0@ == audit_event(*change),
        r.1 == audit_application(*change),
        r.2 == audit_related(*change),
{
    match change {
        Change::CreateCapability { application, .. } => ("capability_created", *application, None),
        Change::RetireCapability(_) => ("capability_retired", None, None),
        Change::CreateRole { application, .. } => ("role_created", *application, None),
        Change::CapabilityBinding { application, bound, .. } => (
            if *bound { "capability_bound" } else { "capability_unbound" },
            Some(*application),
            None,
        ),
        Change::RoleBinding { application, bound, .. } => (
            if *bound { "role_bound" } else { "role_unbound" },
            Some(*application),
            None,
        ),
        Change::RoleCapability { capability, granted, .. } => (
            if *granted { "role_capability_granted" } else { "role_capability_removed" },
            None,
            Some(*capability),
        ),
        Change::ResourceCapability { application, capability, exposed, .. } => (
            if *exposed { "resource_capability_exposed" } else { "resource_capability_removed" },
            Some(*application),
            Some(*capability),
        ),
        Change::ScopeCapability { application, capability, included, .. } => (
            if *included { "scope_capability_included" } else { "scope_capability_removed" },
            Some(*application),
            Some(*capability),
        ),
    }
}


/// Whether two changes are of one kind: the same variant, and for a link
/// change the same direction (bound, granted, exposed or included).
pub open spec fn same_audit_kind(a: Change, b: Change) -> bool {
    match (a, b) {
        (Change::CreateCapability { .. }, Change::CreateCapability { .. }) => true,
        (Change::CreateRole { .. }, Change::CreateRole { .. }) => true,
        (Change::RetireCapability(_), Change::RetireCapability(_)) => true,
        (Change::CapabilityBinding { bound: x, .. }, Change::CapabilityBinding { bound: y, .. }) => x == y,
        (Change::RoleBinding { bound: x, .. }, Change::RoleBinding { bound: y, .. }) => x == y,
        (Change::RoleCapability { granted: x, .. }, Change::RoleCapability { granted: y, .. }) => x == y,
        (Change::ResourceCapability { exposed: x, .. }, Change::ResourceCapability { exposed: y, .. }) => x == y,
        (Change::ScopeCapability { included: x, .. }, Change::ScopeCapability { included: y, .. }) => x == y,
        _ => false,
    }
}

/// The audit vocabulary tells changes apart: two changes share an event
/// exactly when they are of one kind and direction. A related capability is
/// recorded exactly for the role, resource and scope capability changes, and
/// it is the capability the change names; retirements and role capability
/// changes name no application, binding, resource and scope changes name
/// theirs.
pub proof fn law_audit_events_tell_changes_apart(a: Change, b: Change)
    ensures
        audit_event(a) == audit_event(b) <==> same_audit_kind(a, b),
        audit_related(a) is Some <==> (a is RoleCapability || a is ResourceCapability || a is ScopeCapability),
        a matches Change::RoleCapability { capability, .. } ==> audit_related(a) == Some(capability),
        a matches Change::ResourceCapability { capability, .. } ==> audit_related(a) == Some(capability),
        a matches Change::ScopeCapability { capability, .. } ==> audit_related(a) == Some(capability),
        (a is RetireCapability || a is RoleCapability) ==> audit_application(a) is None,
        a matches Change::CapabilityBinding { application, .. } ==> audit_application(a) == Some(application),
        a matches Change::RoleBinding { application, .. } ==> audit_application(a) == Some(application),
        a matches Change::ResourceCapability { application, .. } ==> audit_application(a) == Some(application),
        a matches Change::ScopeCapability { application, .. } ==> audit_application(a) == Some(application),
{
    lemma_event_names_kind(a);
    lemma_event_names_kind(b);
}

/// The kind and direction of a change, numbered.
spec fn audit_kind(c: Change) -> int {
    match c {
        Change::CreateCapability { .. } => 0,
        Change::RetireCapability(_) => 1,
        Change::CreateRole { .. } => 2,
        Change::CapabilityBinding { bound, .. } => if bound { 3 } else { 4 },
        Change::RoleBinding { bound, .. } => if bound { 5 } else { 6 },
        Change::RoleCapability { granted, .. } => if granted { 7 } else { 8 },
        Change::ResourceCapability { exposed, .. } => if exposed { 9 } else { 10 },
        Change::ScopeCapability { included, .. } => if included { 11 } else { 12 },
    }
}

/// Reads the kind back from an event text by its length and one letter.
spec fn event_kind(e: Seq<char>) -> int {
    if e.len() == 18 {
        if e[11] == 'c' { 0 } else if e[11] == 'r' { 1 } else { 4 }
    } else if e.len() == 12 {
        if e[5] == 'c' { 2 } else { 6 }
    } else if e.len() == 16 {
        3
    } else if e.len() == 10 {
        5
    } else if e.len() == 23 {
        if e[16] == 'g' { 7 } else { 8 }
    } else if e.len() == 27 {
        if e[20] == 'e' { 9 } else { 10 }
    } else if e.len() == 25 {
        11
    } else {
        12
    }
}

proof fn lemma_event_names_kind(c: Change)
    ensures
        event_kind(audit_event(c)) == audit_kind(c),
        same_audit_kind(c, c),
{
    match c {
        Change::CreateCapability { .. } => reveal_strlit("capability_created"),
        Change::RetireCapability(_) => reveal_strlit("capability_retired"),
        Change::CreateRole { .. } => reveal_strlit("role_created"),
        Change::CapabilityBinding { bound, .. } => {
            reveal_strlit("capability_bound");
            reveal_strlit("capability_unbound");
        },
        Change::RoleBinding { bound, .. } => {
            reveal_strlit("role_bound");
            reveal_strlit("role_unbound");
        },
        Change::RoleCapability { granted, .. } => {
            reveal_strlit("role_capability_granted");
            reveal_strlit("role_capability_removed");
        },
        Change::ResourceCapability { exposed, .. } => {
            reveal_strlit("resource_capability_exposed");
            reveal_strlit("resource_capability_removed");
        },
        Change::ScopeCapability { included, .. } => {
            reveal_strlit("scope_capability_included");
            reveal_strlit("scope_capability_removed");
        },
    }
}

/// A row of one of the link tables, and whether the change inserts it
/// (`true`) or deletes it (`false`). `values[i]` binds `columns[i]`.
#[derive(Debug, Clone)]
pub struct Link {
    pub table: &'static str,
    pub columns: Vec<&'static str>,
    pub values: Vec<u128>,
    pub insert: bool,
}

/// The text of each column name.
pub open spec fn column_texts(columns: Seq<&'static str>) -> Seq<Seq<char>> {
    columns.map_values(|c: &'static str| c@)
}

/// Whether a change adds or removes a link row.
pub open spec fn is_link(change: Change) -> bool {
    ||| change is CapabilityBinding
    ||| change is RoleBinding
    ||| change is RoleCapability
    ||| change is ResourceCapability
    ||| change is ScopeCapability
}

/// The entry whose view shows the link a change touches.
pub open spec fn link_target(change: Change) -> Target {
    match change {
        Change::CapabilityBinding { capability, .. } => Target::Capability(capability),
        Change::RoleBinding { role, .. } => Target::Role(role),
        Change::RoleCapability { role, .. } => Target::Role(role),
        Change::ResourceCapability { application, resource, .. } => Target::Resource(application, resource),
        Change::ScopeCapability { application, resource, scope, .. } => Target::Scope(application, resource, scope),
        _ => Target::Capability(0),
    }
}

/// The link table a change touches.
pub open spec fn link_table(change: Change) -> Seq<char> {
    match change {
        Change::CapabilityBinding { .. } => "capability_applications"@,
        Change::RoleBinding { .. } => "role_applications"@,
        Change::RoleCapability { .. } => "role_capabilities"@,
        Change::ResourceCapability { .. } => "resource_capabilities"@,
        Change::ScopeCapability { .. } => "scope_capabilities"@,
        _ => Seq::empty(),
    }
}

/// The key columns of the link table a change touches.
pub open spec fn link_columns(change: Change) -> Seq<Seq<char>> {
    match change {
        Change::CapabilityBinding { .. } => seq!["application_id"@, "capability_id"@],
        Change::RoleBinding { .. } => seq!["application_id"@, "role_id"@],
        Change::RoleCapability { .. } => seq!["role_id"@, "capability_id"@],
        Change::ResourceCapability { .. } => seq!["application_id"@, "resource_id"@, "capability_id"@],
        Change::ScopeCapability { .. } => seq!["application_id"@, "resource_id"@, "scope_id"@, "capability_id"@],
        _ => Seq::empty(),
    }
}

/// The key values of the link row a change touches, in column order.
pub open spec fn link_values(change: Change) -> Seq<u128> {
    match change {
        Change::CapabilityBinding { application, capability, .. } => seq![application, capability],
        Change::RoleBinding { application, role, .. } => seq![application, role],
        Change::RoleCapability { role, capability, .. } => seq![role, capability],
        Change::ResourceCapability { application, resource, capability, .. } => seq![application, resource, capability],
        Change::ScopeCapability { application, resource, scope, capability, .. } => seq![application, resource, scope, capability],
        _ => Seq::empty(),
    }
}

/// Whether a change wants the link row present.
pub open spec fn link_insert(change: Change) -> bool {
    match change {
        Change::CapabilityBinding { bound, .. } => bound,
        Change::RoleBinding { bound, .. } => bound,
        Change::RoleCapability { granted, .. } => granted,
        Change::ResourceCapability { exposed, .. } => exposed,
        Change::ScopeCapability { included, .. } => included,
        _ => false,
    }
}

/// `link` describes exactly the row `change` touches.
pub open spec fn link_describes(link: Link, change: Change) -> bool {
    &&& link.table@ == link_table(change)
    &&& column_texts(link.columns@) == link_columns(change)
    &&& link.values@ == link_values(change)
    &&& link.insert == link_insert(change)
}

/// The target and link row of a binding change; `Invalid` for creations and
/// retirements, which touch no link table.
pub fn link(change: &Change) -> (r: Result<(Target, Link), Error>)
    ensures
        is_link(*change) <==> r is Ok,
        r is Err ==> r == Err::<(Target, Link), Error>(Error::Invalid),
        r matches Ok((target, l)) ==> target == link_target(*change) && link_describes(l, *change),
{
    let (target, table, columns, values, insert): (Target, &'static str, Vec<&'static str>, Vec<u128>, bool) = match change {
        Change::CapabilityBinding { application, capability, bound } => (
            Target::Capability(*capability),
            "capability_applications",
            vec!["application_id", "capability_id"],
            vec![*application, *capability],
            *bound,
        ),
        Change::RoleBinding { application, role, bound } => (
            Target::Role(*role),
            "role_applications",
            vec!["application_id", "role_id"],
            vec![*application, *role],
            *bound,
        ),
        Change::RoleCapability { role, capability, granted } => (
            Target::Role(*role),
            "role_capabilities",
            vec!["role_id", "capability_id"],
            vec![*role, *capability],
            *granted,
        ),
        Change::ResourceCapability { application, resource, capability, exposed } => (
            Target::Resource(*application, *resource),
            "resource_capabilities",
            vec!["application_id", "resource_id", "capability_id"],
            vec![*application, *resource, *capability],
            *exposed,
        ),
        Change::ScopeCapability { application, resource, scope, capability, included } => (
            Target::Scope(*application, *resource, *scope),
            "scope_capabilities",
            vec!["application_id", "resource_id", "scope_id", "capability_id"],
            vec![*application, *resource, *scope, *capability],
            *included,
        ),
        _ => return Err(Error::Invalid),
    };
    let l = Link { table, columns, values, insert };
    assert(column_texts(l.columns@) =~= link_columns(*change));
    assert(l.values@ =~= link_values(*change));
    Ok((target, l))
}

/// `column=$position` for the column at `index`.
pub open spec fn clause(column: Seq<char>, index: nat) -> Seq<char> {
    column + "=$"@ + decimal(index + 1)
}

/// The first `n` clauses joined by ` AND `.
pub open spec fn conjunction(columns: Seq<Seq<char>>, n: nat) -> Seq<char>
    decreases n,
{
    if n == 0 {
        Seq::empty()
    } else if n == 1 {
        clause(columns[0], 0)
    } else {
        conjunction(columns, (n - 1) as nat) + " AND "@ + clause(columns[n - 1], (n - 1) as nat)
    }
}

/// The first `n` columns joined by commas.
pub open spec fn column_list(columns: Seq<Seq<char>>, n: nat) -> Seq<char>
    decreases n,
{
    if n == 0 {
        Seq::empty()
    } else if n == 1 {
        columns[0]
    } else {
        column_list(columns, (n - 1) as nat) + ","@ + columns[n - 1]
    }
}

/// `$1,$2,...,$n`.
pub open spec fn placeholders(n: nat) -> Seq<char>
    decreases n,
{
    if n == 0 {
        Seq::empty()
    } else if n == 1 {
        "$"@ + decimal(1)
    } else {
        placeholders((n - 1) as nat) + ","@ + "$"@ + decimal(n)
    }
}

/// The key predicate of a link row: every column equal to its positional
/// parameter.
pub open spec fn predicate_text(link: Link) -> Seq<char> {
    conjunction(column_texts(link.columns@), link.columns@.len())
}

/// The statement asking whether a link row exists.
pub open spec fn exists_text(link: Link) -> Seq<char> {
    "SELECT EXISTS(SELECT 1 FROM "@ + link.table@ + " WHERE "@ + predicate_text(link) + ")"@
}

/// The statement writing a link: an insert of the row, or a delete by key.
pub open spec fn write_text(link: Link) -> Seq<char> {
    let n = link.columns@.len();
    if link.insert {
        "INSERT INTO "@ + link.table@ + "("@ + column_list(column_texts(link.columns@), n) + ") VALUES("@
            + placeholders(n) + ")"@
    } else {
        "DELETE FROM "@ + link.table@ + " WHERE "@ + predicate_text(link)
    }
}

/// Appends the key predicate of a link row to `out`.
fn push_predicate(out: &mut String, link: &Link)
    ensures
        final(out)@ == old(out)@ + predicate_text(*link),
{
    let ghost start = out@;
    let ghost cols = column_texts(link.columns@);
    let n = link.columns.len();
    let mut i: usize = 0;
    while i < n
        invariant
            n == link.columns@.len(),
            cols == column_texts(link.columns@),
            0 <= i <= n,
            out@ == start + conjunction(cols, i as nat),
        decreases n - i,
    {
        if i > 0 {
            out.append(" AND ");
        }
        out.append(link.columns[i]);
        out.append("=$");
        push_decimal(out, i + 1);
        proof {
            assert(cols[i as int] == link.columns@[i as int]@);
            if i == 0 {
                assert(out@ =~= start + conjunction(cols, 1));
            } else {
                assert(out@ =~= start + conjunction(cols, (i + 1) as nat));
            }
        }
        i += 1;
    }
}

/// The key predicate of a link row.
pub fn predicate(link: &Link) -> (r: String)
    ensures
        r@ == predicate_text(*link),
{
    let mut out = String::new();
    push_predicate(&mut out, link);
    assert(out@ =~= predicate_text(*link));
    out
}

/// The statement asking whether a link row exists.
pub fn exists_statement(link: &Link) -> (r: String)
    ensures
        r@ == exists_text(*link),
{
    let mut out = String::new();
    out.append("SELECT EXISTS(SELECT 1 FROM ");
    out.append(link.table);
    out.append(" WHERE ");
    push_predicate(&mut out, link);
    out.append(")");
    assert(out@ =~= exists_text(*link));
    out
}

/// The statement inserting or deleting a link row.
pub fn write_statement(link: &Link) -> (r: String)
    ensures
        r@ == write_text(*link),
{
    let mut out = String::new();
    if link.insert {
        let ghost cols = column_texts(link.columns@);
        let n = link.columns.len();
        out.append("INSERT INTO ");
        out.append(link.table);
        out.append("(");
        let ghost head = out@;
        let mut i: usize = 0;
        while i < n
            invariant
                n == link.columns@.len(),
                cols == column_texts(link.columns@),
                0 <= i <= n,
                out@ == head + column_list(cols, i as nat),
            decreases n - i,
        {
            if i > 0 {
                out.append(",");
            }
            out.append(link.columns[i]);
            proof {
                assert(cols[i as int] == link.columns@[i as int]@);
                if i == 0 {
                    assert(out@ =~= head + column_list(cols, 1));
                } else {
                    assert(out@ =~= head + column_list(cols, (i + 1) as nat));
                }
            }
            i += 1;
        }
        out.append(") VALUES(");
        let ghost middle = out@;
        let mut k: usize = 0;
        while k < n
            invariant
                n == link.columns@.len(),
                0 <= k <= n,
                out@ == middle + placeholders(k as nat),
            decreases n - k,
        {
            if k > 0 {
                out.append(",");
            }
            out.append("$");
            push_decimal(&mut out, k + 1);
            proof {
                if k == 0 {
                    assert(out@ =~= middle + placeholders(1));
                } else {
                    assert(out@ =~= middle + placeholders((k + 1) as nat));
                }
            }
            k += 1;
        }
        out.append(")");
        assert(out@ =~= write_text(*link));
    } else {
        out.append("DELETE FROM ");
        out.append(link.table);
        out.append(" WHERE ");
        push_predicate(&mut out, link);
        assert(out@ =~= write_text(*link));
    }
    out
}

/// Every key column of a link row has a value, and there are at most four,
/// so the statements bind exactly `$1..$n`.
pub proof fn law_link_binds_every_column(change: Change)
    requires
        is_link(change),
    ensures
        link_columns(change).len() == link_values(change).len(),
        2 <= link_values(change).len() <= 4,
{
}


/// The change that reverses a link change: the same row, wanted absent
/// where it was wanted present and the other way round.
pub open spec fn reversed(change: Change) -> Change {
    match change {
        Change::CapabilityBinding { application, capability, bound } =>
            Change::CapabilityBinding { application, capability, bound: !bound },
        Change::RoleBinding { application, role, bound } => Change::RoleBinding { application, role, bound: !bound },
        Change::RoleCapability { role, capability, granted } =>
            Change::RoleCapability { role, capability, granted: !granted },
        Change::ResourceCapability { application, resource, capability, exposed } =>
            Change::ResourceCapability { application, resource, capability, exposed: !exposed },
        Change::ScopeCapability { application, resource, scope, capability, included } =>
            Change::ScopeCapability { application, resource, scope, capability, included: !included },
        _ => change,
    }
}

/// Reversing a link change touches the very row the change touches, in the
/// same table and view, and asks for the opposite; reversing twice gives the
/// change back.
pub proof fn law_reversal_touches_the_same_row(change: Change)
    requires
        is_link(change),
    ensures
        is_link(reversed(change)),
        link_target(reversed(change)) == link_target(change),
        link_table(reversed(change)) == link_table(change),
        link_columns(reversed(change)) == link_columns(change),
        link_values(reversed(change)) == link_values(change),
        link_insert(reversed(change)) == !link_insert(change),
        reversed(reversed(change)) == change,
{
}

/// A lookup or rule a link change is held to before it is planned, in the
/// order they are checked. Each names the entries the check reads.
#[derive(Debug, Clone, Copy, PartialEq, Eq, Structural)]
pub enum Reference {
    /// The application exists.
    Application(u128),
    /// The capability exists, and is live when the change `grants` it.
    Capability { id: u128, grants: bool },
    /// Every capability the viewed role grants is bound to the application.
    GrantsBound { application: u128 },
    /// The capability's applications fit those of the viewed role.
    RoleBindingSafe { capability: u128 },
    /// The capability's applications admit the application.
    ApplicationBindingSafe { application: u128, capability: u128 },
    /// The resource exposes the capability.
    Exposed { application: u128, resource: u128, capability: u128 },
}

/// The checks of a link change, in order.
pub open spec fn references_of(change: Change) -> Seq<Reference> {
    match change {
        Change::CapabilityBinding { application, capability, bound } =>
            seq![Reference::Application(application), Reference::Capability { id: capability, grants: bound }],
        Change::RoleBinding { application, bound, .. } =>
            if bound {
                seq![Reference::Application(application), Reference::GrantsBound { application }]
            } else {
                seq![Reference::Application(application)]
            },
        Change::RoleCapability { capability, granted, .. } =>
            if granted {
                seq![Reference::Capability { id: capability, grants: true }, Reference::RoleBindingSafe { capability }]
            } else {
                seq![Reference::Capability { id: capability, grants: false }]
            },
        Change::ResourceCapability { application, capability, exposed, .. } =>
            if exposed {
                seq![Reference::Capability { id: capability, grants: true },
                    Reference::ApplicationBindingSafe { application, capability }]
            } else {
                seq![Reference::Capability { id: capability, grants: false }]
            },
        Change::ScopeCapability { application, resource, capability, included, .. } =>
            if included {
                seq![Reference::Capability { id: capability, grants: true },
                    Reference::Exposed { application, resource, capability }]
            } else {
                seq![Reference::Capability { id: capability, grants: false }]
            },
        _ => Seq::empty(),
    }
}

/// A link change that wants its row present checks that the capability it
/// names is live, and one that wants it absent checks only that the
/// capability exists: its checks include the capability with `grants` equal
/// to the change's bound, granted, exposed or included flag.
pub proof fn law_present_links_need_live_capabilities(change: Change)
    ensures
        change matches Change::CapabilityBinding { capability, bound, .. }
            ==> references_of(change).contains(Reference::Capability { id: capability, grants: bound }),
        change matches Change::RoleCapability { capability, granted, .. }
            ==> references_of(change).contains(Reference::Capability { id: capability, grants: granted }),
        change matches Change::ResourceCapability { capability, exposed, .. }
            ==> references_of(change).contains(Reference::Capability { id: capability, grants: exposed }),
        change matches Change::ScopeCapability { capability, included, .. }
            ==> references_of(change).contains(Reference::Capability { id: capability, grants: included }),
{
    let r = references_of(change);
    match change {
        Change::CapabilityBinding { capability, bound, .. } =>
            assert(r[1] == Reference::Capability { id: capability, grants: bound }),
        Change::RoleCapability { capability, granted, .. } =>
            assert(r[0] == Reference::Capability { id: capability, grants: granted }),
        Change::ResourceCapability { capability, exposed, .. } =>
            assert(r[0] == Reference::Capability { id: capability, grants: exposed }),
        Change::ScopeCapability { capability, included, .. } =>
            assert(r[0] == Reference::Capability { id: capability, grants: included }),
        _ => {},
    }
}

/// The checks a link change is held to before it is planned; `Invalid` for
/// creations and retirements, which are not link changes.
pub fn references(change: &Change) -> (r: Result<Vec<Reference>, Error>)
    ensures
        r is Err <==> !is_link(*change),
        r is Err ==> r == Err::<Vec<Reference>, Error>(Error::Invalid),
        r matches Ok(v) ==> v@ == references_of(*change),
{
    let mut out: Vec<Reference> = Vec::new();
    match change {
        Change::CapabilityBinding { application, capability, bound } => {
            out.push(Reference::Application(*application));
            out.push(Reference::Capability { id: *capability, grants: *bound });
        },
        Change::RoleBinding { application, bound, .. } => {
            out.push(Reference::Application(*application));
            if *bound {
                out.push(Reference::GrantsBound { application: *application });
            }
        },
        Change::RoleCapability { capability, granted, .. } => {
            out.push(Reference::Capability { id: *capability, grants: *granted });
            if *granted {
                out.push(Reference::RoleBindingSafe { capability: *capability });
            }
        },
        Change::ResourceCapability { application, capability, exposed, .. } => {
            out.push(Reference::Capability { id: *capability, grants: *exposed });
            if *exposed {
                out.push(Reference::ApplicationBindingSafe { application: *application, capability: *capability });
            }
        },
        Change::ScopeCapability { application, resource, capability, included, .. } => {
            out.push(Reference::Capability { id: *capability, grants: *included });
            if *included {
                out.push(Reference::Exposed { application: *application, resource: *resource, capability: *capability });
            }
        },
        _ => return Err(Error::Invalid),
    }
    assert(out@ =~= references_of(*change));
    Ok(out)
}

/// The ids of the applications a view lists.
pub open spec fn listed_applications(applications: Seq<ApplicationRecord>) -> Set<u128> {
    applications.map_values(|a: ApplicationRecord| a.id).to_set()
}

/// The set of the applications a view lists, as the role and application
/// binding checks compare them.
pub fn application_ids(applications: &[ApplicationRecord]) -> (r: BTreeSet<u128>)
    ensures
        r@ == listed_applications(applications@),
{
    let ghost ids = applications@.map_values(|a: ApplicationRecord| a.id);
    let mut set: BTreeSet<u128> = BTreeSet::new();
    let mut i: usize = 0;
    while i < applications.len()
        invariant
            0 <= i <= applications@.len(),
            ids == applications@.map_values(|a: ApplicationRecord| a.id),
            set@ == ids.subrange(0, i as int).to_set(),
        decreases applications@.len() - i,
    {
        set.insert(applications[i].id);
        assert(ids.subrange(0, i + 1) =~= ids.subrange(0, i as int).push(ids[i as int]));
        proof {
            ids.subrange(0, i as int).lemma_push_to_set_commute(ids[i as int]);
        }
        i += 1;
    }
    assert(ids.subrange(0, applications@.len() as int) =~= ids);
    set
}

/// Whether a scope's capability is missing from what its resource exposes:
/// none of the resource's capabilities is the one named.
pub fn missing_capability(exposed: &[CapabilitySummary], capability: u128) -> (r: bool)
    ensures
        r == !(exists|i: int| 0 <= i < exposed@.len() && exposed@[i].id == capability),
{
    let mut i: usize = 0;
    while i < exposed.len()
        invariant
            0 <= i <= exposed@.len(),
            forall|j: int| 0 <= j < i ==> exposed@[j].id != capability,
        decreases exposed@.len() - i,
    {
        if exposed[i].id == capability {
            return false;
        }
        i += 1;
    }
    true
}

/// Most applications a capability or role view lists.
pub const BINDINGS_LIMIT: usize = 1000;

/// Most capabilities a role, resource or scope view lists.
pub const GRANTS_LIMIT: usize = 256;

/// How one catalog entry is read: the statement, its three parameters (the
/// entry, its application, its resource) and how its row is decoded.
#[derive(Debug, Clone, Copy)]
pub struct DetailQuery {
    pub sql: &'static str,
    pub id: u128,
    pub application: Option<u128>,
    pub resource: Option<u128>,
    pub kind: List,
}

/// The statement reading one catalog entry.
pub open spec fn detail_text(target: Target) -> Seq<char> {
    match target {
        Target::Capability(_) => "SELECT id,permission_key AS name,meaning,NOT retired AS active FROM capabilities WHERE id=$1 AND $2::uuid IS NULL AND $3::uuid IS NULL"@,
        Target::Role(_) => "SELECT id,name FROM roles WHERE id=$1 AND $2::uuid IS NULL AND $3::uuid IS NULL"@,
        Target::Resource(_, _) => "SELECT * FROM protected_resources WHERE id=$1 AND application_id=$2 AND $3::uuid IS NULL"@,
        Target::Scope(_, _, _) => "SELECT * FROM resource_scopes WHERE id=$1 AND application_id=$2 AND resource_id=$3"@,
    }
}

/// The statement and parameters reading the entry `target` designates; the
/// row is decoded as an entry of the listing of its kind.
pub fn detail_query(target: Target) -> (r: DetailQuery)
    ensures
        r.sql@ == detail_text(target),
        r.id == target_key(target),
        r.application == (match target {
            Target::Resource(app, _) => Some(app),
            Target::Scope(app, _, _) => Some(app),
            _ => None::<u128>,
        }),
        r.resource == (match target {
            Target::Scope(_, res, _) => Some(res),
            _ => None::<u128>,
        }),
        r.kind == (match target {
            Target::Capability(_) => List::Capabilities(None),
            Target::Role(_) => List::Roles(None),
            Target::Resource(app, _) => List::Resources(app),
            Target::Scope(app, _, _) => List::Scopes(app),
        }),
{
    match target {
        Target::Capability(id) => DetailQuery {
            sql: "SELECT id,permission_key AS name,meaning,NOT retired AS active FROM capabilities WHERE id=$1 AND $2::uuid IS NULL AND $3::uuid IS NULL",
            id,
            application: None,
            resource: None,
            kind: List::Capabilities(None),
        },
        Target::Role(id) => DetailQuery {
            sql: "SELECT id,name FROM roles WHERE id=$1 AND $2::uuid IS NULL AND $3::uuid IS NULL",
            id,
            application: None,
            resource: None,
            kind: List::Roles(None),
        },
        Target::Resource(app, id) => DetailQuery {
            sql: "SELECT * FROM protected_resources WHERE id=$1 AND application_id=$2 AND $3::uuid IS NULL",
            id,
            application: Some(app),
            resource: None,
            kind: List::Resources(app),
        },
        Target::Scope(app, res, id) => DetailQuery {
            sql: "SELECT * FROM resource_scopes WHERE id=$1 AND application_id=$2 AND resource_id=$3",
            id,
            application: Some(app),
            resource: Some(res),
            kind: List::Scopes(app),
        },
    }
}

/// The statement listing the applications a capability or role is bound to,
/// fetching one row past the view's bound; none for resources and scopes.
pub open spec fn bindings_text(target: Target) -> Option<Seq<char>> {
    match target {
        Target::Capability(_) => Some(APPLICATION@ + " JOIN "@ + "capability_applications"@
            + " b ON b.application_id=a.id WHERE b."@ + "capability_id"@ + "=$1 ORDER BY a.id LIMIT 1001"@),
        Target::Role(_) => Some(APPLICATION@ + " JOIN "@ + "role_applications"@
            + " b ON b.application_id=a.id WHERE b."@ + "role_id"@ + "=$1 ORDER BY a.id LIMIT 1001"@),
        _ => None,
    }
}

/// The statement listing a view's application bindings, bound to the
/// target's identifier.
pub fn bindings_query(target: Target) -> (r: Option<String>)
    ensures
        match r {
            Some(sql) => bindings_text(target) == Some(sql@),
            None => bindings_text(target) is None,
        },
{
    let (table, column) = match target {
        Target::Capability(_) => ("capability_applications", "capability_id"),
        Target::Role(_) => ("role_applications", "role_id"),
        _ => return None,
    };
    let mut sql = String::new();
    sql.append(APPLICATION);
    sql.append(" JOIN ");
    sql.append(table);
    sql.append(" b ON b.application_id=a.id WHERE b.");
    sql.append(column);
    sql.append("=$1 ORDER BY a.id LIMIT 1001");
    assert(bindings_text(target) == Some(sql@));
    Some(sql)
}

/// The statement listing the capabilities granted to a role, exposed by a
/// resource or included in a scope, fetching one row past the view's bound;
/// none for capabilities.
pub open spec fn grants_text(target: Target) -> Option<Seq<char>> {
    let head = "SELECT c.id,c.permission_key AS name,c.meaning,NOT c.retired AS active FROM capabilities c JOIN "@;
    let tail = "=$1 ORDER BY c.id LIMIT 257"@;
    match target {
        Target::Role(_) => Some(head + "role_capabilities"@ + " g ON g.capability_id=c.id WHERE g."@ + "role_id"@ + tail),
        Target::Resource(_, _) => Some(head + "resource_capabilities"@ + " g ON g.capability_id=c.id WHERE g."@ + "resource_id"@ + tail),
        Target::Scope(_, _, _) => Some(head + "scope_capabilities"@ + " g ON g.capability_id=c.id WHERE g."@ + "scope_id"@ + tail),
        Target::Capability(_) => None,
    }
}

/// The statement listing a view's capability grants, bound to the target's
/// identifier.
pub fn grants_query(target: Target) -> (r: Option<String>)
    ensures
        match r {
            Some(sql) => grants_text(target) == Some(sql@),
            None => grants_text(target) is None,
        },
{
    let (table, key) = match target {
        Target::Role(_) => ("role_capabilities", "role_id"),
        Target::Resource(_, _) => ("resource_capabilities", "resource_id"),
        Target::Scope(_, _, _) => ("scope_capabilities", "scope_id"),
        Target::Capability(_) => return None,
    };
    let mut sql = String::new();
    sql.append("SELECT c.id,c.permission_key AS name,c.meaning,NOT c.retired AS active FROM capabilities c JOIN ");
    sql.append(table);
    sql.append(" g ON g.capability_id=c.id WHERE g.");
    sql.append(key);
    sql.append("=$1 ORDER BY c.id LIMIT 257");
    assert(grants_text(target) == Some(sql@));
    Some(sql)
}

/// A bounded read returned no more rows than its bound; otherwise the store
/// is treated as unavailable rather than truncating silently.
pub fn within_bound(rows: usize, bound: usize) -> (r: Result<(), Error>)
    ensures
        r == (if rows <= bound { Ok::<(), Error>(()) } else { Err(Error::Unavailable) }),
{
    if rows > bound {
        return Err(Error::Unavailable);
    }
    Ok(())
}

/// A non-negative database count; negative values mean a corrupt store.
pub fn number(value: i64) -> (r: Result<u64, Error>)
    ensures
        r == (if value >= 0 { Ok::<u64, Error>(value as u64) } else { Err(Error::Unavailable) }),
{
    if value < 0 {
        return Err(Error::Unavailable);
    }
    Ok(value as u64)
}

/// What a prepared change writes.
#[derive(Debug, Clone)]
pub enum Effect {
    /// A new capability, bound to an application when one is named.
    Capability(Permission, Option<u128>),
    /// A new role, bound to an application when one is named.
    Role(String, Option<u128>),
    /// The capability is retired.
    Retire,
    /// A link row is inserted or deleted.
    Link(Link),
}

/// A prepared change: its target and the write it still needs, none when the
/// catalog already is as asked.
#[derive(Debug, Clone)]
pub struct Plan {
    pub target: Target,
    pub effect: Option<Effect>,
}

/// Whether a change creates an entry and needs a fresh identifier.
pub open spec fn creates(change: Change) -> bool {
    change is CreateCapability || change is CreateRole
}

/// Whether a change creates an entry and needs a fresh identifier.
pub fn needs_identifier(change: &Change) -> (r: bool)
    ensures
        r == creates(*change),
{
    match change {
        Change::CreateCapability { .. } | Change::CreateRole { .. } => true,
        _ => false,
    }
}

/// The plan of a creation, named by its fresh identifier: `Invalid` when an
/// identifier is given to a change that creates nothing or missing for one
/// that does; `Ok(None)` for changes whose plan needs the catalog's state.
pub fn creation_plan(change: &Change, new_id: Option<u128>) -> (r: Result<Option<Plan>, Error>)
    ensures
        r is Err <==> creates(*change) != (new_id is Some),
        r is Err ==> r == Err::<Option<Plan>, Error>(Error::Invalid),
        r matches Ok(None) <==> (!creates(*change) && new_id is None),
        r matches Ok(Some(plan)) ==> match *change {
            Change::CreateCapability { definition, application } => {
                &&& plan.target == Target::Capability(new_id->Some_0)
                &&& plan.effect matches Some(Effect::Capability(d, app))
                &&& d.key@ == definition.key@ && d.meaning@ == definition.meaning@
                &&& app == application
            },
            Change::CreateRole { name, application } => {
                &&& plan.target == Target::Role(new_id->Some_0)
                &&& plan.effect matches Some(Effect::Role(n, app))
                &&& n@ == name@
                &&& app == application
            },
            _ => false,
        },
{
    if needs_identifier(change) != new_id.is_some() {
        return Err(Error::Invalid);
    }
    match change {
        Change::CreateCapability { definition, application } => {
            let id = match new_id {
                Some(id) => id,
                None => return Err(Error::Invalid),
            };
            let copy = Permission { key: definition.key.clone(), meaning: definition.meaning.clone() };
            Ok(Some(Plan { target: Target::Capability(id), effect: Some(Effect::Capability(copy, *application)) }))
        },
        Change::CreateRole { name, application } => {
            let id = match new_id {
                Some(id) => id,
                None => return Err(Error::Invalid),
            };
            Ok(Some(Plan { target: Target::Role(id), effect: Some(Effect::Role(name.clone(), *application)) }))
        },
        _ => Ok(None),
    }
}

/// The plan retiring a capability: nothing to write when it is retired already.
pub fn retirement_plan(id: u128, retired: bool) -> (r: Plan)
    ensures
        retirement_planned(r, id, retired),
{
    Plan { target: Target::Capability(id), effect: if retired { None } else { Some(Effect::Retire) } }
}

/// `plan` retires capability `id`, which is `retired` already or not:
/// nothing to write when it is, the retirement otherwise.
pub open spec fn retirement_planned(plan: Plan, id: u128, retired: bool) -> bool {
    &&& plan.target == Target::Capability(id)
    &&& (retired <==> plan.effect is None)
    &&& (!retired ==> plan.effect matches Some(Effect::Retire))
}

/// Whether capability `id` is retired after `written` was carried out on a
/// store where it was `retired` before.
pub open spec fn retired_after(retired: bool, written: Seq<Write>, id: u128) -> bool {
    retired || written.contains(Write::RetireCapability(id))
}

/// Retiring is idempotent: once a retirement plan's writes (those `writes`
/// gives for its effect, none without one) are carried out, the capability
/// is retired, and planning its retirement again writes nothing.
pub proof fn law_retirement_is_idempotent(id: u128, retired: bool, first: Plan, written: Seq<Write>, second: Plan)
    requires
        retirement_planned(first, id, retired),
        first.effect is None ==> written == Seq::<Write>::empty(),
        first.effect matches Some(Effect::Retire) ==> written == seq![Write::RetireCapability(target_key(first.target))],
        retirement_planned(second, id, retired_after(retired, written, id)),
    ensures
        retired_after(retired, written, id),
        second.effect is None,
        second.target == first.target,
{
    if !retired {
        assert(written[0] == Write::RetireCapability(id));
    }
}

/// The plan of a link change: nothing to write when the row already is
/// present (or absent) as asked.
pub fn link_plan(target: Target, link: Link, existing: bool) -> (r: Plan)
    ensures
        r.target == target,
        (existing == link.insert) <==> r.effect is None,
        existing != link.insert ==> r.effect == Some(Effect::Link(link)),
{
    let wanted = link.insert;
    Plan { target, effect: if existing != wanted { Some(Effect::Link(link)) } else { None } }
}

/// One write of a planned change.
#[derive(Debug, Clone)]
pub enum Write {
    InsertCapability { id: u128, definition: Permission },
    InsertRole { id: u128, name: String },
    RetireCapability(u128),
    Link(Link),
}

/// Whether an effect fits the kind of its target.
pub open spec fn fits(target: Target, effect: Effect) -> bool {
    match effect {
        Effect::Capability(..) => target is Capability,
        Effect::Role(..) => target is Role,
        Effect::Retire => target is Capability,
        Effect::Link(_) => true,
    }
}

/// `w` carries out `effect` on `target`, in order: the entry itself, then
/// its application binding when the effect names one.
pub open spec fn carries_out(target: Target, effect: Effect, w: Seq<Write>) -> bool {
    match effect {
        Effect::Capability(definition, app) => {
            &&& w.len() == (if app is Some { 2int } else { 1int })
            &&& w[0] == Write::InsertCapability { id: target_key(target), definition }
            &&& app matches Some(a) ==> w[1] matches Write::Link(l) && link_describes(l,
                Change::CapabilityBinding { application: a, capability: target_key(target), bound: true })
        },
        Effect::Role(name, app) => {
            &&& w.len() == (if app is Some { 2int } else { 1int })
            &&& w[0] == Write::InsertRole { id: target_key(target), name }
            &&& app matches Some(a) ==> w[1] matches Write::Link(l) && link_describes(l,
                Change::RoleBinding { application: a, role: target_key(target), bound: true })
        },
        Effect::Retire => w == seq![Write::RetireCapability(target_key(target))],
        Effect::Link(l) => w == seq![Write::Link(l)],
    }
}

/// The writes carrying out a planned effect on its target, in order: the
/// entry itself, then its application binding when the effect names one.
/// `Invalid` when the effect does not fit the target's kind.
pub fn writes(target: Target, effect: Effect) -> (r: Result<Vec<Write>, Error>)
    ensures
        r is Err <==> !fits(target, effect),
        r is Err ==> r == Err::<Vec<Write>, Error>(Error::Invalid),
        r matches Ok(w) ==> carries_out(target, effect, w@),
{
    match effect {
        Effect::Capability(definition, app) => {
            let id = match target {
                Target::Capability(id) => id,
                _ => return Err(Error::Invalid),
            };
            let mut out: Vec<Write> = Vec::new();
            out.push(Write::InsertCapability { id, definition });
            if let Some(application) = app {
                match link(&Change::CapabilityBinding { application, capability: id, bound: true }) {
                    Ok((_, l)) => out.push(Write::Link(l)),
                    Err(e) => return Err(e),
                }
            }
            Ok(out)
        },
        Effect::Role(name, app) => {
            let id = match target {
                Target::Role(id) => id,
                _ => return Err(Error::Invalid),
            };
            let mut out: Vec<Write> = Vec::new();
            out.push(Write::InsertRole { id, name });
            if let Some(application) = app {
                match link(&Change::RoleBinding { application, role: id, bound: true }) {
                    Ok((_, l)) => out.push(Write::Link(l)),
                    Err(e) => return Err(e),
                }
            }
            Ok(out)
        },
        Effect::Retire => {
            let id = match target {
                Target::Capability(id) => id,
                _ => return Err(Error::Invalid),
            };
            let mut out: Vec<Write> = Vec::new();
            out.push(Write::RetireCapability(id));
            assert(out@ =~= seq![Write::RetireCapability(target_key(target))]);
            Ok(out)
        },
        Effect::Link(l) => {
            let mut out: Vec<Write> = Vec::new();
            out.push(Write::Link(l));
            assert(out@ =~= seq![Write::Link(l)]);
            Ok(out)
        },
    }
}

/// The statement carrying out a write; its parameters are, in order, the
/// entry's identifier and fields, or the link's values.
pub open spec fn write_text_of(w: Write) -> Seq<char> {
    match w {
        Write::InsertCapability { .. } => "INSERT INTO capabilities(id,permission_key,meaning) VALUES($1,$2,$3)"@,
        Write::InsertRole { .. } => "INSERT INTO roles(id,name) VALUES($1,$2)"@,
        Write::RetireCapability(_) => "UPDATE capabilities SET retired=true WHERE id=$1"@,
        Write::Link(l) => write_text(l),
    }
}

/// The statement carrying out a write.
pub fn write_sql(w: &Write) -> (r: String)
    ensures
        r@ == write_text_of(*w),
{
    match w {
        Write::InsertCapability { .. } => {
            let mut out = String::new();
            out.append("INSERT INTO capabilities(id,permission_key,meaning) VALUES($1,$2,$3)");
            out
        },
        Write::InsertRole { .. } => {
            let mut out = String::new();
            out.append("INSERT INTO roles(id,name) VALUES($1,$2)");
            out
        },
        Write::RetireCapability(_) => {
            let mut out = String::new();
            out.append("UPDATE capabilities SET retired=true WHERE id=$1");
            out
        },
        Write::Link(l) => write_statement(l),
    }
}

/// Text `t` occurs in `s`.
pub open spec fn mentions(s: Seq<char>, t: Seq<char>) -> bool {
    exists|i: int, j: int| 0 <= i <= j <= s.len() && #[trigger] s.subrange(i, j) == t
}

/// A capability is active exactly when it is not retired: the capability
/// listing and a capability's detail both select, as their last column, the
/// negation of the `retired` flag that retiring a capability sets, so the
/// activity filter keeps live capabilities when asked for active ones.
pub proof fn law_capability_active_is_not_retired(application: Option<u128>, capability: u128)
    ensures
        mentions(list_select(List::Capabilities(application)), ",NOT a.retired AS active FROM capabilities a"@),
        mentions(detail_text(Target::Capability(capability)), ",NOT retired AS active FROM capabilities "@),
        mentions(write_text_of(Write::RetireCapability(capability)), "SET retired=true "@),
{
    let listing = list_select(List::Capabilities(application));
    reveal_strlit("SELECT a.id,a.permission_key AS name,a.meaning,NOT a.retired AS active FROM capabilities a");
    reveal_strlit(",NOT a.retired AS active FROM capabilities a");
    assert(listing.subrange(46int, 90int) =~= ",NOT a.retired AS active FROM capabilities a"@);
    let detail = detail_text(Target::Capability(capability));
    reveal_strlit("SELECT id,permission_key AS name,meaning,NOT retired AS active FROM capabilities WHERE id=$1 AND $2::uuid IS NULL AND $3::uuid IS NULL");
    reveal_strlit(",NOT retired AS active FROM capabilities ");
    assert(detail.subrange(40int, 81int) =~= ",NOT retired AS active FROM capabilities "@);
    let retire = write_text_of(Write::RetireCapability(capability));
    reveal_strlit("UPDATE capabilities SET retired=true WHERE id=$1");
    reveal_strlit("SET retired=true ");
    assert(retire.subrange(20int, 37int) =~= "SET retired=true "@);
}

/// One step of carrying out a plan inside its transaction: a write, or the
/// audit row of the change, naming its target.
#[derive(Debug, Clone)]
pub enum Step {
    Write(Write),
    Audit { event: &'static str, target: u128, application: Option<u128>, related: Option<u128> },
}

/// `step` is the audit row of `change` on `target`.
pub open spec fn audits(step: Step, change: Change, target: Target) -> bool {
    step matches Step::Audit { event, target: t, application, related } && {
        &&& event@ == audit_event(change)
        &&& t == target_key(target)
        &&& application == audit_application(change)
        &&& related == audit_related(change)
    }
}

/// The steps carrying out `plan` for `change`: the writes of its effect, then
/// one audit row. A plan with nothing to write carries out nothing and is
/// not audited; an effect that does not fit its target is `Invalid`, and
/// then nothing is carried out either.
pub fn apply_steps(plan: Plan, change: &Change) -> (r: Result<Vec<Step>, Error>)
    ensures
        plan.effect is None ==> (r matches Ok(s) && s@.len() == 0),
        r is Err <==> (plan.effect matches Some(e) && !fits(plan.target, e)),
        r is Err ==> r == Err::<Vec<Step>, Error>(Error::Invalid),
        r matches Ok(s) ==> (s@.len() == 0 <==> plan.effect is None),
        r matches Ok(s) ==> forall|i: int| 0 <= i < s@.len() - 1 ==> s@[i] is Write,
        r matches Ok(s) ==> (plan.effect matches Some(e) ==> {
            &&& audits(s@.last(), *change, plan.target)
            &&& exists|w: Seq<Write>| {
                &&& carries_out(plan.target, e, w)
                &&& s@.len() == w.len() + 1
                &&& forall|i: int| 0 <= i < w.len() ==> s@[i] == Step::Write(w[i])
            }
        }),
{
    let target = plan.target;
    let effect = match plan.effect {
        None => return Ok(Vec::new()),
        Some(e) => e,
    };
    let ghost e = effect;
    let mut written = match writes(target, effect) {
        Ok(w) => w,
        Err(err) => return Err(err),
    };
    let ghost all = written@;
    let mut steps: Vec<Step> = Vec::new();
    let mut k: usize = 0;
    while written.len() > 0
        invariant
            carries_out(target, e, all),
            k + written@.len() == all.len(),
            written@ == all.skip(k as int),
            steps@.len() == k,
            forall|i: int| 0 <= i < k ==> steps@[i] == Step::Write(all[i]),
        decreases written@.len(),
    {
        let w = written.remove(0);
        assert(w == all[k as int]);
        steps.push(Step::Write(w));
        assert(written@ =~= all.skip(k + 1));
        k += 1;
    }
    let (event, application, related) = audit_values(change);
    steps.push(Step::Audit { event, target: target_id(target), application, related });
    proof {
        assert(forall|i: int| 0 <= i < all.len() ==> steps@[i] == Step::Write(all[i]));
        assert(audits(steps@.last(), *change, target));
        assert(carries_out(target, e, all) && steps@.len() == all.len() + 1);
    }
    Ok(steps)
}

} // verus!
