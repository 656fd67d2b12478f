use darkhorse_store::catalog::{
    application_ids, apply_steps, audit_values, bindings_query, missing_capability, write_sql, ApplicationRecord, Plan, Step, creation_plan, detail_query, exists_statement, grants_query,
    link, link_plan, needs_identifier, number, page, predicate, references, retirement_plan,
    statement, target_id, within_bound, write_statement, writes, CapabilitySummary, Change,
    Effect, Item, List, Permission, Query, Reference, RoleSummary, Target, Write,
    BINDINGS_LIMIT, GRANTS_LIMIT,
};
use darkhorse_store::registration::RegistrationError as Error;

fn query(active: Option<bool>) -> Query {
    Query { after: None, search: "ab".to_string(), active, limit: 10 }
}

#[test]
fn listing_statements_bind_every_user_value() {
    let (sql, app) = statement(List::Clients(7), &query(Some(true))).expect("clients filter on activity");
    assert_eq!(app, Some(7));
    assert_eq!(
        sql,
        "SELECT * FROM (SELECT a.id,a.application_id,a.name,a.active,a.revision FROM oauth_clients a WHERE a.application_id=$4) a WHERE ($1::uuid IS NULL OR a.id>$1) AND lower(a.name) LIKE lower($2) ESCAPE '\\' AND ($3::boolean IS NULL OR a.active=$3) ORDER BY a.id LIMIT $5"
    );
    let other = statement(List::Clients(7), &Query { after: Some(3), search: "'; DROP".to_string(), active: None, limit: 2 })
        .expect("same listing");
    assert_eq!(other.0, sql);
}

#[test]
fn listing_scopes_follow_the_target() {
    assert_eq!(statement(List::Applications, &query(None)).map(|s| s.1), Ok(None));
    assert_eq!(statement(List::Capabilities(None), &query(None)).map(|s| s.1), Ok(None));
    assert_eq!(statement(List::Capabilities(Some(4)), &query(Some(false))).map(|s| s.1), Ok(Some(4)));
    assert_eq!(statement(List::Roles(Some(5)), &query(None)).map(|s| s.1), Ok(Some(5)));
}

#[test]
fn activity_filter_is_invalid_without_activity() {
    assert_eq!(statement(List::Resources(1), &query(Some(true))).map(|s| s.1), Err(Error::Invalid));
    assert_eq!(statement(List::Scopes(1), &query(Some(false))).map(|s| s.1), Err(Error::Invalid));
    assert_eq!(statement(List::Roles(None), &query(Some(true))).map(|s| s.1), Err(Error::Invalid));
    assert!(statement(List::Resources(1), &query(None)).is_ok());
}

fn role(id: u128) -> Item {
    Item::Role(RoleSummary { id, name: format!("r{id}") })
}

#[test]
fn page_cuts_and_sets_the_cursor() {
    let p = page(vec![role(1), role(2), role(3)], 2, 9);
    assert_eq!(p.items.len(), 2);
    assert_eq!(p.next, Some(2));
    assert_eq!(p.policy_revision, 9);
    let last = page(vec![role(1), role(2)], 2, 9);
    assert_eq!(last.items.len(), 2);
    assert_eq!(last.next, None);
    let empty = page(vec![role(1)], 0, 1);
    assert_eq!(empty.items.len(), 0);
    assert_eq!(empty.next, None);
}

#[test]
fn items_are_identified() {
    let c = Item::Capability(CapabilitySummary { id: 11, key: "k".into(), meaning: "m".into(), retired: false });
    assert_eq!(c.id(), 11);
    assert_eq!(role(12).id(), 12);
}

#[test]
fn targets_name_their_entry() {
    assert_eq!(target_id(Target::Capability(1)), 1);
    assert_eq!(target_id(Target::Role(2)), 2);
    assert_eq!(target_id(Target::Resource(9, 3)), 3);
    assert_eq!(target_id(Target::Scope(9, 8, 4)), 4);
}

#[test]
fn audit_values_of_changes() {
    let definition = Permission { key: "k".into(), meaning: "m".into() };
    assert_eq!(
        audit_values(&Change::CreateCapability { definition, application: Some(3) }),
        ("capability_created", Some(3), None)
    );
    assert_eq!(audit_values(&Change::RetireCapability(1)), ("capability_retired", None, None));
    assert_eq!(
        audit_values(&Change::CreateRole { name: "n".into(), application: None }),
        ("role_created", None, None)
    );
    assert_eq!(
        audit_values(&Change::CapabilityBinding { application: 1, capability: 2, bound: false }),
        ("capability_unbound", Some(1), None)
    );
    assert_eq!(
        audit_values(&Change::RoleBinding { application: 1, role: 2, bound: true }),
        ("role_bound", Some(1), None)
    );
    assert_eq!(
        audit_values(&Change::RoleCapability { role: 1, capability: 2, granted: true }),
        ("role_capability_granted", None, Some(2))
    );
    assert_eq!(
        audit_values(&Change::ResourceCapability { application: 1, resource: 2, capability: 3, exposed: false }),
        ("resource_capability_removed", Some(1), Some(3))
    );
    assert_eq!(
        audit_values(&Change::ScopeCapability { application: 1, resource: 2, scope: 3, capability: 4, included: true }),
        ("scope_capability_included", Some(1), Some(4))
    );
}

#[test]
fn scope_links_bind_four_columns() {
    let change = Change::ScopeCapability { application: 1, resource: 2, scope: 3, capability: 4, included: true };
    let (target, l) = link(&change).expect("a link change");
    assert_eq!(target, Target::Scope(1, 2, 3));
    assert_eq!(l.table, "scope_capabilities");
    assert_eq!(l.columns, vec!["application_id", "resource_id", "scope_id", "capability_id"]);
    assert_eq!(l.values, vec![1, 2, 3, 4]);
    assert!(l.insert);
    assert_eq!(l.columns.len(), l.values.len());
    assert_eq!(
        predicate(&l),
        "application_id=$1 AND resource_id=$2 AND scope_id=$3 AND capability_id=$4"
    );
    assert_eq!(
        exists_statement(&l),
        "SELECT EXISTS(SELECT 1 FROM scope_capabilities WHERE application_id=$1 AND resource_id=$2 AND scope_id=$3 AND capability_id=$4)"
    );
    assert_eq!(
        write_statement(&l),
        "INSERT INTO scope_capabilities(application_id,resource_id,scope_id,capability_id) VALUES($1,$2,$3,$4)"
    );
}

#[test]
fn removals_delete_by_key() {
    let change = Change::RoleCapability { role: 5, capability: 6, granted: false };
    let (target, l) = link(&change).expect("a link change");
    assert_eq!(target, Target::Role(5));
    assert_eq!(l.values, vec![5, 6]);
    assert_eq!(write_statement(&l), "DELETE FROM role_capabilities WHERE role_id=$1 AND capability_id=$2");
    let (target, l) = link(&Change::CapabilityBinding { application: 1, capability: 2, bound: true }).expect("link");
    assert_eq!(target, Target::Capability(2));
    assert_eq!(write_statement(&l), "INSERT INTO capability_applications(application_id,capability_id) VALUES($1,$2)");
    let (target, l) = link(&Change::ResourceCapability { application: 1, resource: 2, capability: 3, exposed: false }).expect("link");
    assert_eq!(target, Target::Resource(1, 2));
    assert_eq!(
        write_statement(&l),
        "DELETE FROM resource_capabilities WHERE application_id=$1 AND resource_id=$2 AND capability_id=$3"
    );
}

#[test]
fn creations_are_not_links() {
    assert!(matches!(link(&Change::RetireCapability(1)), Err(Error::Invalid)));
    assert!(matches!(link(&Change::CreateRole { name: "a".into(), application: None }), Err(Error::Invalid)));
    assert!(matches!(references(&Change::RetireCapability(1)), Err(Error::Invalid)));
}

#[test]
fn references_of_link_changes() {
    assert_eq!(
        references(&Change::CapabilityBinding { application: 1, capability: 2, bound: false }),
        Ok(vec![Reference::Application(1), Reference::Capability { id: 2, grants: false }])
    );
    assert_eq!(
        references(&Change::RoleBinding { application: 1, role: 2, bound: true }),
        Ok(vec![Reference::Application(1), Reference::GrantsBound { application: 1 }])
    );
    assert_eq!(
        references(&Change::RoleBinding { application: 1, role: 2, bound: false }),
        Ok(vec![Reference::Application(1)])
    );
    assert_eq!(
        references(&Change::RoleCapability { role: 1, capability: 2, granted: true }),
        Ok(vec![Reference::Capability { id: 2, grants: true }, Reference::RoleBindingSafe { capability: 2 }])
    );
    assert_eq!(
        references(&Change::ResourceCapability { application: 1, resource: 2, capability: 3, exposed: true }),
        Ok(vec![
            Reference::Capability { id: 3, grants: true },
            Reference::ApplicationBindingSafe { application: 1, capability: 3 }
        ])
    );
    assert_eq!(
        references(&Change::ScopeCapability { application: 1, resource: 2, scope: 3, capability: 4, included: true }),
        Ok(vec![
            Reference::Capability { id: 4, grants: true },
            Reference::Exposed { application: 1, resource: 2, capability: 4 }
        ])
    );
    assert_eq!(
        references(&Change::ScopeCapability { application: 1, resource: 2, scope: 3, capability: 4, included: false }),
        Ok(vec![Reference::Capability { id: 4, grants: false }])
    );
}

#[test]
fn detail_queries() {
    let q = detail_query(Target::Scope(1, 2, 3));
    assert_eq!(q.sql, "SELECT * FROM resource_scopes WHERE id=$1 AND application_id=$2 AND resource_id=$3");
    assert_eq!((q.id, q.application, q.resource, q.kind), (3, Some(1), Some(2), List::Scopes(1)));
    let q = detail_query(Target::Capability(5));
    assert_eq!((q.id, q.application, q.resource, q.kind), (5, None, None, List::Capabilities(None)));
    let q = detail_query(Target::Resource(7, 8));
    assert_eq!((q.id, q.application, q.resource, q.kind), (8, Some(7), None, List::Resources(7)));
    assert_eq!(detail_query(Target::Role(4)).kind, List::Roles(None));
}

#[test]
fn view_queries() {
    let b = bindings_query(Target::Role(1)).expect("roles have bindings");
    assert!(b.ends_with(" JOIN role_applications b ON b.application_id=a.id WHERE b.role_id=$1 ORDER BY a.id LIMIT 1001"));
    assert!(bindings_query(Target::Resource(1, 2)).is_none());
    assert_eq!(
        grants_query(Target::Scope(1, 2, 3)),
        Some("SELECT c.id,c.permission_key AS name,c.meaning,NOT c.retired AS active FROM capabilities c JOIN scope_capabilities g ON g.capability_id=c.id WHERE g.scope_id=$1 ORDER BY c.id LIMIT 257".to_string())
    );
    assert!(grants_query(Target::Capability(1)).is_none());
}

#[test]
fn bounded_reads() {
    assert_eq!(within_bound(BINDINGS_LIMIT, BINDINGS_LIMIT), Ok(()));
    assert_eq!(within_bound(GRANTS_LIMIT + 1, GRANTS_LIMIT), Err(Error::Unavailable));
    assert_eq!(number(0), Ok(0));
    assert_eq!(number(42), Ok(42));
    assert_eq!(number(-1), Err(Error::Unavailable));
}

#[test]
fn creation_plans_need_exactly_their_identifier() {
    let create = Change::CreateRole { name: "editor".into(), application: Some(4) };
    assert!(needs_identifier(&create));
    assert!(!needs_identifier(&Change::RetireCapability(1)));
    match creation_plan(&create, Some(77)) {
        Ok(Some(plan)) => {
            assert_eq!(plan.target, Target::Role(77));
            assert!(matches!(plan.effect, Some(Effect::Role(ref n, Some(4))) if n == "editor"));
        }
        _ => panic!("a creation is planned"),
    }
    assert!(matches!(creation_plan(&create, None), Err(Error::Invalid)));
    assert!(matches!(creation_plan(&Change::RetireCapability(1), Some(2)), Err(Error::Invalid)));
    assert!(matches!(creation_plan(&Change::RetireCapability(1), None), Ok(None)));
}

#[test]
fn retirement_and_link_plans_skip_no_ops() {
    assert!(retirement_plan(3, true).effect.is_none());
    assert!(matches!(retirement_plan(3, false).effect, Some(Effect::Retire)));
    assert_eq!(retirement_plan(3, false).target, Target::Capability(3));
    let (target, l) = link(&Change::RoleBinding { application: 1, role: 2, bound: true }).expect("link");
    assert!(link_plan(target, l.clone(), true).effect.is_none());
    assert!(matches!(link_plan(target, l, false).effect, Some(Effect::Link(_))));
}

#[test]
fn writes_of_effects() {
    let definition = Permission { key: "read".into(), meaning: "Read".into() };
    let w = writes(Target::Capability(9), Effect::Capability(definition, Some(2))).expect("fits");
    assert_eq!(w.len(), 2);
    assert!(matches!(&w[0], Write::InsertCapability { id: 9, definition } if definition.key == "read"));
    match &w[1] {
        Write::Link(l) => {
            assert_eq!(l.table, "capability_applications");
            assert_eq!(l.values, vec![2, 9]);
            assert!(l.insert);
        }
        _ => panic!("the binding follows the capability"),
    }
    let w = writes(Target::Role(5), Effect::Role("r".into(), None)).expect("fits");
    assert_eq!(w.len(), 1);
    let w = writes(Target::Capability(5), Effect::Retire).expect("fits");
    assert!(matches!(w[..], [Write::RetireCapability(5)]));
    assert!(matches!(writes(Target::Role(5), Effect::Retire), Err(Error::Invalid)));
    assert!(matches!(
        writes(Target::Capability(5), Effect::Role("r".into(), None)),
        Err(Error::Invalid)
    ));
}

#[test]
fn reversing_a_change_targets_the_same_row() {
    let bind = Change::RoleBinding { application: 1, role: 2, bound: true };
    let unbind = Change::RoleBinding { application: 1, role: 2, bound: false };
    let (t1, l1) = link(&bind).expect("link");
    let (t2, l2) = link(&unbind).expect("link");
    assert_eq!(t1, t2);
    assert_eq!((l1.table, l1.columns.clone(), l1.values.clone()), (l2.table, l2.columns.clone(), l2.values.clone()));
    assert!(l1.insert && !l2.insert);
    assert_eq!(exists_statement(&l1), exists_statement(&l2));
}

#[test]
fn keyset_pages_continue_after_the_cursor() {
    let all: Vec<u128> = vec![2, 5, 9, 14, 20];
    let first = page(all.iter().map(|id| role(*id)).take(3).collect(), 2, 0);
    let cursor = first.next.expect("more entries");
    assert_eq!(cursor, 5);
    let rest: Vec<Item> = all.iter().filter(|id| **id > cursor).map(|id| role(*id)).collect();
    let second = page(rest, 2, 0);
    let seen: Vec<u128> = first.items.iter().chain(second.items.iter()).map(|i| i.id()).collect();
    assert_eq!(seen, vec![2, 5, 9, 14]);
    assert_eq!(second.next, Some(14));
}

#[test]
fn retiring_twice_writes_once() {
    let first = retirement_plan(3, false);
    let written = writes(first.target, first.effect.expect("a retirement")).expect("fits");
    let retired = written.iter().any(|w| matches!(w, Write::RetireCapability(3)));
    assert!(retired);
    assert!(retirement_plan(3, retired).effect.is_none());
}

fn every_kind_of_change() -> Vec<Change> {
    let definition = Permission { key: "k".into(), meaning: "m".into() };
    let mut out = vec![
        Change::CreateCapability { definition, application: None },
        Change::RetireCapability(1),
        Change::CreateRole { name: "n".into(), application: Some(2) },
    ];
    for flag in [true, false] {
        out.push(Change::CapabilityBinding { application: 1, capability: 2, bound: flag });
        out.push(Change::RoleBinding { application: 1, role: 2, bound: flag });
        out.push(Change::RoleCapability { role: 1, capability: 2, granted: flag });
        out.push(Change::ResourceCapability { application: 1, resource: 2, capability: 3, exposed: flag });
        out.push(Change::ScopeCapability { application: 1, resource: 2, scope: 3, capability: 4, included: flag });
    }
    out
}

#[test]
fn each_kind_of_change_has_its_own_audit_event() {
    let changes = every_kind_of_change();
    let events: std::collections::BTreeSet<&str> = changes.iter().map(|c| audit_values(c).0).collect();
    assert_eq!(changes.len(), 13);
    assert_eq!(events.len(), 13);
    let a = audit_values(&Change::RoleCapability { role: 1, capability: 2, granted: true });
    let b = audit_values(&Change::RoleCapability { role: 8, capability: 9, granted: true });
    assert_eq!(a.0, b.0);
    for c in &changes {
        let (_, application, related) = audit_values(c);
        let relates = matches!(
            c,
            Change::RoleCapability { .. } | Change::ResourceCapability { .. } | Change::ScopeCapability { .. }
        );
        assert_eq!(related.is_some(), relates);
        if matches!(c, Change::RetireCapability(_) | Change::RoleCapability { .. }) {
            assert_eq!(application, None);
        }
    }
}

fn application(id: u128) -> ApplicationRecord {
    ApplicationRecord { id, name: "a".into(), owner: 1, owner_email: "o@example.test".into(), active: true, revision: 0 }
}

#[test]
fn application_ids_collect_the_listed_applications() {
    let ids = application_ids(&[application(5), application(3), application(5)]);
    assert_eq!(ids.into_iter().collect::<Vec<_>>(), vec![3, 5]);
    assert!(application_ids(&[]).is_empty());
}

#[test]
fn a_scope_capability_is_missing_unless_its_resource_exposes_it() {
    let exposed = vec![
        CapabilitySummary { id: 4, key: "a".into(), meaning: "m".into(), retired: false },
        CapabilitySummary { id: 6, key: "b".into(), meaning: "m".into(), retired: false },
    ];
    assert!(!missing_capability(&exposed, 6));
    assert!(missing_capability(&exposed, 5));
    assert!(missing_capability(&[], 6));
}

#[test]
fn a_plan_with_nothing_to_write_is_not_audited() {
    let change = Change::RetireCapability(7);
    let steps = apply_steps(retirement_plan(7, true), &change).expect("a valid plan");
    assert!(steps.is_empty());
    let steps = apply_steps(retirement_plan(7, false), &change).expect("a valid plan");
    assert_eq!(steps.len(), 2);
    assert!(matches!(steps[0], Step::Write(Write::RetireCapability(7))));
    assert!(matches!(
        steps[1],
        Step::Audit { event: "capability_retired", target: 7, application: None, related: None }
    ));
    let bound = Change::CapabilityBinding { application: 1, capability: 2, bound: true };
    let (target, l) = link(&bound).expect("a link change");
    let steps = apply_steps(link_plan(target, l, false), &bound).expect("a valid plan");
    assert_eq!(steps.len(), 2);
    assert!(matches!(&steps[0], Step::Write(Write::Link(l)) if l.insert && l.values == vec![1, 2]));
    assert!(matches!(steps[1], Step::Audit { event: "capability_bound", target: 2, application: Some(1), related: None }));
    let (target, l) = link(&bound).expect("a link change");
    assert!(apply_steps(link_plan(target, l, true), &bound).expect("a valid plan").is_empty());
    let misfit = Plan { target: Target::Role(1), effect: Some(Effect::Retire) };
    assert!(matches!(apply_steps(misfit, &change), Err(Error::Invalid)));
}

#[test]
fn each_write_has_its_statement() {
    let definition = Permission { key: "k".into(), meaning: "m".into() };
    assert_eq!(
        write_sql(&Write::InsertCapability { id: 1, definition }),
        "INSERT INTO capabilities(id,permission_key,meaning) VALUES($1,$2,$3)"
    );
    assert_eq!(write_sql(&Write::InsertRole { id: 1, name: "r".into() }), "INSERT INTO roles(id,name) VALUES($1,$2)");
    assert_eq!(write_sql(&Write::RetireCapability(1)), "UPDATE capabilities SET retired=true WHERE id=$1");
    let (_, l) = link(&Change::RoleCapability { role: 5, capability: 6, granted: false }).expect("a link change");
    assert_eq!(write_sql(&Write::Link(l)), "DELETE FROM role_capabilities WHERE role_id=$1 AND capability_id=$2");
}
