use darkhorse_store::migrations::{
    authority, baseline, completion, intent, project, Applied, Error, IntentRecord, ManifestEntry,
    MigrationKind, Step, CHECKSUM_LEN, LIMIT,
};

fn entry(version: i64, fill: u8) -> ManifestEntry {
    ManifestEntry { version, kind: MigrationKind::Simple, checksum: vec![fill; CHECKSUM_LEN], no_tx: false }
}

fn applied(version: i64, fill: u8) -> Applied {
    Applied { version, checksum: vec![fill; CHECKSUM_LEN], success: true }
}

fn manifest() -> Vec<ManifestEntry> {
    vec![entry(1, 1), entry(2, 2), entry(5, 3)]
}

#[test]
fn fresh_database_has_baseline_zero() {
    assert_eq!(baseline(&manifest(), &[]), Ok(0));
}

#[test]
fn applied_prefix_is_the_baseline() {
    assert_eq!(baseline(&manifest(), &[applied(1, 1), applied(2, 2)]), Ok(2));
    assert_eq!(baseline(&manifest(), &[applied(1, 1), applied(2, 2), applied(5, 3)]), Ok(3));
}

#[test]
fn baseline_advances_by_one_per_applied_migration() {
    let m = manifest();
    let mut history = vec![applied(1, 1)];
    assert_eq!(baseline(&m, &history), Ok(1));
    history.push(applied(2, 2));
    assert_eq!(baseline(&m, &history), Ok(2));
}

#[test]
fn modified_checksum_is_incompatible() {
    assert_eq!(baseline(&manifest(), &[applied(1, 9)]), Err(Error::Incompatible));
}

#[test]
fn failed_run_is_incompatible() {
    let mut a = applied(1, 1);
    a.success = false;
    assert_eq!(baseline(&manifest(), &[a]), Err(Error::Incompatible));
}

#[test]
fn other_version_is_incompatible() {
    assert_eq!(baseline(&manifest(), &[applied(3, 1)]), Err(Error::Incompatible));
}

#[test]
fn longer_history_than_manifest_is_incompatible() {
    let m = vec![entry(1, 1)];
    assert_eq!(baseline(&m, &[applied(1, 1), applied(2, 2)]), Err(Error::Incompatible));
}

#[test]
fn unsupported_manifests_are_incompatible() {
    assert_eq!(baseline(&[], &[]), Err(Error::Incompatible));
    assert_eq!(baseline(&[entry(2, 1), entry(2, 2)], &[]), Err(Error::Incompatible));
    assert_eq!(baseline(&[entry(3, 1), entry(2, 2)], &[]), Err(Error::Incompatible));
    assert_eq!(baseline(&[entry(0, 1)], &[]), Err(Error::Incompatible));
    let mut no_tx = entry(1, 1);
    no_tx.no_tx = true;
    assert_eq!(baseline(&[no_tx], &[]), Err(Error::Incompatible));
    let mut down = entry(1, 1);
    down.kind = MigrationKind::ReversibleDown;
    assert_eq!(baseline(&[down], &[]), Err(Error::Incompatible));
    let mut short = entry(1, 1);
    short.checksum = vec![1; 32];
    assert_eq!(baseline(&[short], &[]), Err(Error::Incompatible));
    let mut up = entry(1, 1);
    up.kind = MigrationKind::ReversibleUp;
    assert_eq!(baseline(&[up], &[]), Ok(0));
}

#[test]
fn manifest_at_the_limit_is_accepted_and_beyond_refused() {
    let at: Vec<ManifestEntry> = (1..=LIMIT as i64).map(|v| entry(v, 7)).collect();
    assert_eq!(baseline(&at, &[]), Ok(0));
    let beyond: Vec<ManifestEntry> = (1..=LIMIT as i64 + 1).map(|v| entry(v, 7)).collect();
    assert_eq!(baseline(&beyond, &[]), Err(Error::Incompatible));
}

#[test]
fn only_down_migrations_are_down() {
    assert!(MigrationKind::ReversibleDown.is_down_migration());
    assert!(!MigrationKind::ReversibleUp.is_down_migration());
    assert!(!MigrationKind::Simple.is_down_migration());
}

#[test]
fn intent_marks_targets_below_the_baseline() {
    let m = manifest();
    let i = match intent(&m, 2) {
        Ok(i) => i,
        Err(e) => panic!("intent failed: {:?}", e),
    };
    assert_eq!(i.manifest_count, 3);
    assert_eq!(i.baseline_count, 2);
    assert_eq!(i.targets.len(), 3);
    let versions: Vec<i64> = i.targets.iter().map(|t| t.version).collect();
    assert_eq!(versions, vec![1, 2, 5]);
    let marks: Vec<bool> = i.targets.iter().map(|t| t.already_applied).collect();
    assert_eq!(marks, vec![true, true, false]);
    assert_eq!(i.targets[2].checksum, vec![3; CHECKSUM_LEN]);
}

#[test]
fn completion_records_exactly_one_row() {
    assert_eq!(completion(1), Ok(()));
    assert_eq!(completion(0), Err(Error::Incompatible));
    assert_eq!(completion(2), Err(Error::Incompatible));
}

fn step(version: i64) -> Step {
    Step { version, checksum: "ab".to_string(), already_applied: false, completed_ms: None, current_matches: true }
}

fn record(count: i32) -> IntentRecord {
    IntentRecord {
        database_role: "owner".to_string(),
        prepared_ms: 10,
        manifest_count: count,
        completed_ms: Some(20),
        database_ms: 30,
    }
}

#[test]
fn inspection_keeps_the_intent_and_steps() {
    let inspection = match project(record(2), vec![step(1), step(2)]) {
        Ok(i) => i,
        Err(e) => panic!("projection failed: {:?}", e),
    };
    assert_eq!(inspection.database_role, "owner");
    assert_eq!(inspection.prepared_ms, 10);
    assert_eq!(inspection.completed_ms, Some(20));
    assert_eq!(inspection.database_ms, 30);
    assert_eq!(inspection.steps.len(), 2);
    assert_eq!(inspection.steps[1].version, 2);
}

#[test]
fn inconsistent_inspections_are_incompatible() {
    assert!(matches!(project(record(0), vec![]), Err(Error::Incompatible)));
    assert!(matches!(project(record(3), vec![step(1), step(2)]), Err(Error::Incompatible)));
    assert!(matches!(project(record(-1), vec![step(1)]), Err(Error::Incompatible)));
}

#[test]
fn migrations_need_the_database_owner() {
    assert_eq!(authority(true), Ok(()));
    assert_eq!(authority(false), Err(Error::Unavailable));
}

#[test]
fn driver_and_migrator_failures_are_unavailable() {
    assert_eq!(Error::from(sqlx::Error::RowNotFound), Error::Unavailable);
    assert_eq!(Error::from(sqlx::migrate::MigrateError::VersionMissing(3)), Error::Unavailable);
}
