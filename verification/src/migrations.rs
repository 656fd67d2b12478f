//! Migration manifests: compatibility of an already applied history with the
//! embedded manifest, the journal intent written before applying, and the
//! projection of a journal inspection.
use vstd::prelude::*;
use sqlx::Error as DriverError;
use sqlx::migrate::MigrateError;

verus! {

/// Largest manifest (and largest journal) the migration runner accepts.
pub const LIMIT: usize = 128;

/// Length in bytes of a migration checksum (SHA-384).
pub const CHECKSUM_LEN: usize = 48;

/// Why a migration operation could not be carried out.
#[derive(Debug, Clone, Copy, PartialEq, Eq, Structural)]
pub enum Error {
    /// The database history or journal does not fit the manifest.
    Incompatible,
    /// The database could not be reached or refused the work.
    Unavailable,
    /// The outcome of a commit is unknown.
    Uncertain,
}

#[verifier::external_type_specification]
#[verifier::external_body]
pub struct ExMigrateError(MigrateError);

/// A failure of the database driver leaves the operation unavailable.
impl From<DriverError> for Error {
    fn from(error: DriverError) -> (r: Error) {
        Error::Unavailable
    }
}

impl vstd::std_specs::convert::FromSpecImpl<DriverError> for Error {
    open spec fn obeys_from_spec() -> bool {
        true
    }

    open spec fn from_spec(error: DriverError) -> Error {
        Error::Unavailable
    }
}

/// A failure of the migrator leaves the operation unavailable.
impl From<MigrateError> for Error {
    fn from(error: MigrateError) -> (r: Error) {
        Error::Unavailable
    }
}

impl vstd::std_specs::convert::FromSpecImpl<MigrateError> for Error {
    open spec fn obeys_from_spec() -> bool {
        true
    }

    open spec fn from_spec(error: MigrateError) -> Error {
        Error::Unavailable
    }
}

/// Migrations run only as the database owner on a primary; anything else
/// leaves the operation unavailable.
pub fn authority(authorized: bool) -> (r: Result<(), Error>)
    ensures
        r == (if authorized { Ok::<(), Error>(()) } else { Err(Error::Unavailable) }),
{
    if authorized {
        Ok(())
    } else {
        Err(Error::Unavailable)
    }
}

/// The kind of a migration file, one for one with the migrator's kinds.
#[derive(Debug, Clone, Copy, PartialEq, Eq, Structural)]
pub enum MigrationKind {
    Simple,
    ReversibleUp,
    ReversibleDown,
}

impl MigrationKind {
    pub open spec fn spec_is_down_migration(&self) -> bool {
        *self is ReversibleDown
    }

    /// Whether this is the downgrade half of a reversible migration.
    #[verifier::when_used_as_spec(spec_is_down_migration)]
    pub fn is_down_migration(&self) -> (r: bool)
        ensures
            r == self.spec_is_down_migration(),
    {
        match self {
            MigrationKind::Simple => false,
            MigrationKind::ReversibleUp => false,
            MigrationKind::ReversibleDown => true,
        }
    }
}

/// One migration of the embedded manifest.
#[derive(Debug, Clone)]
pub struct ManifestEntry {
    pub version: i64,
    pub kind: MigrationKind,
    pub checksum: Vec<u8>,
    pub no_tx: bool,
}

/// One row of the database's own migration history.
#[derive(Debug, Clone, PartialEq, Eq)]
pub struct Applied {
    pub version: i64,
    pub checksum: Vec<u8>,
    pub success: bool,
}

/// A manifest entry the runner can apply inside its journal transaction.
pub open spec fn entry_supported(m: ManifestEntry) -> bool {
    &&& m.version > 0
    &&& !m.no_tx
    &&& !m.kind.spec_is_down_migration()
    &&& m.checksum@.len() == CHECKSUM_LEN
}

/// A manifest the runner accepts: non-empty, bounded, every entry supported,
/// and adjacent versions strictly increasing.
pub open spec fn manifest_supported(manifest: Seq<ManifestEntry>) -> bool {
    &&& 0 < manifest.len() <= LIMIT
    &&& forall|i: int| 0 <= i < manifest.len() ==> entry_supported(#[trigger] manifest[i])
    &&& forall|i: int|
        0 <= i < manifest.len() - 1 ==> #[trigger] manifest[i].version < manifest[i + 1].version
}

/// A history row records a successful application of exactly this entry.
pub open spec fn applied_matches(a: Applied, m: ManifestEntry) -> bool {
    &&& a.success
    &&& a.version == m.version
    &&& a.checksum@ == m.checksum@
}

/// The applied history is a successful prefix of a supported manifest.
pub open spec fn history_compatible(manifest: Seq<ManifestEntry>, applied: Seq<Applied>) -> bool {
    &&& manifest_supported(manifest)
    &&& applied.len() <= manifest.len()
    &&& forall|i: int| 0 <= i < applied.len() ==> applied_matches(#[trigger] applied[i], manifest[i])
}

/// What `baseline` answers for a manifest and a history.
pub open spec fn baseline_of(manifest: Seq<ManifestEntry>, applied: Seq<Applied>) -> Result<usize, Error> {
    if history_compatible(manifest, applied) {
        Ok(applied.len() as usize)
    } else {
        Err(Error::Incompatible)
    }
}

/// Byte-wise equality of two checksums.
fn same_bytes(a: &[u8], b: &[u8]) -> (r: bool)
    ensures
        r == (a@ == b@),
{
    if a.len() != b.len() {
        return false;
    }
    let mut i: usize = 0;
    while i < a.len()
        invariant
            a@.len() == b@.len(),
            0 <= i <= a@.len(),
            forall|j: int| 0 <= j < i ==> a@[j] == b@[j],
        decreases a@.len() - i,
    {
        if a[i] != b[i] {
            return false;
        }
        i += 1;
    }
    assert(a@ =~= b@);
    true
}

/// The number of manifest entries the database has already applied, or
/// `Incompatible` when the history is not a successful prefix of a
/// supported manifest.
pub fn baseline(manifest: &[ManifestEntry], applied: &[Applied]) -> (r: Result<usize, Error>)
    ensures
        r == baseline_of(manifest@, applied@),
{
    if manifest.len() == 0 || manifest.len() > LIMIT || applied.len() > manifest.len() {
        return Err(Error::Incompatible);
    }
    let mut i: usize = 0;
    while i < manifest.len()
        invariant
            0 <= i <= manifest@.len(),
            forall|j: int| 0 <= j < i ==> entry_supported(#[trigger] manifest@[j]),
            forall|j: int| 0 <= j < i - 1 ==> #[trigger] manifest@[j].version < manifest@[j + 1].version,
        decreases manifest@.len() - i,
    {
        let m = &manifest[i];
        if m.version <= 0 || m.no_tx || m.kind.is_down_migration() || m.checksum.len() != CHECKSUM_LEN {
            return Err(Error::Incompatible);
        }
        if i > 0 && manifest[i - 1].version >= m.version {
            assert(!(manifest@[i - 1].version < manifest@[(i - 1) + 1].version));
            return Err(Error::Incompatible);
        }
        i += 1;
    }
    let mut k: usize = 0;
    while k < applied.len()
        invariant
            manifest_supported(manifest@),
            applied@.len() <= manifest@.len(),
            0 <= k <= applied@.len(),
            forall|j: int| 0 <= j < k ==> applied_matches(#[trigger] applied@[j], manifest@[j]),
        decreases applied@.len() - k,
    {
        let a = &applied[k];
        let m = &manifest[k];
        if !a.success || a.version != m.version || !same_bytes(a.checksum.as_slice(), m.checksum.as_slice()) {
            assert(!applied_matches(applied@[k as int], manifest@[k as int]));
            return Err(Error::Incompatible);
        }
        k += 1;
    }
    Ok(applied.len())
}


/// One row of the journal's target list: a manifest entry and whether it was
/// already applied before this operation started.
#[derive(Debug, Clone)]
pub struct JournalTarget {
    pub version: i64,
    pub checksum: Vec<u8>,
    pub already_applied: bool,
}

/// The journal intent recorded before any pending migration runs.
#[derive(Debug, Clone)]
pub struct Intent {
    pub manifest_count: i32,
    pub baseline_count: i32,
    pub targets: Vec<JournalTarget>,
}

/// Whether a count fits the journal's 32-bit columns.
pub open spec fn fits_i32(n: int) -> bool {
    0 <= n <= i32::MAX
}

/// The journal target recorded for the manifest entry at `index`.
pub open spec fn target_of(m: ManifestEntry, index: int, baseline: int) -> JournalTarget {
    JournalTarget { version: m.version, checksum: m.checksum, already_applied: index < baseline }
}

/// The journal intent for `manifest` when its first `baseline` entries are
/// already applied: the two counts, and one target per manifest entry in
/// manifest order, marked applied exactly below the baseline. `Incompatible`
/// when a count does not fit the journal's columns.
pub fn intent(manifest: &[ManifestEntry], baseline: usize) -> (r: Result<Intent, Error>)
    ensures
        r is Err <==> !(fits_i32(manifest@.len() as int) && fits_i32(baseline as int)),
        r is Err ==> r == Err::<Intent, Error>(Error::Incompatible),
        r is Ok ==> {
            let i = r->Ok_0;
            &&& i.manifest_count as int == manifest@.len()
            &&& i.baseline_count as int == baseline
            &&& i.targets@.len() == manifest@.len()
            &&& forall|k: int| 0 <= k < manifest@.len() ==> {
                &&& (#[trigger] i.targets@[k]).version == manifest@[k].version
                &&& i.targets@[k].checksum@ == manifest@[k].checksum@
                &&& i.targets@[k].already_applied == (k < baseline)
            }
        },
{
    if manifest.len() > 2147483647 || baseline > 2147483647 {
        return Err(Error::Incompatible);
    }
    let mut targets: Vec<JournalTarget> = Vec::new();
    let mut i: usize = 0;
    while i < manifest.len()
        invariant
            0 <= i <= manifest@.len(),
            targets@.len() == i,
            forall|k: int| 0 <= k < i ==> {
                &&& (#[trigger] targets@[k]).version == manifest@[k].version
                &&& targets@[k].checksum@ == manifest@[k].checksum@
                &&& targets@[k].already_applied == (k < baseline)
            },
        decreases manifest@.len() - i,
    {
        let m = &manifest[i];
        let checksum = vstd::slice::slice_to_vec(m.checksum.as_slice());
        targets.push(JournalTarget { version: m.version, checksum, already_applied: i < baseline });
        i += 1;
    }
    Ok(Intent { manifest_count: manifest.len() as i32, baseline_count: baseline as i32, targets })
}

/// Whether the journal completion statement recorded exactly one completion.
pub fn completion(inserted: u64) -> (r: Result<(), Error>)
    ensures
        r == (if inserted == 1 { Ok::<(), Error>(()) } else { Err(Error::Incompatible) }),
{
    if inserted != 1 {
        return Err(Error::Incompatible);
    }
    Ok(())
}

/// One target of a journal inspection.
#[derive(Debug)]
pub struct Step {
    pub version: i64,
    pub checksum: String,
    pub already_applied: bool,
    pub completed_ms: Option<i64>,
    pub current_matches: bool,
}

/// A journal inspection: who prepared the operation, when, whether it
/// completed, the database clock, and the per-target steps.
#[derive(Debug)]
pub struct Inspection {
    pub database_role: String,
    pub prepared_ms: i64,
    pub completed_ms: Option<i64>,
    pub database_ms: i64,
    pub steps: Vec<Step>,
}

/// The intent row of a journal inspection.
#[derive(Debug)]
pub struct IntentRecord {
    pub database_role: String,
    pub prepared_ms: i64,
    pub manifest_count: i32,
    pub completed_ms: Option<i64>,
    pub database_ms: i64,
}

/// The steps agree with the intent: there are some, no more than the limit,
/// and exactly as many as the intent's manifest count.
pub open spec fn steps_consistent(record: IntentRecord, steps: Seq<Step>) -> bool {
    &&& 0 < steps.len() <= LIMIT
    &&& record.manifest_count as int == steps.len()
}

/// The inspection of an intent and its steps; `Incompatible` unless the
/// steps are consistent with the intent.
pub fn project(record: IntentRecord, steps: Vec<Step>) -> (r: Result<Inspection, Error>)
    ensures
        steps_consistent(record, steps@) <==> r is Ok,
        !steps_consistent(record, steps@) ==> r == Err::<Inspection, Error>(Error::Incompatible),
        r is Ok ==> r->Ok_0 == (Inspection {
            database_role: record.database_role,
            prepared_ms: record.prepared_ms,
            completed_ms: record.completed_ms,
            database_ms: record.database_ms,
            steps,
        }),
{
    if steps.len() == 0 || steps.len() > LIMIT || record.manifest_count < 0
        || record.manifest_count as usize != steps.len() {
        return Err(Error::Incompatible);
    }
    Ok(Inspection {
        database_role: record.database_role,
        prepared_ms: record.prepared_ms,
        completed_ms: record.completed_ms,
        database_ms: record.database_ms,
        steps,
    })
}

proof fn lemma_supported_versions_increase(manifest: Seq<ManifestEntry>, i: int, j: int)
    requires
        manifest_supported(manifest),
        0 <= i < j < manifest.len(),
    ensures
        manifest[i].version < manifest[j].version,
    decreases j - i,
{
    if j == i + 1 {
        assert(manifest[i].version < manifest[i + 1].version);
    } else {
        lemma_supported_versions_increase(manifest, i, j - 1);
        assert(manifest[j - 1].version < manifest[(j - 1) + 1].version);
    }
}

/// A manifest that `baseline` accepts has strictly increasing versions from
/// first to last, not only between neighbours: no version is applied twice
/// and none out of order.
pub proof fn law_accepted_versions_increase(manifest: Seq<ManifestEntry>, applied: Seq<Applied>, i: int, j: int)
    requires
        baseline_of(manifest, applied) is Ok,
        0 <= i < j < manifest.len(),
    ensures
        manifest[i].version < manifest[j].version,
{
    lemma_supported_versions_increase(manifest, i, j);
}

/// Applying the next pending migration successfully keeps the history
/// compatible, and the baseline moves forward by exactly one.
pub proof fn law_baseline_advances(manifest: Seq<ManifestEntry>, applied: Seq<Applied>, next: Applied)
    requires
        baseline_of(manifest, applied) is Ok,
        applied.len() < manifest.len(),
        applied_matches(next, manifest[applied.len() as int]),
    ensures
        baseline_of(manifest, applied.push(next)) == Ok::<usize, Error>((applied.len() + 1) as usize),
{
    let longer = applied.push(next);
    assert forall|i: int| 0 <= i < longer.len() implies applied_matches(#[trigger] longer[i], manifest[i]) by {
        if i < applied.len() {
            assert(longer[i] == applied[i]);
        }
    }
}

/// The baseline never exceeds the manifest: a compatible history leaves
/// between none and all of the manifest applied.
pub proof fn law_baseline_within_manifest(manifest: Seq<ManifestEntry>, applied: Seq<Applied>)
    requires
        baseline_of(manifest, applied) is Ok,
    ensures
        baseline_of(manifest, applied)->Ok_0 <= manifest.len(),
        baseline_of(manifest, applied)->Ok_0 == applied.len(),
{
}

/// A history that diverges from the manifest at some position (a failed
/// run, another version, or another checksum) is never accepted.
pub proof fn law_divergent_history_rejected(manifest: Seq<ManifestEntry>, applied: Seq<Applied>, i: int)
    requires
        0 <= i < applied.len(),
        i < manifest.len(),
        !applied_matches(applied[i], manifest[i]),
    ensures
        baseline_of(manifest, applied) == Err::<usize, Error>(Error::Incompatible),
{
}

} // verus!
