//! Fixed-cardinality benchmark instrumentation: per-stage latency histograms
//! and the timers that feed them. No identity or query value is recorded.
use vstd::prelude::*;

verus! {

/// Number of histogram buckets: one per upper bound, plus the overflow bucket.
pub const BUCKETS: usize = 22;

/// Number of instrumented stages.
pub const STAGE_COUNT: usize = 9;

/// Inclusive upper bounds, in microseconds, of the first 21 buckets.
pub const UPPER_US: [u64; 21] = [
    1, 5, 10, 25, 50, 100, 250, 500, 1_000, 2_500, 5_000, 10_000, 25_000, 50_000, 100_000, 250_000,
    500_000, 1_000_000, 2_500_000, 5_000_000, 10_000_000,
];

/// An instrumented stage of a store operation.
#[derive(Debug, Clone, Copy, PartialEq, Eq, Structural)]
pub enum Stage {
    Total,
    PoolAcquire,
    Begin,
    Fence,
    Authenticate,
    Inspect,
    PolicyLoad,
    Decision,
    Commit,
}

/// The position of a stage in the counter table, in declaration order.
pub open spec fn stage_index(stage: Stage) -> int {
    match stage {
        Stage::Total => 0,
        Stage::PoolAcquire => 1,
        Stage::Begin => 2,
        Stage::Fence => 3,
        Stage::Authenticate => 4,
        Stage::Inspect => 5,
        Stage::PolicyLoad => 6,
        Stage::Decision => 7,
        Stage::Commit => 8,
    }
}

/// The name under which a stage is reported.
pub open spec fn stage_label(stage: Stage) -> Seq<char> {
    match stage {
        Stage::Total => "total"@,
        Stage::PoolAcquire => "pool_acquire"@,
        Stage::Begin => "begin"@,
        Stage::Fence => "fence"@,
        Stage::Authenticate => "authenticate"@,
        Stage::Inspect => "inspect"@,
        Stage::PolicyLoad => "policy_load"@,
        Stage::Decision => "decision"@,
        Stage::Commit => "commit"@,
    }
}

impl Stage {
    /// The position of this stage in the counter table.
    pub fn index(self) -> (r: usize)
        ensures
            r as int == stage_index(self),
            r < STAGE_COUNT,
    {
        match self {
            Stage::Total => 0,
            Stage::PoolAcquire => 1,
            Stage::Begin => 2,
            Stage::Fence => 3,
            Stage::Authenticate => 4,
            Stage::Inspect => 5,
            Stage::PolicyLoad => 6,
            Stage::Decision => 7,
            Stage::Commit => 8,
        }
    }

    /// The name under which this stage is reported.
    pub fn name(self) -> (r: &'static str)
        ensures
            r@ == stage_label(self),
    {
        match self {
            Stage::Total => "total",
            Stage::PoolAcquire => "pool_acquire",
            Stage::Begin => "begin",
            Stage::Fence => "fence",
            Stage::Authenticate => "authenticate",
            Stage::Inspect => "inspect",
            Stage::PolicyLoad => "policy_load",
            Stage::Decision => "decision",
            Stage::Commit => "commit",
        }
    }
}

/// How a timed stage ended.
#[derive(Debug, Clone, Copy, PartialEq, Eq, Structural)]
pub enum Outcome {
    Succeeded,
    Failed,
    Cancelled,
}

/// Latency counters of one stage.
#[derive(Debug, Clone, Copy)]
pub struct Histogram {
    pub ok: u64,
    pub error: u64,
    pub cancelled: u64,
    pub sum_us: u64,
    pub max_us: u64,
    pub buckets: [u64; 22],
}

/// `a + b`, saturating at `u64::MAX`.
pub open spec fn sat_add(a: u64, b: u64) -> u64 {
    if a + b > u64::MAX { u64::MAX } else { (a + b) as u64 }
}

/// The first bucket at or after `i` whose upper bound is at least `elapsed_us`,
/// or the overflow bucket.
pub open spec fn first_bucket_from(elapsed_us: u64, i: int) -> int
    decreases 21 - i,
{
    if i >= 21 {
        21
    } else if UPPER_US@[i] >= elapsed_us {
        i
    } else {
        first_bucket_from(elapsed_us, i + 1)
    }
}

/// The bucket a duration falls into.
pub open spec fn bucket_of(elapsed_us: u64) -> int {
    first_bucket_from(elapsed_us, 0)
}

/// The empty histogram: every counter zero.
pub open spec fn is_empty(h: Histogram) -> bool {
    &&& h.ok == 0
    &&& h.error == 0
    &&& h.cancelled == 0
    &&& h.sum_us == 0
    &&& h.max_us == 0
    &&& forall|i: int| 0 <= i < BUCKETS ==> h.buckets@[i] == 0
}

/// `h` after one observation of `elapsed_us` ending in `outcome`.
pub open spec fn recorded(h: Histogram, elapsed_us: u64, outcome: Outcome) -> Histogram {
    Histogram {
        ok: if outcome is Succeeded { sat_add(h.ok, 1) } else { h.ok },
        error: if outcome is Failed { sat_add(h.error, 1) } else { h.error },
        cancelled: if outcome is Cancelled { sat_add(h.cancelled, 1) } else { h.cancelled },
        sum_us: sat_add(h.sum_us, elapsed_us),
        max_us: if h.max_us >= elapsed_us { h.max_us } else { elapsed_us },
        buckets: h.buckets,
    }
}

/// `after` is `before` with one more observation of `elapsed_us` ending in
/// `outcome`: the outcome's counter, the sum and the maximum updated, and
/// the duration's bucket incremented, every count saturating.
pub open spec fn observed(before: Histogram, after: Histogram, elapsed_us: u64, outcome: Outcome) -> bool {
    let r = recorded(before, elapsed_us, outcome);
    &&& after.ok == r.ok
    &&& after.error == r.error
    &&& after.cancelled == r.cancelled
    &&& after.sum_us == r.sum_us
    &&& after.max_us == r.max_us
    &&& after.buckets@ == before.buckets@.update(
        bucket_of(elapsed_us),
        sat_add(before.buckets@[bucket_of(elapsed_us)], 1),
    )
}

impl Histogram {
    /// A histogram with no observation.
    pub fn empty() -> (r: Histogram)
        ensures
            is_empty(r),
    {
        Histogram { ok: 0, error: 0, cancelled: 0, sum_us: 0, max_us: 0, buckets: [0u64; 22] }
    }

    /// Records one observation: the outcome's counter, the sum and the
    /// maximum, and the bucket whose range holds the duration, all
    /// saturating.
    pub fn record(&mut self, elapsed_us: u64, outcome: Outcome)
        ensures
            observed(*old(self), *final(self), elapsed_us, outcome),
    {
        match outcome {
            Outcome::Succeeded => self.ok = self.ok.saturating_add(1),
            Outcome::Failed => self.error = self.error.saturating_add(1),
            Outcome::Cancelled => self.cancelled = self.cancelled.saturating_add(1),
        }
        self.sum_us = self.sum_us.saturating_add(elapsed_us);
        if self.max_us < elapsed_us {
            self.max_us = elapsed_us;
        }
        let index = bucket_index(elapsed_us);
        let current = self.buckets[index];
        self.buckets[index] = current.saturating_add(1);
    }
}

/// The bucket a duration falls into: the number of upper bounds it exceeds.
pub fn bucket_index(elapsed_us: u64) -> (r: usize)
    ensures
        r as int == bucket_of(elapsed_us),
        r < BUCKETS,
{
    let mut i: usize = 0;
    while i < 21
        invariant
            0 <= i <= 21,
            first_bucket_from(elapsed_us, i as int) == bucket_of(elapsed_us),
        decreases 21 - i,
    {
        if UPPER_US[i] >= elapsed_us {
            return i;
        }
        i += 1;
    }
    21
}


/// Observations of a histogram, over all outcomes.
pub open spec fn observations(h: Histogram) -> int {
    h.ok + h.error + h.cancelled
}

/// Sum of a sequence of counters.
pub open spec fn total(s: Seq<u64>) -> int
    decreases s.len(),
{
    if s.len() == 0 { 0 } else { total(s.drop_last()) + s.last() }
}

/// No counter of `h` is at its ceiling.
pub open spec fn unsaturated(h: Histogram) -> bool {
    &&& h.ok < u64::MAX
    &&& h.error < u64::MAX
    &&& h.cancelled < u64::MAX
    &&& forall|i: int| 0 <= i < BUCKETS ==> h.buckets@[i] < u64::MAX
}

proof fn lemma_first_bucket_from(elapsed_us: u64, i: int)
    requires
        0 <= i <= 21,
    ensures
        i <= first_bucket_from(elapsed_us, i) <= 21,
        forall|j: int| i <= j < first_bucket_from(elapsed_us, i) ==> UPPER_US@[j] < elapsed_us,
        first_bucket_from(elapsed_us, i) < 21 ==> elapsed_us <= UPPER_US@[first_bucket_from(elapsed_us, i)],
    decreases 21 - i,
{
    if i < 21 && UPPER_US@[i] < elapsed_us {
        lemma_first_bucket_from(elapsed_us, i + 1);
    }
}

/// Every duration lands in the bucket whose range holds it: above the
/// previous bucket's upper bound and at most its own (the last bucket has no
/// upper bound).
pub proof fn law_bucket_holds_duration(elapsed_us: u64)
    ensures
        0 <= bucket_of(elapsed_us) < BUCKETS,
        bucket_of(elapsed_us) > 0 ==> UPPER_US@[bucket_of(elapsed_us) - 1] < elapsed_us,
        bucket_of(elapsed_us) < 21 ==> elapsed_us <= UPPER_US@[bucket_of(elapsed_us)],
{
    lemma_first_bucket_from(elapsed_us, 0);
}

proof fn lemma_total_update(s: Seq<u64>, i: int, v: u64)
    requires
        0 <= i < s.len(),
    ensures
        total(s.update(i, v)) == total(s) - s[i] + v,
    decreases s.len(),
{
    let u = s.update(i, v);
    if i == s.len() - 1 {
        assert(u.drop_last() =~= s.drop_last());
    } else {
        lemma_total_update(s.drop_last(), i, v);
        assert(u.drop_last() =~= s.drop_last().update(i, v));
    }
}

/// While nothing saturates, recording keeps the buckets accounting for
/// every observation: if the buckets' total equals the number of
/// observations before a record, it still does after.
pub proof fn law_record_keeps_buckets_consistent(
    before: Histogram,
    after: Histogram,
    elapsed_us: u64,
    outcome: Outcome,
)
    requires
        unsaturated(before),
        total(before.buckets@) == observations(before),
        observed(before, after, elapsed_us, outcome),
    ensures
        total(after.buckets@) == observations(after),
        observations(after) == observations(before) + 1,
{
    law_bucket_holds_duration(elapsed_us);
    let b = bucket_of(elapsed_us);
    assert(before.buckets@.len() == BUCKETS);
    lemma_total_update(before.buckets@, b, sat_add(before.buckets@[b], 1));
}

/// Recording never lowers a counter, the sum or the maximum, and the maximum
/// is at least the recorded duration.
pub proof fn law_record_monotone(before: Histogram, after: Histogram, elapsed_us: u64, outcome: Outcome)
    requires
        observed(before, after, elapsed_us, outcome),
    ensures
        after.ok >= before.ok,
        after.error >= before.error,
        after.cancelled >= before.cancelled,
        after.sum_us >= before.sum_us,
        after.max_us >= before.max_us,
        after.max_us >= elapsed_us,
        forall|i: int| 0 <= i < BUCKETS ==> after.buckets@[i] >= before.buckets@[i],
{
    law_bucket_holds_duration(elapsed_us);
}

/// The counter table shared by all stages, indexed by `Stage::index`.
pub type Counters = [Histogram; 9];

/// Every histogram of the table is empty.
pub open spec fn table_empty(t: Counters) -> bool {
    forall|i: int| 0 <= i < STAGE_COUNT ==> is_empty(#[trigger] t@[i])
}

/// Hands out the current counters and resets the table to empty ones.
pub fn take(counters: &mut Counters) -> (r: Counters)
    ensures
        r == *old(counters),
        table_empty(*final(counters)),
{
    let taken = *counters;
    let fresh: Counters = vstd::array::array_fill_for_copy_types(Histogram::empty());
    *counters = fresh;
    taken
}

#[verifier::external_type_specification]
#[verifier::external_body]
pub struct ExInstant(std::time::Instant);

/// `std::time::Instant::now`: the current monotonic instant; nothing is
/// promised of its value.
#[verifier::external_body]
fn clock_now() -> std::time::Instant {
    std::time::Instant::now()
}

/// `std::time::Instant::elapsed`: the time since `start`; it depends on the
/// clock, so nothing is promised of its value.
#[verifier::external_body]
fn elapsed_since(start: &std::time::Instant) -> std::time::Duration {
    start.elapsed()
}

/// `std::time::Duration::as_micros`: whole microseconds of a duration; the
/// duration is opaque here, so nothing is stated of the value.
#[verifier::external_body]
fn whole_micros(duration: &std::time::Duration) -> u128 {
    duration.as_micros()
}

/// A microsecond count as a `u64`, saturating at `u64::MAX`.
pub fn saturating_micros(micros: u128) -> (r: u64)
    ensures
        r == (if micros > u64::MAX { u64::MAX } else { micros as u64 }),
{
    if micros > 18446744073709551615u128 {
        18446744073709551615u64
    } else {
        micros as u64
    }
}

/// Times one stage. It starts out cancelled: a timer recorded without being
/// completed counts as cancelled.
pub struct Timer {
    stage: Stage,
    start: std::time::Instant,
    outcome: Outcome,
}

impl Timer {
    /// The stage this timer measures.
    pub closed spec fn stage_of(self) -> Stage {
        self.stage
    }

    /// The outcome this timer will record.
    pub closed spec fn outcome_of(self) -> Outcome {
        self.outcome
    }

    /// Starts timing `stage` now, as cancelled until completed.
    pub fn start(stage: Stage) -> (t: Timer)
        ensures
            t.stage_of() == stage,
            t.outcome_of() == Outcome::Cancelled,
    {
        Timer { stage, start: clock_now(), outcome: Outcome::Cancelled }
    }

    /// Marks the stage as having succeeded or failed.
    pub fn complete(self, success: bool) -> (t: Timer)
        ensures
            t.stage_of() == self.stage_of(),
            t.outcome_of() == (if success { Outcome::Succeeded } else { Outcome::Failed }),
    {
        let mut timer = self;
        timer.outcome = if success { Outcome::Succeeded } else { Outcome::Failed };
        timer
    }

    /// Records the elapsed time and outcome into the stage's histogram; every
    /// other stage's histogram is unchanged.
    pub fn record(self, counters: &mut Counters)
        ensures
            forall|i: int| 0 <= i < STAGE_COUNT && i != stage_index(self.stage_of()) ==> final(counters)@[i] == old(counters)@[i],
            exists|elapsed_us: u64|
                observed(
                    old(counters)@[stage_index(self.stage_of())],
                    final(counters)@[stage_index(self.stage_of())],
                    elapsed_us,
                    self.outcome_of(),
                ),
    {
        let elapsed = saturating_micros(whole_micros(&elapsed_since(&self.start)));
        let index = self.stage.index();
        let mut histogram = counters[index];
        histogram.record(elapsed, self.outcome);
        counters[index] = histogram;
        assert(observed(old(counters)@[index as int], counters@[index as int], elapsed, self.outcome));
    }
}

/// Runs a synchronous stage. Without benchmark profiling the stage only
/// labels the work: the result is the operation's own.
pub fn compute<T, E, F: FnOnce() -> Result<T, E>>(stage: Stage, operation: F) -> (r: Result<T, E>)
    requires
        operation.requires(()),
    ensures
        operation.ensures((), r),
{
    let _ = stage;
    operation()
}

/// How a stage that ended in `r` counts: succeeded or failed.
pub open spec fn result_outcome<T, E>(r: Result<T, E>) -> Outcome {
    if r is Ok { Outcome::Succeeded } else { Outcome::Failed }
}

/// Runs a synchronous stage in a profiling build: the result is the
/// operation's own, and the stage's histogram gains one sample, counted as
/// succeeded or failed by that result; no other stage changes.
pub fn compute_profiled<T, E, F: FnOnce() -> Result<T, E>>(stage: Stage, operation: F, counters: &mut Counters) -> (r: Result<T, E>)
    requires
        operation.requires(()),
    ensures
        operation.ensures((), r),
        forall|i: int| 0 <= i < STAGE_COUNT && i != stage_index(stage) ==> final(counters)@[i] == old(counters)@[i],
        exists|elapsed_us: u64|
            #[trigger] observed(
                old(counters)@[stage_index(stage)],
                final(counters)@[stage_index(stage)],
                elapsed_us,
                result_outcome(r),
            ),
{
    let timer = Timer::start(stage);
    let result = operation();
    let timer = timer.complete(result.is_ok());
    timer.record(counters);
    result
}

} // verus!
