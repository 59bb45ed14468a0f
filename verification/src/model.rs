//! Data model of the change-synchronization engine: the records that travel
//! between replicas, the change-set bundle exchanged in one direction of a
//! sync, and the count-only summary derived from it.

use vstd::prelude::*;

verus! {

/// One syncable entity record. The engine reads only the stable identifier,
/// the last-modified timestamp (milliseconds since the Unix epoch, UTC) and,
/// on workout records, the reference to the exercise definition the workout
/// belongs to. Everything else the record carries is opaque to the engine and
/// travels in `payload`.
#[derive(Clone, Debug, PartialEq, Eq)]
pub struct Record {
    /// Stable identifier; upserts are keyed by it.
    pub id: u64,
    /// Last-modified timestamp, milliseconds since the Unix epoch (UTC).
    pub modified_at: i64,
    /// For workout records: the identifier of the exercise definition this
    /// workout references. `None` on records of the other categories.
    pub exercise_ref: Option<u64>,
    /// Opaque record body; the surrounding application encodes and decodes it.
    pub payload: String,
}

impl Record {
    /// An exact copy; the engine keeps the store's records when collecting.
    pub fn duplicate(&self) -> (r: Record)
        ensures
            r == *self,
    {
        Record {
            id: self.id,
            modified_at: self.modified_at,
            exercise_ref: self.exercise_ref,
            payload: self.payload.clone(),
        }
    }
}

/// The configuration snapshot that syncs wholesale: when it changed since the
/// reference timestamp it travels as one opaque unit and replaces the stored
/// snapshot in full on apply.
#[derive(Clone, Debug, PartialEq, Eq)]
pub struct ConfigSnapshot {
    /// Last-modified timestamp, milliseconds since the Unix epoch (UTC).
    pub modified_at: i64,
    /// Opaque configuration body.
    pub payload: String,
}

impl ConfigSnapshot {
    /// An exact copy.
    pub fn duplicate(&self) -> (r: ConfigSnapshot)
        ensures
            r == *self,
    {
        ConfigSnapshot { modified_at: self.modified_at, payload: self.payload.clone() }
    }
}

/// The bundle exchanged in one direction of a sync: per-category ordered
/// record lists plus the optional configuration snapshot.
#[derive(Clone, Debug, PartialEq, Eq)]
pub struct ChangeSet {
    /// Present only when the configuration changed since the reference point.
    pub config: Option<ConfigSnapshot>,
    pub exercises: Vec<Record>,
    pub workouts: Vec<Record>,
    pub aliases: Vec<Record>,
    pub bodyweights: Vec<Record>,
}

impl ChangeSet {
    /// The empty bundle: nothing changed in any category.
    pub fn new() -> (r: ChangeSet)
        ensures
            r.config is None,
            r.exercises@ == Seq::<Record>::empty(),
            r.workouts@ == Seq::<Record>::empty(),
            r.aliases@ == Seq::<Record>::empty(),
            r.bodyweights@ == Seq::<Record>::empty(),
    {
        ChangeSet {
            config: None,
            exercises: Vec::new(),
            workouts: Vec::new(),
            aliases: Vec::new(),
            bodyweights: Vec::new(),
        }
    }

    /// Derives the count-only report of this bundle.
    pub fn summarize(&self) -> (r: SyncSummary)
        ensures
            r == summary_of(*self),
    {
        SyncSummary {
            config: self.config.is_some(),
            exercises: self.exercises.len(),
            workouts: self.workouts.len(),
            aliases: self.aliases.len(),
            bodyweights: self.bodyweights.len(),
        }
    }
}

/// A derived, read-only projection of a `ChangeSet`: counts per category and
/// whether a configuration snapshot was included. Computed, never persisted.
#[derive(Clone, Copy, Debug, PartialEq, Eq, Structural)]
pub struct SyncSummary {
    pub config: bool,
    pub exercises: usize,
    pub workouts: usize,
    pub aliases: usize,
    pub bodyweights: usize,
}

/// What `ChangeSet::summarize` computes.
pub open spec fn summary_of(cs: ChangeSet) -> SyncSummary {
    SyncSummary {
        config: cs.config is Some,
        exercises: cs.exercises@.len() as usize,
        workouts: cs.workouts@.len() as usize,
        aliases: cs.aliases@.len() as usize,
        bodyweights: cs.bodyweights@.len() as usize,
    }
}

/// The error taxonomy of one sync attempt, by phase of failure.
#[derive(Clone, Copy, Debug, PartialEq, Eq, Structural)]
pub enum SyncError {
    /// No usable server endpoint could be resolved: neither a non-empty
    /// per-call override nor a non-empty stored URL. Not retryable without
    /// user action.
    Configuration,
    /// The local read phase failed (store unavailable or corrupt); raised by
    /// the surrounding application, never by the engine's own collector.
    Collection,
    /// The network exchange failed: timeout, connection error, bad status or
    /// a malformed payload. Local state is unaffected; retryable.
    Communication,
    /// The write phase refused the received batch; carries the identifier of
    /// the first offending record. Nothing was persisted.
    Apply { record_id: u64 },
}

/// Lowest timestamp (milliseconds since the Unix epoch) the engine accepts.
pub const TS_MIN_MS: i64 = -8_000_000_000_000_000;

/// Highest timestamp (milliseconds since the Unix epoch) the engine accepts.
pub const TS_MAX_MS: i64 = 8_000_000_000_000_000;

/// Timestamps the engine lets through: roughly a quarter of a million years
/// around the epoch, comfortably inside what the RFC 3339 wire encoding can
/// carry. Anything outside is treated as a malformed payload.
pub open spec fn ts_in_range(ms: i64) -> bool {
    TS_MIN_MS <= ms && ms <= TS_MAX_MS
}

} // verus!
