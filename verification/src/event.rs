//! The event and snapshot data model: immutable value types representing a
//! domain event, an envelope wrapping it with routing metadata, and a
//! point-in-time snapshot of aggregate state.

use vstd::prelude::*;

use crate::aggregate::Aggregate;

verus! {

/// A fact that has happened to one aggregate instance. Every variant carries
/// a unique event identifier, used both as event id and as the per-aggregate
/// ordering key (monotonically increasing, lexically sortable).
pub trait DomainEvent: Clone + Sized {
    spec fn event_type_spec(self) -> Seq<char>;

    spec fn event_version_spec(self) -> Seq<char>;

    spec fn event_id_spec(self) -> Seq<char>;

    /// Tag used for persistence and for dedupe by consumers.
    fn event_type(&self) -> (r: String)
        ensures
            r@ == self.event_type_spec(),
    ;

    fn event_version(&self) -> (r: String)
        ensures
            r@ == self.event_version_spec(),
    ;

    fn event_id(&self) -> (r: String)
        ensures
            r@ == self.event_id_spec(),
    ;
}

/// One domain event wrapped with its routing and audit metadata.
///
/// Invariant kept by writers: sequence tokens for a given aggregate
/// identifier are strictly increasing and define total replay order.
pub struct EventEnvelope<A: Aggregate> {
    /// The id of the aggregate instance.
    pub aggregate_id: String,
    /// The type of aggregate instance.
    pub aggregate_type: String,
    /// The sequence id for an aggregate instance.
    pub sequence: String,
    /// The event payload with all business information.
    pub payload: A::Event,
    /// Additional metadata for use in auditing, logging or debugging.
    pub metadata: Vec<(String, String)>,
    /// When this event was produced, as milliseconds since the Unix epoch.
    pub timestamp: i64,
}

/// A copy of `metadata`, pair by pair.
fn clone_metadata(metadata: &Vec<(String, String)>) -> (r: Vec<(String, String)>)
    ensures
        r@ == metadata@,
{
    let mut out: Vec<(String, String)> = Vec::new();
    let n = metadata.len();
    let mut i: usize = 0;
    while i < n
        invariant
            n == metadata@.len(),
            0 <= i <= n,
            out@ =~= metadata@.take(i as int),
        decreases n - i,
    {
        out.push((metadata[i].0.clone(), metadata[i].1.clone()));
        proof {
            assert(out@ =~= metadata@.take(i + 1));
        }
        i = i + 1;
    }
    proof {
        assert(out@ =~= metadata@);
    }
    out
}

impl<A: Aggregate> Clone for EventEnvelope<A> {
    fn clone(&self) -> (r: Self)
        ensures
            r.aggregate_id@ == self.aggregate_id@,
            r.aggregate_type@ == self.aggregate_type@,
            r.sequence@ == self.sequence@,
            cloned::<A::Event>(self.payload, r.payload),
            r.metadata@ == self.metadata@,
            r.timestamp == self.timestamp,
    {
        EventEnvelope {
            aggregate_id: self.aggregate_id.clone(),
            aggregate_type: self.aggregate_type.clone(),
            sequence: self.sequence.clone(),
            payload: self.payload.clone(),
            metadata: clone_metadata(&self.metadata),
            timestamp: self.timestamp,
        }
    }
}

/// A copy of `snapshot` that keeps every routing field exactly and clones
/// the payload.
impl<S: Clone> Clone for AggregateSnapshot<S> {
    fn clone(&self) -> (r: Self)
        ensures
            r.aggregate_id@ == self.aggregate_id@,
            r.aggregate_type@ == self.aggregate_type@,
            cloned::<S>(self.payload, r.payload),
            r.last_sequence@ == self.last_sequence@,
            r.snapshot_id@ == self.snapshot_id@,
            r.timestamp == self.timestamp,
    {
        AggregateSnapshot {
            aggregate_id: self.aggregate_id.clone(),
            aggregate_type: self.aggregate_type.clone(),
            payload: self.payload.clone(),
            last_sequence: self.last_sequence.clone(),
            snapshot_id: self.snapshot_id.clone(),
            timestamp: self.timestamp,
        }
    }
}

/// A materialized aggregate state at a point in time.
///
/// Invariant: replaying all events with sequence greater than
/// `last_sequence` against `payload` reconstructs current state exactly.
pub struct AggregateSnapshot<S> {
    /// The id of the aggregate instance that this is a snapshot for.
    pub aggregate_id: String,
    /// The type of aggregate instance.
    pub aggregate_type: String,
    /// The current state of the aggregate instance.
    pub payload: S,
    /// The sequence token of the last event folded into `payload`.
    pub last_sequence: String,
    /// The id of this snapshot; retrieval picks the highest one.
    pub snapshot_id: String,
    /// When this snapshot was produced, as milliseconds since the Unix epoch.
    pub timestamp: i64,
}

} // verus!
