//! The two contracts the engine requires from its environment: durable
//! event/snapshot/outbox storage, and a transport for publishing committed
//! events. Any backend satisfying these contracts is substitutable without
//! touching the core.
//!
//! Each port is modelled by spec-level views of its durable state (the event
//! log, the outbox, the snapshot store, the published sequence); every
//! operation says how it moves those views, for success and for failure.

use vstd::prelude::*;

pub use vstd::seq::Seq as ModelSeq;

use crate::aggregate::Aggregate;
use crate::event::{AggregateSnapshot, EventEnvelope};

verus! {

/// `anyhow::Error`, the error value storage and transport adapters report.
/// Opaque to the engine: callers map it to their own error kinds.
#[verifier::external_type_specification]
#[verifier::external_body]
pub struct ExAnyhowError(anyhow::Error);

/// Lexicographic "strictly greater" on character sequences: the order of
/// sequence tokens. ULIDs sort chronologically under this order.
pub open spec fn lex_gt(a: Seq<char>, b: Seq<char>) -> bool
    decreases a.len() + b.len(),
{
    if b.len() == 0 {
        a.len() > 0
    } else if a.len() == 0 {
        false
    } else if a[0] == b[0] {
        lex_gt(a.drop_first(), b.drop_first())
    } else {
        a[0] > b[0]
    }
}

/// Whether `sub` can be obtained from `full` by deleting elements, keeping
/// the order of the rest.
pub open spec fn subsequence_of<T>(sub: Seq<T>, full: Seq<T>) -> bool
    decreases sub.len() + full.len(),
{
    if sub.len() == 0 {
        true
    } else if full.len() == 0 {
        false
    } else if sub[0] == full[0] {
        subsequence_of(sub.drop_first(), full.drop_first())
    } else {
        subsequence_of(sub, full.drop_first())
    }
}

/// Whether an envelope belongs to the replay of `id`: it targets that
/// aggregate and, when a resume token is given, lies strictly after it.
pub open spec fn event_selected<A: Aggregate>(
    e: EventEnvelope<A>,
    id: Seq<char>,
    after: Option<Seq<char>>,
) -> bool {
    e.aggregate_id@ == id && match after {
        Some(a) => lex_gt(e.sequence@, a),
        None => true,
    }
}

/// The events of `log` that belong to the replay of `id`, in stored order.
pub open spec fn selected_events<A: Aggregate>(
    log: Seq<EventEnvelope<A>>,
    id: Seq<char>,
    after: Option<Seq<char>>,
) -> Seq<EventEnvelope<A>> {
    log.filter(|e: EventEnvelope<A>| event_selected(e, id, after))
}

/// Whether `events` lists its envelopes in ascending sequence-token
/// order: no later envelope carries a lexically smaller token.
pub open spec fn token_ordered<A: Aggregate>(events: Seq<EventEnvelope<A>>) -> bool {
    forall|i: int, j: int|
        #![trigger events[i], events[j]]
        0 <= i < j < events.len() ==> !lex_gt(events[i].sequence@, events[j].sequence@)
}

/// The outbox after deleting every row carrying `sequence`, keeping the
/// order of the rest.
pub open spec fn outbox_after_delete<A: Aggregate>(
    outbox: Seq<EventEnvelope<A>>,
    sequence: Seq<char>,
) -> Seq<EventEnvelope<A>>
    decreases outbox.len(),
{
    if outbox.len() == 0 {
        Seq::empty()
    } else {
        let rest = outbox_after_delete(outbox.drop_first(), sequence);
        if outbox[0].sequence@ == sequence {
            rest
        } else {
            seq![outbox[0]] + rest
        }
    }
}

/// Deletion by sequence token removes exactly the rows carrying it: a row
/// survives the deletion if and only if it was pending and carries another
/// token.
pub proof fn lemma_outbox_after_delete<A: Aggregate>(
    outbox: Seq<EventEnvelope<A>>,
    sequence: Seq<char>,
    e: EventEnvelope<A>,
)
    ensures
        outbox_after_delete(outbox, sequence).contains(e) <==> (outbox.contains(e) && e.sequence@
            != sequence),
    decreases outbox.len(),
{
    if outbox.len() > 0 {
        let rest = outbox_after_delete(outbox.drop_first(), sequence);
        lemma_outbox_after_delete(outbox.drop_first(), sequence, e);
        assert(forall|i: int|
            0 < i < outbox.len() ==> outbox.drop_first()[i - 1] == #[trigger] outbox[i]);
        if outbox.contains(e) && e.sequence@ != sequence {
            let i = choose|i: int| 0 <= i < outbox.len() && outbox[i] == e;
            if i > 0 {
                assert(outbox.drop_first()[i - 1] == e);
                assert(outbox.drop_first().contains(e));
            }
        }
        if outbox.drop_first().contains(e) {
            let j = choose|j: int|
                0 <= j < outbox.drop_first().len() && outbox.drop_first()[j] == e;
            assert(outbox[j + 1] == e);
            assert(outbox.contains(e));
        }
        if outbox[0].sequence@ != sequence {
            let cons = seq![outbox[0]] + rest;
            assert(cons[0] == outbox[0]);
            assert(forall|i: int| 0 <= i < rest.len() ==> cons[i + 1] == #[trigger] rest[i]);
            if rest.contains(e) {
                let j = choose|j: int| 0 <= j < rest.len() && rest[j] == e;
                assert(cons[j + 1] == e);
                assert(cons.contains(e));
            }
            if e == outbox[0] {
                assert(cons.contains(e));
            }
            if cons.contains(e) {
                let j = choose|j: int| 0 <= j < cons.len() && cons[j] == e;
                if j == 0 {
                    assert(e == outbox[0]);
                    assert(outbox.contains(e));
                } else {
                    assert(rest[j - 1] == e);
                    assert(rest.contains(e));
                }
            }
        }
    }
}

/// A sequence keeps its elements when one more is pushed.
pub proof fn lemma_contains_push<T>(s: Seq<T>, pushed: T, kept: T)
    requires
        s.contains(kept),
    ensures
        s.push(pushed).contains(kept),
{
    let i = choose|i: int| 0 <= i < s.len() && s[i] == kept;
    assert(s.push(pushed)[i] == kept);
}

/// The transport for publishing committed events to subscribers.
///
/// `sent` is the model of what this handle has published, in order; a
/// publication is counted only when `send_event` reports success.
pub trait EventBus<T>: Sized {
    spec fn sent(self) -> Seq<T>;

    /// Non-blocking enqueue; fails when the transport is saturated or
    /// closed, and then publishes nothing.
    fn send_event(&mut self, event: T) -> (r: Result<(), anyhow::Error>)
        ensures
            r is Ok ==> final(self).sent() == old(self).sent().push(event),
            r is Err ==> final(self).sent() == old(self).sent(),
    ;
}

/// Durable event/snapshot storage and outbox bookkeeping for one aggregate
/// kind.
///
/// The three spec views model the backing tables: the append-only event
/// log, the pending outbox rows, and the snapshot store.
pub trait EventRepository<A: Aggregate>: Sized {
    spec fn stored_events(self) -> Seq<EventEnvelope<A>>;

    spec fn outbox_events(self) -> Seq<EventEnvelope<A>>;

    spec fn stored_snapshots(self) -> Seq<AggregateSnapshot<A>>;

    /// Durably append each envelope to the event log and, in the same
    /// atomic unit per event, to the outbox. The batch is not all-or-
    /// nothing across events: on failure, some prefix-free subsequence of
    /// the batch has landed — but always the same rows in both tables.
    fn store_events(&mut self, events: Vec<EventEnvelope<A>>) -> (r: Result<(), anyhow::Error>)
        ensures
            final(self).stored_snapshots() == old(self).stored_snapshots(),
            r is Ok ==> final(self).stored_events() == old(self).stored_events() + events@
                && final(self).outbox_events() == old(self).outbox_events() + events@,
            r is Err ==> exists|kept: Seq<EventEnvelope<A>>|
                #![auto]
                subsequence_of(kept, events@)
                    && final(self).stored_events() == old(self).stored_events() + kept
                    && final(self).outbox_events() == old(self).outbox_events() + kept,
    ;

    /// The stored events of one aggregate, ordered by sequence token
    /// ascending; with a resume token, only those strictly after it
    /// (snapshot-resumed replay).
    fn retrieve_events(&self, aggregate_id: String, after: Option<String>) -> (r: Result<
        Vec<EventEnvelope<A>>,
        anyhow::Error,
    >)
        ensures
            r matches Ok(v) ==> token_ordered(v@) && v@.to_multiset() == selected_events(
                self.stored_events(),
                aggregate_id@,
                match after {
                    Some(a) => Some(a@),
                    None => None,
                },
            ).to_multiset(),
    ;

    /// Persist one snapshot. Failure leaves every view unchanged.
    fn store_snapshot(&mut self, snapshot: AggregateSnapshot<A>) -> (r: Result<
        (),
        anyhow::Error,
    >)
        ensures
            final(self).stored_events() == old(self).stored_events(),
            final(self).outbox_events() == old(self).outbox_events(),
            r is Ok ==> final(self).stored_snapshots() == old(self).stored_snapshots().push(
                snapshot,
            ),
            r is Err ==> final(self).stored_snapshots() == old(self).stored_snapshots(),
    ;

    /// The stored snapshot of this aggregate with the highest snapshot
    /// identifier, or `None` when it has none.
    fn retrieve_latest_snapshot(&self, aggregate_id: String) -> (r: Result<
        Option<AggregateSnapshot<A>>,
        anyhow::Error,
    >)
        ensures
            r matches Ok(Some(s)) ==> self.stored_snapshots().contains(s) && s.aggregate_id@
                == aggregate_id@ && forall|i: int|
                0 <= i < self.stored_snapshots().len()
                    ==> ((#[trigger] self.stored_snapshots()[i]).aggregate_id@ == aggregate_id@
                    ==> !lex_gt(
                    self.stored_snapshots()[i].snapshot_id@,
                    s.snapshot_id@,
                )),
            r matches Ok(None) ==> forall|i: int|
                0 <= i < self.stored_snapshots().len()
                    ==> (#[trigger] self.stored_snapshots()[i]).aggregate_id@ != aggregate_id@,
    ;

    /// All currently pending outbox rows, in insertion order.
    fn retrieve_outbox_events(&self) -> (r: Result<Vec<EventEnvelope<A>>, anyhow::Error>)
        ensures
            r matches Ok(v) ==> v@ == self.outbox_events(),
    ;

    /// Publish one event via `bus`, then delete its outbox rows (those
    /// carrying its sequence token), both under one transaction scoped to
    /// the delete: on failure the rows stay eligible for retry, and the
    /// publication may or may not have happened (at-least-once delivery;
    /// downstream consumers dedupe by event identifier).
    fn send_and_delete_outbox_event<B: EventBus<EventEnvelope<A>>>(
        &mut self,
        event: EventEnvelope<A>,
        bus: &mut B,
    ) -> (r: Result<(), anyhow::Error>)
        ensures
            final(self).stored_events() == old(self).stored_events(),
            final(self).stored_snapshots() == old(self).stored_snapshots(),
            r is Ok ==> final(bus).sent() == old(bus).sent().push(event)
                && final(self).outbox_events() == outbox_after_delete(
                old(self).outbox_events(),
                event.sequence@,
            ),
            r is Err ==> final(self).outbox_events() == old(self).outbox_events()
                && (final(bus).sent() == old(bus).sent()
                || final(bus).sent() == old(bus).sent().push(event)),
    ;
}

} // verus!
