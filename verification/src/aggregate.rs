//! The aggregate contract: the interface a business entity implements to
//! decide events from a command, fold events into state, and offer
//! snapshots; together with the replay function and its laws.

use vstd::prelude::*;

use crate::event::{AggregateSnapshot, DomainEvent};

verus! {

/// The consistency-boundary entity whose state is derived purely from its
/// event history: created from a fixed empty default, mutated only through
/// `apply`, never mutated directly by commands.
pub trait Aggregate: Default + Sized {
    type Command;

    type Event: DomainEvent;

    type Error;

    /// External capability set consulted by the decision step.
    type Services;

    /// Static type tag, constant per aggregate kind.
    spec fn aggregate_type_spec() -> Seq<char>;

    /// The identifier once known; `None` before the entity exists.
    spec fn aggregate_id_spec(self) -> Option<Seq<char>>;

    /// How one event mutates the state; `apply` is total and deterministic.
    spec fn apply_spec(self, event: Self::Event) -> Self;

    /// Whether the snapshot policy threshold is met.
    spec fn snapshot_due(self) -> bool;

    /// States in which taking a snapshot is meaningful: whenever one is due,
    /// the identifier and the last folded event must be known.
    spec fn snapshot_ready(self) -> bool;

    /// The sequence token of the last event folded into this state.
    spec fn last_sequence_spec(self) -> Option<Seq<char>>;

    fn aggregate_type() -> (r: String)
        ensures
            r@ == Self::aggregate_type_spec(),
    ;

    fn aggregate_id(&self) -> (r: Option<String>)
        ensures
            match r {
                Some(id) => self.aggregate_id_spec() == Some(id@),
                None => self.aggregate_id_spec() is None,
            },
    ;

    /// Pure decision step: must not mutate `self` (it takes `&self`) and
    /// must not perform storage work itself. What it decides is specific to
    /// the aggregate kind, so the contract lives on each implementation.
    fn handle(&self, command: Self::Command, services: &Self::Services) -> (r: Result<
        Vec<Self::Event>,
        Self::Error,
    >);

    /// Fold one event into the state; total over all event variants.
    fn apply(&mut self, event: Self::Event)
        ensures
            *final(self) == old(self).apply_spec(event),
    ;

    /// A snapshot exactly when the policy threshold is met, else `None`.
    /// Side-effect-free beyond reading counters.
    fn snapshot(&mut self) -> (r: Option<AggregateSnapshot<Self>>)
        requires
            old(self).snapshot_ready(),
        ensures
            *final(self) == *old(self),
            r is Some <==> old(self).snapshot_due(),
            match r {
                Some(s) => s.payload == *old(self) && Some(s.aggregate_id@)
                    == old(self).aggregate_id_spec() && s.aggregate_type@
                    == Self::aggregate_type_spec() && Some(s.last_sequence@)
                    == old(self).last_sequence_spec(),
                None => true,
            },
    ;
}

/// The state reached by folding `events` into `state` via `apply`, in order.
pub open spec fn replay<A: Aggregate>(state: A, events: Seq<A::Event>) -> A
    decreases events.len(),
{
    if events.len() == 0 {
        state
    } else {
        replay(state.apply_spec(events[0]), events.drop_first())
    }
}

/// Replay determinism over any split of the log: folding a prefix and then
/// the tail reaches exactly the state of folding the whole log in one pass.
/// In particular, hydrating from a snapshot (the state reached by the
/// prefix) plus the trailing events equals replaying every event from
/// scratch, for all sequence-token splits.
pub proof fn lemma_replay_split<A: Aggregate>(state: A, prefix: Seq<A::Event>, tail: Seq<A::Event>)
    ensures
        replay(state, prefix + tail) == replay(replay(state, prefix), tail),
    decreases prefix.len(),
{
    if prefix.len() == 0 {
        assert(prefix + tail =~= tail);
    } else {
        assert((prefix + tail)[0] == prefix[0]);
        assert((prefix + tail).drop_first() =~= prefix.drop_first() + tail);
        lemma_replay_split(state.apply_spec(prefix[0]), prefix.drop_first(), tail);
    }
}

/// Snapshot equivalence over every split point: replaying the whole log
/// equals replaying a prefix — the state a snapshot captures — and then
/// the remaining tail, whatever the split. (That the stored tail after a
/// snapshot's resume token *is* that remaining tail depends on the
/// writers keeping tokens unique and ascending, which the engine's own
/// writers do but the port cannot force on arbitrary logs.)
pub proof fn lemma_snapshot_equivalence<A: Aggregate>(state: A, events: Seq<A::Event>, split: int)
    requires
        0 <= split <= events.len(),
    ensures
        replay(state, events) == replay(replay(state, events.take(split)), events.skip(split)),
{
    assert(events.take(split) + events.skip(split) =~= events);
    lemma_replay_split(state, events.take(split), events.skip(split));
}

/// Folding one more event commutes with `replay`: appending `event` to the
/// log and replaying equals replaying and then applying `event`.
pub proof fn lemma_replay_push<A: Aggregate>(state: A, events: Seq<A::Event>, event: A::Event)
    ensures
        replay(state, events.push(event)) == replay(state, events).apply_spec(event),
    decreases events.len(),
{
    if events.len() == 0 {
        assert(events.push(event)[0] == event);
        assert(events.push(event).drop_first() =~= Seq::<A::Event>::empty());
        assert(replay(state.apply_spec(event), Seq::<A::Event>::empty()) == state.apply_spec(
            event,
        ));
    } else {
        assert(events.push(event)[0] == events[0]);
        assert(events.push(event).drop_first() =~= events.drop_first().push(event));
        lemma_replay_push(state.apply_spec(events[0]), events.drop_first(), event);
    }
}

} // verus!
