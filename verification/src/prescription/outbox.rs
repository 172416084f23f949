//! The outbox relay's service: it reads the pending outbox rows and
//! publishes each to the bus, removing a row only after its publication is
//! acknowledged — at-least-once delivery, with duplicates tolerated
//! downstream.

use vstd::prelude::*;

use crate::event::EventEnvelope;
use crate::ports::{
    lemma_contains_push,
    lemma_outbox_after_delete,
    outbox_after_delete,
    EventBus,
    EventRepository,
};
use crate::prescription::aggregate::PrescriptionAggregate;

verus! {

/// Inbound port: the pending events a relay tick should publish.
pub trait GetEvents<O>: Sized {
    fn get_events(&self) -> Result<Vec<O>, anyhow::Error>;
}

/// Inbound port: publish one pending event and retire its outbox row.
pub trait SendEvent<I>: Sized {
    fn send_event(&mut self, event: I) -> Result<(), anyhow::Error>;
}

/// The relay service over one repository and one bus handle.
pub struct PrescriptionOutboxService<R, B> where
    R: EventRepository<PrescriptionAggregate>,
    B: EventBus<EventEnvelope<PrescriptionAggregate>>,
 {
    pub repository: R,
    pub bus: B,
}

impl<R, B> PrescriptionOutboxService<R, B> where
    R: EventRepository<PrescriptionAggregate>,
    B: EventBus<EventEnvelope<PrescriptionAggregate>>,
 {
    pub fn new(repository: R, bus: B) -> (r: Self)
        ensures
            r.repository == repository,
            r.bus == bus,
    {
        Self { repository, bus }
    }

    /// One relay tick: read every pending outbox row and try to publish
    /// each, continuing past individual failures. A row leaves the outbox
    /// only when an event carrying its sequence token reached the bus
    /// (at-least-once); rows whose publication failed stay for the next
    /// tick, and an empty outbox is a normal condition.
    pub fn relay_pending_events(&mut self)
        ensures
            final(self).repository.stored_events() == old(self).repository.stored_events(),
            final(self).repository.stored_snapshots() == old(self).repository.stored_snapshots(),
            forall|e: EventEnvelope<PrescriptionAggregate>|
                old(self).bus.sent().contains(e) ==> final(self).bus.sent().contains(e),
            forall|e: EventEnvelope<PrescriptionAggregate>|
                #![auto]
                old(self).repository.outbox_events().contains(e) && !final(self).repository.outbox_events().contains(e) ==> exists|
                    p: EventEnvelope<PrescriptionAggregate>,
                |
                    #![auto]
                    final(self).bus.sent().contains(p) && p.sequence@ == e.sequence@,
    {
        let pending_result = self.get_events();
        let pending = match pending_result {
            Ok(v) => v,
            Err(_) => {
                return;
            },
        };
        let n = pending.len();
        let mut i: usize = 0;
        while i < n
            invariant
                n == pending@.len(),
                0 <= i <= n,
                self.repository.stored_events() == old(self).repository.stored_events(),
                self.repository.stored_snapshots() == old(self).repository.stored_snapshots(),
                forall|e: EventEnvelope<PrescriptionAggregate>|
                    old(self).bus.sent().contains(e) ==> self.bus.sent().contains(e),
                forall|e: EventEnvelope<PrescriptionAggregate>|
                    #![auto]
                    old(self).repository.outbox_events().contains(e)
                        && !self.repository.outbox_events().contains(e) ==> exists|
                        p: EventEnvelope<PrescriptionAggregate>,
                    |
                        #![auto]
                        self.bus.sent().contains(p) && p.sequence@ == e.sequence@,
            decreases n - i,
        {
            let ghost pre_step = *self;
            let event = pending[i].clone();
            let ghost gevent = event;
            let send_result = self.send_event(event);
            proof {
                assert forall|e: EventEnvelope<PrescriptionAggregate>|
                    pre_step.bus.sent().contains(e) implies self.bus.sent().contains(e) by {
                    if self.bus.sent() == pre_step.bus.sent().push(gevent) {
                        lemma_contains_push(pre_step.bus.sent(), gevent, e);
                    }
                }
                assert forall|e: EventEnvelope<PrescriptionAggregate>|
                    #![auto]
                    old(self).repository.outbox_events().contains(e)
                        && !self.repository.outbox_events().contains(e) implies exists|
                    p: EventEnvelope<PrescriptionAggregate>,
                |
                    #![auto]
                    self.bus.sent().contains(p) && p.sequence@ == e.sequence@ by {
                    if !pre_step.repository.outbox_events().contains(e) {
                        let p = choose|p: EventEnvelope<PrescriptionAggregate>|
                            #![auto]
                            pre_step.bus.sent().contains(p) && p.sequence@ == e.sequence@;
                        if self.bus.sent() == pre_step.bus.sent().push(gevent) {
                            lemma_contains_push(pre_step.bus.sent(), gevent, p);
                        }
                    } else {
                        lemma_outbox_after_delete(
                            pre_step.repository.outbox_events(),
                            gevent.sequence@,
                            e,
                        );
                        assert(send_result is Ok);
                        assert(e.sequence@ == gevent.sequence@);
                        assert(self.bus.sent() == pre_step.bus.sent().push(gevent));
                        assert(self.bus.sent().last() == gevent);
                        assert(self.bus.sent().contains(gevent));
                    }
                }
            }
            i = i + 1;
        }
    }
}

impl<R, B> GetEvents<EventEnvelope<PrescriptionAggregate>> for PrescriptionOutboxService<
    R,
    B,
> where R: EventRepository<PrescriptionAggregate>, B: EventBus<EventEnvelope<PrescriptionAggregate>> {
    /// All currently pending outbox rows.
    fn get_events(&self) -> (r: Result<Vec<EventEnvelope<PrescriptionAggregate>>, anyhow::Error>)
        ensures
            r matches Ok(v) ==> v@ == self.repository.outbox_events(),
    {
        self.repository.retrieve_outbox_events()
    }
}

impl<R, B> SendEvent<EventEnvelope<PrescriptionAggregate>> for PrescriptionOutboxService<
    R,
    B,
> where R: EventRepository<PrescriptionAggregate>, B: EventBus<EventEnvelope<PrescriptionAggregate>> {
    /// Publish one event and delete its outbox rows; on failure the rows
    /// stay, and the publication may or may not have happened.
    fn send_event(&mut self, event: EventEnvelope<PrescriptionAggregate>) -> (r: Result<
        (),
        anyhow::Error,
    >)
        ensures
            final(self).repository.stored_events() == old(self).repository.stored_events(),
            final(self).repository.stored_snapshots() == old(self).repository.stored_snapshots(),
            r is Ok ==> final(self).bus.sent() == old(self).bus.sent().push(event) && final(self).repository.outbox_events() == outbox_after_delete(
                old(self).repository.outbox_events(),
                event.sequence@,
            ),
            r is Err ==> final(self).repository.outbox_events() == old(self).repository.outbox_events() && (final(self).bus.sent() == old(self).bus.sent() || final(self).bus.sent() == old(self).bus.sent().push(event)),
    {
        self.repository.send_and_delete_outbox_event(event, &mut self.bus)
    }
}

} // verus!
