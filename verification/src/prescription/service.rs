//! The command service: per invocation it hydrates the aggregate (snapshot
//! plus trailing events), runs the pure decision step, folds the decided
//! events in, persists them transactionally alongside an outbox copy, and
//! persists a snapshot when one is due. Create and update share this exact
//! protocol; they differ only in the command supplied and in whether prior
//! history is required.

use vstd::prelude::*;
use vstd::std_specs::convert::FromSpec;

use crate::aggregate::{lemma_replay_push, replay, Aggregate};
use crate::event::{AggregateSnapshot, DomainEvent, EventEnvelope};
use crate::ids::now_millis;
use crate::ports::{selected_events, subsequence_of, token_ordered, EventRepository};
use crate::prescription::aggregate::PrescriptionAggregate;
use crate::prescription::command::{
    CreatePrescriptionCommand,
    PrescriptionCommand,
    UpdatePrescriptionCommand,
};
use crate::prescription::error::PrescriptionError;
use crate::prescription::event::PrescriptionEvent;
use crate::prescription::services::DefaultPrescriptionServices;

verus! {

/// Inbound port: decide and persist a brand-new prescription.
pub trait CreatePrescriptionUseCase<O>: Sized {
    fn create_prescription(
        &mut self,
        prescription: CreatePrescriptionCommand,
        fields: Vec<&str>,
    ) -> Result<O, PrescriptionError>;
}

/// Inbound port: decide and persist an update of an existing prescription.
pub trait UpdatePrescriptionUseCase<O>: Sized {
    fn update_prescription(
        &mut self,
        prescription: UpdatePrescriptionCommand,
        fields: Vec<&str>,
    ) -> Result<O, PrescriptionError>;
}

/// Both use cases share one protocol; a service offers them together.
pub trait ServiceTrait<O>: CreatePrescriptionUseCase<O>
    + UpdatePrescriptionUseCase<O> {

}

/// The payloads of a run of envelopes, in order.
pub open spec fn payloads_of(envelopes: Seq<EventEnvelope<PrescriptionAggregate>>) -> Seq<
    PrescriptionEvent,
> {
    envelopes.map_values(|e: EventEnvelope<PrescriptionAggregate>| e.payload)
}

/// Whether `choice` is a snapshot the repository may hand back as the
/// latest one for `id`: a stored snapshot of that aggregate none of whose
/// rivals has a higher snapshot identifier — or nothing, when the
/// repository stores none for it.
pub open spec fn snapshot_choice<R: EventRepository<PrescriptionAggregate>>(
    repo: R,
    id: Seq<char>,
    choice: Option<AggregateSnapshot<PrescriptionAggregate>>,
) -> bool {
    match choice {
        Some(s) => repo.stored_snapshots().contains(s) && s.aggregate_id@ == id && forall|i: int|
            0 <= i < repo.stored_snapshots().len()
                ==> ((#[trigger] repo.stored_snapshots()[i]).aggregate_id@ == id ==> !crate::ports::lex_gt(
                repo.stored_snapshots()[i].snapshot_id@,
                s.snapshot_id@,
            )),
        None => forall|i: int|
            0 <= i < repo.stored_snapshots().len()
                ==> (#[trigger] repo.stored_snapshots()[i]).aggregate_id@ != id,
    }
}

/// The state hydration resumes from: the chosen snapshot's payload, or the
/// fixed empty default.
pub open spec fn hydration_base(
    choice: Option<AggregateSnapshot<PrescriptionAggregate>>,
) -> PrescriptionAggregate {
    match choice {
        Some(s) => s.payload,
        None => PrescriptionAggregate::default_spec(),
    }
}

/// The sequence token hydration resumes after, if any.
pub open spec fn resume_token(choice: Option<AggregateSnapshot<PrescriptionAggregate>>) -> Option<
    Seq<char>,
> {
    match choice {
        Some(s) => Some(s.last_sequence@),
        None => None,
    }
}

/// The states hydration can reach on `repo` for `id`: some admissible
/// snapshot choice, with the stored events after its resume point — in
/// ascending token order — folded in. (Replay determinism: for a fixed
/// choice and a consistent log the state is a function of the log.)
pub open spec fn hydrates_to<R: EventRepository<PrescriptionAggregate>>(
    repo: R,
    id: Seq<char>,
    agg: PrescriptionAggregate,
) -> bool {
    exists|
        choice: Option<AggregateSnapshot<PrescriptionAggregate>>,
        tail: Seq<EventEnvelope<PrescriptionAggregate>>,
    |
        #![trigger snapshot_choice(repo, id, choice), token_ordered(tail)]
        snapshot_choice(repo, id, choice) && token_ordered(tail) && tail.to_multiset()
            == selected_events(repo.stored_events(), id, resume_token(choice)).to_multiset()
            && agg == replay(hydration_base(choice), payloads_of(tail))
}

/// Whether `env` is the well-formed envelope of `ev` for aggregate `id`:
/// routing fields set, the event's own identifier as sequence token, empty
/// metadata. (The timestamp is the wall clock's and is not pinned.)
pub open spec fn envelope_for(
    env: EventEnvelope<PrescriptionAggregate>,
    ev: PrescriptionEvent,
    id: Seq<char>,
) -> bool {
    env.payload == ev && env.aggregate_id@ == id && env.aggregate_type@ == "prescription"@
        && env.sequence@ == ev.event_id_spec() && env.metadata@ == Seq::<(String, String)>::empty()
}

/// Whether `envs` wraps `events` one for one, in order, for aggregate `id`.
pub open spec fn envelopes_for(
    envs: Seq<EventEnvelope<PrescriptionAggregate>>,
    events: Seq<PrescriptionEvent>,
    id: Seq<char>,
) -> bool {
    envs.len() == events.len() && forall|i: int|
        0 <= i < envs.len() ==> envelope_for(#[trigger] envs[i], events[i], id)
}

/// Wrap each decided event with the aggregate's routing data: the event's
/// own identifier becomes its sequence token, metadata starts empty, and
/// the timestamp is the current wall clock.
pub fn wrap_events(aggregate_id: &String, events: &Vec<PrescriptionEvent>) -> (r: Vec<
    EventEnvelope<PrescriptionAggregate>,
>)
    ensures
        envelopes_for(r@, events@, aggregate_id@),
{
    let mut out: Vec<EventEnvelope<PrescriptionAggregate>> = Vec::new();
    let n = events.len();
    let mut i: usize = 0;
    while i < n
        invariant
            n == events@.len(),
            0 <= i <= n,
            out@.len() == i,
            forall|j: int| 0 <= j < i ==> envelope_for(#[trigger] out@[j], events@[j], aggregate_id@),
        decreases n - i,
    {
        let event = &events[i];
        out.push(
            EventEnvelope {
                aggregate_id: aggregate_id.clone(),
                aggregate_type: "prescription".to_owned(),
                sequence: event.event_id(),
                payload: event.clone(),
                metadata: Vec::new(),
                timestamp: now_millis(),
            },
        );
        i = i + 1;
    }
    out
}

/// After at least one event is folded in, the last one is remembered.
proof fn lemma_replay_last_event(state: PrescriptionAggregate, events: Seq<PrescriptionEvent>)
    requires
        events.len() > 0,
    ensures
        replay(state, events).last_event == Some(events.last()),
    decreases events.len(),
{
    if events.len() == 1 {
        assert(replay(state.apply_spec(events[0]), events.drop_first()) == state.apply_spec(
            events[0],
        ));
    } else {
        lemma_replay_last_event(state.apply_spec(events[0]), events.drop_first());
    }
}

/// What a successful create settles: some freshly identified
/// `PrescriptionCreated` event, decided from the command on the empty
/// state, was applied in memory and appended — with its outbox copy — to
/// the log.
pub open spec fn create_committed<R: EventRepository<PrescriptionAggregate>>(
    pre: R,
    post_repo: R,
    prescription: CreatePrescriptionCommand,
    result_agg: PrescriptionAggregate,
    fid: String,
    feid: String,
    w: Seq<EventEnvelope<PrescriptionAggregate>>,
) -> bool {
    let ev = PrescriptionAggregate::decided_event(
        PrescriptionCommand::CreatePrescription(prescription),
        fid,
        feid,
    );
    let post = PrescriptionAggregate::default_spec().apply_spec(ev);
    &&& fid@.len() == 26
    &&& feid@.len() == 26
    &&& result_agg == post
    &&& post.id == Some(fid)
    &&& envelopes_for(w, seq![ev], fid@)
    &&& post_repo.stored_events() == pre.stored_events() + w
    &&& post_repo.outbox_events() == pre.outbox_events() + w
}

/// What a successful update settles: from some state this repository
/// hydrates for the target identifier, the update decision fired, its
/// freshly identified `PrescriptionUpdated` event was applied in memory
/// and appended — with its outbox copy — to the log, and a snapshot of the
/// new state was persisted when one was due.
pub open spec fn update_committed<R: EventRepository<PrescriptionAggregate>>(
    pre: R,
    post_repo: R,
    prescription: UpdatePrescriptionCommand,
    result_agg: PrescriptionAggregate,
    h: PrescriptionAggregate,
    feid: String,
    w: Seq<EventEnvelope<PrescriptionAggregate>>,
) -> bool {
    let ev = PrescriptionEvent::PrescriptionUpdated {
        address: prescription.address,
        event_id: feid,
    };
    let post = h.apply_spec(ev);
    &&& hydrates_to(pre, prescription.id@, h)
    &&& h.decision_fires(PrescriptionCommand::UpdatePrescription(prescription))
    &&& feid@.len() == 26
    &&& result_agg == post
    &&& post.id matches Some(aid) && envelopes_for(w, seq![ev], aid@)
    &&& post_repo.stored_events() == pre.stored_events() + w
    &&& post_repo.outbox_events() == pre.outbox_events() + w
    &&& (post_repo.stored_snapshots() == pre.stored_snapshots() || (post.snapshot_due() && exists|
        s: AggregateSnapshot<PrescriptionAggregate>,
    |
        #![auto]
        s.payload == post && Some(s.aggregate_id@) == post.aggregate_id_spec()
            && s.aggregate_type@ == PrescriptionAggregate::aggregate_type_spec()
            && Some(s.last_sequence@) == post.last_sequence_spec()
            && post_repo.stored_snapshots() == pre.stored_snapshots().push(s)))
}

/// What a failed create left behind: the log and the outbox grew by the
/// same rows — possibly none — and anything that landed is part of the
/// well-formed envelopes of the single decided event.
pub open spec fn create_aborted<R: EventRepository<PrescriptionAggregate>>(
    pre: R,
    post_repo: R,
    prescription: CreatePrescriptionCommand,
    kept: Seq<EventEnvelope<PrescriptionAggregate>>,
    fid: String,
    feid: String,
    w: Seq<EventEnvelope<PrescriptionAggregate>>,
) -> bool {
    &&& post_repo.stored_events() == pre.stored_events() + kept
    &&& post_repo.outbox_events() == pre.outbox_events() + kept
    &&& (kept.len() > 0 ==> ({
        let ev = PrescriptionAggregate::decided_event(
            PrescriptionCommand::CreatePrescription(prescription),
            fid,
            feid,
        );
        &&& fid@.len() == 26
        &&& feid@.len() == 26
        &&& envelopes_for(w, seq![ev], fid@)
        &&& subsequence_of(kept, w)
    }))
}

/// What a failed update left behind: the log and the outbox grew by the
/// same rows — possibly none — and anything that landed is part of the
/// well-formed envelopes of the event the update decided from some
/// hydrated state; a failure before any decision fired writes nothing.
pub open spec fn update_aborted<R: EventRepository<PrescriptionAggregate>>(
    pre: R,
    post_repo: R,
    prescription: UpdatePrescriptionCommand,
    kept: Seq<EventEnvelope<PrescriptionAggregate>>,
    h: PrescriptionAggregate,
    feid: String,
    w: Seq<EventEnvelope<PrescriptionAggregate>>,
) -> bool {
    &&& post_repo.stored_events() == pre.stored_events() + kept
    &&& post_repo.outbox_events() == pre.outbox_events() + kept
    &&& (kept.len() > 0 ==> ({
        let ev = PrescriptionEvent::PrescriptionUpdated {
            address: prescription.address,
            event_id: feid,
        };
        let post = h.apply_spec(ev);
        &&& hydrates_to(pre, prescription.id@, h)
        &&& h.decision_fires(PrescriptionCommand::UpdatePrescription(prescription))
        &&& feid@.len() == 26
        &&& post.id matches Some(aid) && envelopes_for(w, seq![ev], aid@)
        &&& subsequence_of(kept, w)
    }))
}

/// What a failed commit appended: the same rows in log and outbox —
/// possibly none — and, when anything landed, part of the envelopes of
/// the decided events.
spec fn commit_aborted<R: EventRepository<PrescriptionAggregate>>(
    pre: R,
    post_repo: R,
    events: Seq<PrescriptionEvent>,
    post_agg: PrescriptionAggregate,
    kept: Seq<EventEnvelope<PrescriptionAggregate>>,
    w: Seq<EventEnvelope<PrescriptionAggregate>>,
) -> bool {
    &&& post_repo.stored_events() == pre.stored_events() + kept
    &&& post_repo.outbox_events() == pre.outbox_events() + kept
    &&& (kept.len() > 0 ==> ({
        &&& post_agg.id matches Some(aid) && envelopes_for(w, events, aid@)
        &&& subsequence_of(kept, w)
    }))
}

/// The command service over one repository; both use cases run through it.
pub struct PrescriptionService<R: EventRepository<PrescriptionAggregate>> {
    pub services: DefaultPrescriptionServices,
    pub repository: R,
}

impl<R: EventRepository<PrescriptionAggregate>> PrescriptionService<R> {
    pub fn new(services: DefaultPrescriptionServices, repository: R) -> (r: Self)
        ensures
            r.repository == repository,
    {
        Self { services, repository }
    }
}

/// Fold the decided events into the hydrated state, guard that identity is
/// established, persist the envelopes (with their outbox copies), then
/// persist a snapshot when one is due — best-effort: snapshot failure does
/// not fail the command.
fn commit_decision<R: EventRepository<PrescriptionAggregate>>(
    repository: &mut R,
    hydrated: PrescriptionAggregate,
    events: Vec<PrescriptionEvent>,
) -> (r: Result<PrescriptionAggregate, PrescriptionError>)
    requires
        events@.len() > 0,
    ensures
        ({
            let post = replay(hydrated, events@);
            &&& (post.id is None ==> r is Err && final(repository).stored_events() == old(repository).stored_events() && final(repository).outbox_events() == old(repository).outbox_events())
            &&& (r matches Err(e) ==> e == PrescriptionError::UnknownError)
            &&& (r is Err ==> final(repository).stored_snapshots() == old(repository).stored_snapshots())
            &&& (r is Err ==> exists|
                kept: Seq<EventEnvelope<PrescriptionAggregate>>,
                w: Seq<EventEnvelope<PrescriptionAggregate>>,
            |
                #![auto]
                commit_aborted(*old(repository), *final(repository), events@, post, kept, w))
            &&& (r matches Ok(a) ==> ({
                &&& a == post
                &&& post.id matches Some(aid) && exists|
                    w: Seq<EventEnvelope<PrescriptionAggregate>>,
                |
                    #![auto]
                    envelopes_for(w, events@, aid@) && final(repository).stored_events() == old(repository).stored_events() + w && final(repository).outbox_events() == old(repository).outbox_events() + w
                &&& (final(repository).stored_snapshots() == old(repository).stored_snapshots()
                    || (post.snapshot_due() && exists|
                    s: AggregateSnapshot<PrescriptionAggregate>,
                |
                    #![auto]
                    s.payload == post && Some(s.aggregate_id@) == post.aggregate_id_spec()
                        && s.aggregate_type@ == PrescriptionAggregate::aggregate_type_spec()
                        && Some(s.last_sequence@) == post.last_sequence_spec()
                        && final(repository).stored_snapshots() == old(repository).stored_snapshots().push(s)))
            }))
        }),
{
    let ghost pre_state = hydrated;
    let mut aggregate = hydrated;
    let n = events.len();
    let mut i: usize = 0;
    while i < n
        invariant
            n == events@.len(),
            0 <= i <= n,
            aggregate == replay(pre_state, events@.take(i as int)),
        decreases n - i,
    {
        proof {
            assert(events@.take(i + 1) =~= events@.take(i as int).push(events@[i as int]));
            lemma_replay_push(pre_state, events@.take(i as int), events@[i as int]);
        }
        aggregate.apply(events[i].clone());
        i = i + 1;
    }
    proof {
        assert(events@.take(n as int) =~= events@);
    }
    let aggregate_id = match aggregate.aggregate_id() {
        Some(id) => id,
        None => {
            proof {
                assert(old(repository).stored_events() + Seq::<
                    EventEnvelope<PrescriptionAggregate>,
                >::empty() =~= old(repository).stored_events());
                assert(old(repository).outbox_events() + Seq::<
                    EventEnvelope<PrescriptionAggregate>,
                >::empty() =~= old(repository).outbox_events());
                assert(commit_aborted(
                    *old(repository),
                    *repository,
                    events@,
                    replay(pre_state, events@),
                    Seq::empty(),
                    Seq::empty(),
                ));
            }
            return Err(PrescriptionError::UnknownError);
        },
    };
    let wrapped = wrap_events(&aggregate_id, &events);
    let ghost gw = wrapped@;
    let store_result = repository.store_events(wrapped);
    match store_result {
        Err(_) => {
            proof {
                let kept = choose|kept: Seq<EventEnvelope<PrescriptionAggregate>>|
                    #![auto]
                    subsequence_of(kept, gw) && repository.stored_events() == old(repository).stored_events() + kept && repository.outbox_events() == old(repository).outbox_events() + kept;
                assert(aggregate.id is Some);
                assert(envelopes_for(gw, events@, aggregate.id->0@));
                assert(commit_aborted(
                    *old(repository),
                    *repository,
                    events@,
                    replay(pre_state, events@),
                    kept,
                    gw,
                ));
            }
            return Err(PrescriptionError::UnknownError);
        },
        Ok(_) => {},
    }
    proof {
        lemma_replay_last_event(pre_state, events@);
    }
    let snapshot_result = aggregate.snapshot();
    match snapshot_result {
        Some(snapshot) => {
            match repository.store_snapshot(snapshot) {
                Ok(_) => {},
                Err(_) => {},
            }
        },
        None => {},
    }
    Ok(aggregate)
}

impl<R: EventRepository<PrescriptionAggregate>> PrescriptionService<R> {
    /// Decide a new prescription on the empty state, fold the decided
    /// event in, and persist it with its outbox copy. Storage failure is
    /// collapsed to `UnknownError`; the decision itself cannot fail here.
    pub fn create_prescription<O: From<PrescriptionAggregate>>(
        &mut self,
        prescription: CreatePrescriptionCommand,
        _fields: Vec<&str>,
    ) -> (r: Result<O, PrescriptionError>)
        ensures
            r matches Ok(o) ==> exists|
                a: PrescriptionAggregate,
                fid: String,
                feid: String,
                w: Seq<EventEnvelope<PrescriptionAggregate>>,
            |
                #![auto]
                create_committed(
                    old(self).repository,
                    final(self).repository,
                    prescription,
                    a,
                    fid,
                    feid,
                    w,
                ) && (O::obeys_from_spec() ==> o == O::from_spec(a)),
            r matches Err(e) ==> e == PrescriptionError::UnknownError,
            r is Err ==> exists|
                kept: Seq<EventEnvelope<PrescriptionAggregate>>,
                fid: String,
                feid: String,
                w: Seq<EventEnvelope<PrescriptionAggregate>>,
            |
                #![auto]
                create_aborted(
                    old(self).repository,
                    final(self).repository,
                    prescription,
                    kept,
                    fid,
                    feid,
                    w,
                ),
            final(self).repository.stored_snapshots() == old(self).repository.stored_snapshots(),
    {
        let aggregate = PrescriptionAggregate::default();
        let command = PrescriptionCommand::from(prescription);
        let ghost gcmd = command;
        let events_result = aggregate.handle(command, &self.services);
        match events_result {
            Ok(events) => {
                let ghost gevents = events@;
                let commit_result = commit_decision(&mut self.repository, aggregate, events);
                match commit_result {
                    Ok(committed) => {
                        proof {
                            let (fid, feid) = choose|fid: String, feid: String|
                                #![auto]
                                fid@.len() == 26 && feid@.len() == 26 && gevents == seq![
                                    PrescriptionAggregate::decided_event(gcmd, fid, feid),
                                ];
                            let ev = PrescriptionAggregate::decided_event(gcmd, fid, feid);
                            assert(seq![ev].drop_first() =~= Seq::<PrescriptionEvent>::empty());
                            assert(replay(
                                PrescriptionAggregate::default_spec().apply_spec(ev),
                                Seq::<PrescriptionEvent>::empty(),
                            ) == PrescriptionAggregate::default_spec().apply_spec(ev));
                            let post = PrescriptionAggregate::default_spec().apply_spec(ev);
                            assert(replay(PrescriptionAggregate::default_spec(), gevents) == post);
                            assert(committed == post);
                            let w = choose|w: Seq<EventEnvelope<PrescriptionAggregate>>|
                                #![auto]
                                envelopes_for(w, gevents, fid@) && self.repository.stored_events()
                                    == old(self).repository.stored_events() + w
                                    && self.repository.outbox_events() == old(self).repository.outbox_events() + w;
                            assert(envelopes_for(w, seq![ev], fid@));
                            assert(create_committed(
                                old(self).repository,
                                self.repository,
                                prescription,
                                committed,
                                fid,
                                feid,
                                w,
                            ));
                        }
                        let output = O::from(committed);
                        Ok(output)
                    },
                    Err(e) => {
                        proof {
                            let (fid, feid) = choose|fid: String, feid: String|
                                #![auto]
                                fid@.len() == 26 && feid@.len() == 26 && gevents == seq![
                                    PrescriptionAggregate::decided_event(gcmd, fid, feid),
                                ];
                            let ev = PrescriptionAggregate::decided_event(gcmd, fid, feid);
                            assert(seq![ev].drop_first() =~= Seq::<PrescriptionEvent>::empty());
                            assert(replay(
                                PrescriptionAggregate::default_spec().apply_spec(ev),
                                Seq::<PrescriptionEvent>::empty(),
                            ) == PrescriptionAggregate::default_spec().apply_spec(ev));
                            let post = PrescriptionAggregate::default_spec().apply_spec(ev);
                            assert(replay(PrescriptionAggregate::default_spec(), gevents) == post);
                            let (kept, w) = choose|
                                kept: Seq<EventEnvelope<PrescriptionAggregate>>,
                                w: Seq<EventEnvelope<PrescriptionAggregate>>,
                            |
                                #![auto]
                                commit_aborted(
                                    old(self).repository,
                                    self.repository,
                                    gevents,
                                    post,
                                    kept,
                                    w,
                                );
                            if kept.len() > 0 {
                                assert(envelopes_for(w, seq![ev], fid@));
                            }
                            assert(create_aborted(
                                old(self).repository,
                                self.repository,
                                prescription,
                                kept,
                                fid,
                                feid,
                                w,
                            ));
                        }
                        Err(e)
                    },
                }
            },
            Err(_) => {
                proof {
                    assert(false);
                }
                Err(PrescriptionError::UnknownError)
            },
        }
    }
}

impl<R: EventRepository<PrescriptionAggregate>> PrescriptionService<R> {
    /// Hydrate the aggregate (latest snapshot plus trailing events, or the
    /// whole log), decide the update on that state, fold the decided event
    /// in, persist it with its outbox copy, and persist a snapshot when
    /// one is due. A prescription never created rejects the command with
    /// `StateMachineTransitionFail`; storage failures collapse to
    /// `UnknownError`.
    pub fn update_prescription<O: From<PrescriptionAggregate>>(
        &mut self,
        prescription: UpdatePrescriptionCommand,
        _fields: Vec<&str>,
    ) -> (r: Result<O, PrescriptionError>)
        ensures
            r matches Ok(o) ==> exists|
                a: PrescriptionAggregate,
                h: PrescriptionAggregate,
                feid: String,
                w: Seq<EventEnvelope<PrescriptionAggregate>>,
            |
                #![auto]
                update_committed(
                    old(self).repository,
                    final(self).repository,
                    prescription,
                    a,
                    h,
                    feid,
                    w,
                ) && (O::obeys_from_spec() ==> o == O::from_spec(a)),
            r matches Err(e) ==> (e == PrescriptionError::UnknownError || (e matches
                PrescriptionError::StateMachineTransitionFail(n) && n@ == "UpdatePrescription"@)),
            (r matches Err(e) && e matches PrescriptionError::StateMachineTransitionFail(_)) ==> (
            final(self).repository.stored_events() == old(self).repository.stored_events() && final(self).repository.outbox_events() == old(self).repository.outbox_events() && exists|
                h: PrescriptionAggregate,
            |
                #![auto]
                hydrates_to(old(self).repository, prescription.id@, h) && !h.decision_fires(
                    PrescriptionCommand::UpdatePrescription(prescription),
                )),
            r is Err ==> final(self).repository.stored_snapshots() == old(self).repository.stored_snapshots(),
            r is Err ==> exists|
                kept: Seq<EventEnvelope<PrescriptionAggregate>>,
                h: PrescriptionAggregate,
                feid: String,
                w: Seq<EventEnvelope<PrescriptionAggregate>>,
            |
                #![auto]
                update_aborted(
                    old(self).repository,
                    final(self).repository,
                    prescription,
                    kept,
                    h,
                    feid,
                    w,
                ),
    {
        proof {
            assert(old(self).repository.stored_events() + Seq::<
                EventEnvelope<PrescriptionAggregate>,
            >::empty() =~= old(self).repository.stored_events());
            assert(old(self).repository.outbox_events() + Seq::<
                EventEnvelope<PrescriptionAggregate>,
            >::empty() =~= old(self).repository.outbox_events());
        }
        let mut aggregate = PrescriptionAggregate::default();
        let snapshot_result = self.repository.retrieve_latest_snapshot(prescription.id.clone());
        let snapshot = match snapshot_result {
            Ok(s) => s,
            Err(_) => {
                proof {
                    assert(update_aborted(
                        old(self).repository,
                        self.repository,
                        prescription,
                        Seq::empty(),
                        PrescriptionAggregate::default_spec(),
                        prescription.id,
                        Seq::empty(),
                    ));
                }
                return Err(PrescriptionError::UnknownError);
            },
        };
        let ghost gchoice = snapshot;
        let events_result = match snapshot {
            Some(found) => {
                aggregate = found.payload;
                self.repository.retrieve_events(
                    prescription.id.clone(),
                    Some(found.last_sequence),
                )
            },
            None => self.repository.retrieve_events(prescription.id.clone(), None),
        };
        let past_events = match events_result {
            Ok(v) => v,
            Err(_) => {
                proof {
                    assert(update_aborted(
                        old(self).repository,
                        self.repository,
                        prescription,
                        Seq::empty(),
                        PrescriptionAggregate::default_spec(),
                        prescription.id,
                        Seq::empty(),
                    ));
                }
                return Err(PrescriptionError::UnknownError);
            },
        };
        let ghost base = aggregate;
        let n = past_events.len();
        let mut i: usize = 0;
        while i < n
            invariant
                n == past_events@.len(),
                0 <= i <= n,
                aggregate == replay(base, payloads_of(past_events@).take(i as int)),
            decreases n - i,
        {
            proof {
                assert(payloads_of(past_events@).take(i + 1) =~= payloads_of(past_events@).take(
                    i as int,
                ).push(payloads_of(past_events@)[i as int]));
                lemma_replay_push(
                    base,
                    payloads_of(past_events@).take(i as int),
                    payloads_of(past_events@)[i as int],
                );
            }
            aggregate.apply(past_events[i].payload.clone());
            i = i + 1;
        }
        proof {
            assert(payloads_of(past_events@).take(n as int) =~= payloads_of(past_events@));
            assert(snapshot_choice(old(self).repository, prescription.id@, gchoice));
            assert(token_ordered(past_events@));
            assert(past_events@.to_multiset() == selected_events(
                old(self).repository.stored_events(),
                prescription.id@,
                resume_token(gchoice),
            ).to_multiset());
            assert(aggregate == replay(hydration_base(gchoice), payloads_of(past_events@)));
            assert(hydrates_to(old(self).repository, prescription.id@, aggregate));
        }
        let ghost hydrated = aggregate;
        let command = PrescriptionCommand::from(prescription);
        let ghost gcmd = command;
        let events_decided = aggregate.handle(command, &self.services);
        match events_decided {
            Ok(events) => {
                let ghost gevents = events@;
                let commit_result = commit_decision(&mut self.repository, aggregate, events);
                match commit_result {
                    Ok(committed) => {
                        proof {
                            let (fid, feid) = choose|fid: String, feid: String|
                                #![auto]
                                fid@.len() == 26 && feid@.len() == 26 && gevents == seq![
                                    PrescriptionAggregate::decided_event(gcmd, fid, feid),
                                ];
                            let ev = PrescriptionAggregate::decided_event(gcmd, fid, feid);
                            assert(seq![ev].drop_first() =~= Seq::<PrescriptionEvent>::empty());
                            assert(replay(hydrated.apply_spec(ev), Seq::<
                                PrescriptionEvent,
                            >::empty()) == hydrated.apply_spec(ev));
                            let post = hydrated.apply_spec(ev);
                            assert(replay(hydrated, gevents) == post);
                            assert(committed == post);
                            let aid = post.id->0;
                            let w = choose|w: Seq<EventEnvelope<PrescriptionAggregate>>|
                                #![auto]
                                envelopes_for(w, gevents, aid@) && self.repository.stored_events()
                                    == old(self).repository.stored_events() + w
                                    && self.repository.outbox_events() == old(self).repository.outbox_events() + w;
                            assert(envelopes_for(w, seq![ev], aid@));
                            assert(update_committed(
                                old(self).repository,
                                self.repository,
                                prescription,
                                committed,
                                hydrated,
                                feid,
                                w,
                            ));
                        }
                        let output = O::from(committed);
                        Ok(output)
                    },
                    Err(e) => {
                        proof {
                            let (fid, feid) = choose|fid: String, feid: String|
                                #![auto]
                                fid@.len() == 26 && feid@.len() == 26 && gevents == seq![
                                    PrescriptionAggregate::decided_event(gcmd, fid, feid),
                                ];
                            let ev = PrescriptionAggregate::decided_event(gcmd, fid, feid);
                            assert(seq![ev].drop_first() =~= Seq::<PrescriptionEvent>::empty());
                            assert(replay(hydrated.apply_spec(ev), Seq::<
                                PrescriptionEvent,
                            >::empty()) == hydrated.apply_spec(ev));
                            let post = hydrated.apply_spec(ev);
                            assert(replay(hydrated, gevents) == post);
                            let (kept, w) = choose|
                                kept: Seq<EventEnvelope<PrescriptionAggregate>>,
                                w: Seq<EventEnvelope<PrescriptionAggregate>>,
                            |
                                #![auto]
                                commit_aborted(
                                    old(self).repository,
                                    self.repository,
                                    gevents,
                                    post,
                                    kept,
                                    w,
                                );
                            if kept.len() > 0 {
                                assert(post.id matches Some(aid) && envelopes_for(
                                    w,
                                    seq![ev],
                                    aid@,
                                ));
                            }
                            assert(update_aborted(
                                old(self).repository,
                                self.repository,
                                prescription,
                                kept,
                                hydrated,
                                feid,
                                w,
                            ));
                        }
                        Err(e)
                    },
                }
            },
            Err(e) => {
                proof {
                    assert(update_aborted(
                        old(self).repository,
                        self.repository,
                        prescription,
                        Seq::empty(),
                        hydrated,
                        prescription.id,
                        Seq::empty(),
                    ));
                }
                Err(e)
            },
        }
    }
}

impl<
    R: EventRepository<PrescriptionAggregate>,
    O: From<PrescriptionAggregate>,
> CreatePrescriptionUseCase<O> for PrescriptionService<R> {
    fn create_prescription(
        &mut self,
        prescription: CreatePrescriptionCommand,
        fields: Vec<&str>,
    ) -> Result<O, PrescriptionError> {
        self.create_prescription(prescription, fields)
    }
}

impl<
    R: EventRepository<PrescriptionAggregate>,
    O: From<PrescriptionAggregate>,
> UpdatePrescriptionUseCase<O> for PrescriptionService<R> {
    fn update_prescription(
        &mut self,
        prescription: UpdatePrescriptionCommand,
        fields: Vec<&str>,
    ) -> Result<O, PrescriptionError> {
        self.update_prescription(prescription, fields)
    }
}

impl<
    R: EventRepository<PrescriptionAggregate>,
    O: From<PrescriptionAggregate>,
> ServiceTrait<O> for PrescriptionService<R> {

}

} // verus!
