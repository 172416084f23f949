//! The prescription aggregate: its state, its decision step (one run of the
//! prescription machine), its event fold, and its snapshot policy.

use vstd::prelude::*;

use crate::aggregate::Aggregate;
use crate::event::{AggregateSnapshot, DomainEvent};
use crate::ids::{new_ulid, now_millis};
use crate::machine::{Condition, first_match, has_key, key_index, lemma_first_match_is_first,
    run_actions, State};
use crate::prescription::command::PrescriptionCommand;
use crate::prescription::context::PrescriptionContext;
use crate::prescription::error::PrescriptionError;
use crate::prescription::event::PrescriptionEvent;
use crate::prescription::machine::{create_prescription_machine, Created, New, States};
use crate::prescription::services::DefaultPrescriptionServices;

verus! {

/// The prescription entity, derived purely from its event history.
pub struct PrescriptionAggregate {
    pub id: Option<String>,
    pub patient_id: Option<String>,
    pub medication_id: Option<String>,
    pub address: Option<String>,
    /// The last applied event; it implies the machine state.
    pub last_event: Option<PrescriptionEvent>,
    /// How many events have been folded into this state.
    pub applied_events: i32,
}

/// A copy of an optional string, preserving the value exactly.
fn clone_opt_string(v: &Option<String>) -> (r: Option<String>)
    ensures
        r == *v,
{
    match v {
        Some(s) => Some(s.clone()),
        None => None,
    }
}

impl Clone for PrescriptionAggregate {
    fn clone(&self) -> (r: Self)
        ensures
            r == *self,
    {
        PrescriptionAggregate {
            id: clone_opt_string(&self.id),
            patient_id: clone_opt_string(&self.patient_id),
            medication_id: clone_opt_string(&self.medication_id),
            address: clone_opt_string(&self.address),
            last_event: match &self.last_event {
                Some(e) => Some(e.clone()),
                None => None,
            },
            applied_events: self.applied_events,
        }
    }
}

impl PrescriptionAggregate {
    /// The fixed empty default every lifecycle starts from.
    pub open spec fn default_spec() -> PrescriptionAggregate {
        PrescriptionAggregate {
            id: None,
            patient_id: None,
            medication_id: None,
            address: None,
            last_event: None,
            applied_events: 0,
        }
    }

    /// The machine state implied by the last applied event: before any
    /// event the prescription is `New`; after any event it is `Created`.
    /// The state is derived, never stored, so state and history cannot
    /// diverge.
    pub open spec fn machine_state(self) -> States {
        if self.last_event is Some {
            States::Created
        } else {
            States::New
        }
    }

    /// Whether some transition of the derived machine state fires on
    /// `command`: create applies to a `New` prescription, update to a
    /// `Created` one.
    pub open spec fn decision_fires(self, command: PrescriptionCommand) -> bool {
        match self.machine_state() {
            States::New => command matches PrescriptionCommand::CreatePrescription(_),
            States::Created => command matches PrescriptionCommand::UpdatePrescription(_),
        }
    }

    /// The event a firing decision emits, given the fresh identifiers the
    /// run would assign.
    pub open spec fn decided_event(
        command: PrescriptionCommand,
        fresh_id: String,
        fresh_event_id: String,
    ) -> PrescriptionEvent {
        match command {
            PrescriptionCommand::CreatePrescription(c) => PrescriptionEvent::PrescriptionCreated {
                id: fresh_id,
                patient_id: c.patient_id,
                medication_id: c.medication_id,
                address: c.address,
                event_id: fresh_event_id,
            },
            PrescriptionCommand::UpdatePrescription(u) => PrescriptionEvent::PrescriptionUpdated {
                address: u.address,
                event_id: fresh_event_id,
            },
        }
    }
}

impl Default for PrescriptionAggregate {
    fn default() -> (r: Self)
        ensures
            r == PrescriptionAggregate::default_spec(),
    {
        PrescriptionAggregate {
            id: None,
            patient_id: None,
            medication_id: None,
            address: None,
            last_event: None,
            applied_events: 0,
        }
    }
}

impl Aggregate for PrescriptionAggregate {
    type Command = PrescriptionCommand;

    type Event = PrescriptionEvent;

    type Error = PrescriptionError;

    type Services = DefaultPrescriptionServices;

    open spec fn aggregate_type_spec() -> Seq<char> {
        "Prescription"@
    }

    open spec fn aggregate_id_spec(self) -> Option<Seq<char>> {
        match self.id {
            Some(id) => Some(id@),
            None => None,
        }
    }

    open spec fn apply_spec(self, event: PrescriptionEvent) -> PrescriptionAggregate {
        let applied_events = if self.applied_events == i32::MAX {
            i32::MAX
        } else {
            (self.applied_events + 1) as i32
        };
        match event {
            PrescriptionEvent::PrescriptionCreated {
                id,
                patient_id,
                medication_id,
                address,
                ..
            } => PrescriptionAggregate {
                id: Some(id),
                patient_id: Some(patient_id),
                medication_id: Some(medication_id),
                address: Some(address),
                last_event: Some(event),
                applied_events,
            },
            PrescriptionEvent::PrescriptionUpdated { address, .. } => PrescriptionAggregate {
                address: Some(address),
                last_event: Some(event),
                applied_events,
                ..self
            },
        }
    }

    open spec fn snapshot_due(self) -> bool {
        self.applied_events >= 10
    }

    open spec fn snapshot_ready(self) -> bool {
        self.applied_events >= 10 ==> self.id is Some && self.last_event is Some
    }

    open spec fn last_sequence_spec(self) -> Option<Seq<char>> {
        match self.last_event {
            Some(e) => Some(e.event_id_spec()),
            None => None,
        }
    }

    fn aggregate_type() -> (r: String) {
        "Prescription".to_owned()
    }

    fn aggregate_id(&self) -> (r: Option<String>) {
        clone_opt_string(&self.id)
    }

    /// One run of the prescription machine, seeded at the derived state:
    /// exactly one event comes out when a transition fires, else the
    /// command's name comes back as a transition failure. The decision
    /// step borrows the aggregate immutably: nothing in it changes until
    /// `apply` folds the decided events in.
    fn handle(&self, command: PrescriptionCommand, _services: &DefaultPrescriptionServices) -> (r:
        Result<Vec<PrescriptionEvent>, PrescriptionError>)
        ensures
            r is Ok <==> self.decision_fires(command),
            r matches Ok(v) ==> exists|fresh_id: String, fresh_event_id: String|
                fresh_id@.len() == 26 && fresh_event_id@.len() == 26 && v@ == seq![
                    PrescriptionAggregate::decided_event(command, fresh_id, fresh_event_id),
                ],
            r matches Err(e) ==> (e matches PrescriptionError::StateMachineTransitionFail(name)
                && name@ == command.to_string_spec()),
    {
        let initial = match &self.last_event {
            Some(PrescriptionEvent::PrescriptionCreated { .. }) => States::Created,
            Some(PrescriptionEvent::PrescriptionUpdated { .. }) => States::Created,
            None => States::New,
        };
        let mut fsm = create_prescription_machine(initial);
        let fresh_id = new_ulid();
        let fresh_event_id = new_ulid();
        let ghost gid = fresh_id;
        let ghost geid = fresh_event_id;
        let mut context = PrescriptionContext::new(fresh_id, fresh_event_id);
        context.set_command(command.clone());
        let ghost m0 = fsm;
        let ghost c0 = context;
        fsm.decide(&mut context);
        proof {
            let table = m0.states@;
            assert(table.drop_first()[0] == table[1]);
            assert(table[0].0 == States::New);
            assert(table[1].0 == States::Created);
            assert(has_key(table, States::New));
            assert(has_key(table, States::Created));
            assert(key_index(table, States::New) == 0);
            assert(key_index(table.drop_first(), States::Created) == 0);
            assert(key_index(table, States::Created) == 1);
            let ts = m0.spec_state(m0.active_state).transitions@;
            assert(ts.len() == 1);
            if c0.command matches Some(c) && m0.spec_state(
                m0.active_state,
            ).transitions@[0].condition.holds(c0) {
                lemma_first_match_is_first(ts, c0, 0);
                assert(run_actions(ts[0].actions@, New.exit_effect(c0)) == New.exit_effect(c0));
                assert(run_actions(ts[0].actions@, Created.exit_effect(c0)) == Created.exit_effect(
                    c0,
                ));
            } else {
                assert(ts.drop_first() =~= Seq::<
                    crate::machine::FSMTransition<
                        States,
                        crate::prescription::machine::PrescriptionGuard,
                        crate::prescription::machine::PrescriptionAction,
                    >,
                >::empty());
                assert(first_match(ts.drop_first(), c0) is None);
                assert(first_match(ts, c0) is None);
            }
        }
        proof {
            if self.decision_fires(command) {
                assert(c0.command == Some(command));
                assert(context.event == Some(
                    PrescriptionAggregate::decided_event(command, gid, geid),
                ));
            } else {
                assert(context.event is None);
            }
        }
        let result = match context.get_event() {
            Some(x) => Ok(vec![x.clone()]),
            None => Err(PrescriptionError::StateMachineTransitionFail(command.to_string())),
        };
        proof {
            if self.decision_fires(command) {
                let v = result->Ok_0;
                assert(v@ =~= seq![PrescriptionAggregate::decided_event(command, gid, geid)]);
                assert(gid@.len() == 26 && geid@.len() == 26 && v@ == seq![
                    PrescriptionAggregate::decided_event(command, gid, geid),
                ]);
            }
        }
        result
    }

    fn apply(&mut self, event: PrescriptionEvent) {
        if self.applied_events < i32::MAX {
            self.applied_events = self.applied_events + 1;
        }
        match &event {
            PrescriptionEvent::PrescriptionCreated {
                id,
                patient_id,
                medication_id,
                address,
                ..
            } => {
                self.id = Some(id.clone());
                self.medication_id = Some(medication_id.clone());
                self.patient_id = Some(patient_id.clone());
                self.address = Some(address.clone());
                self.last_event = Some(event);
            },
            PrescriptionEvent::PrescriptionUpdated { address, .. } => {
                self.address = Some(address.clone());
                self.last_event = Some(event);
            },
        }
    }

    fn snapshot(&mut self) -> (r: Option<AggregateSnapshot<PrescriptionAggregate>>) {
        if self.applied_events >= 10 {
            let payload = self.clone();
            let aggregate_id = match &self.id {
                Some(id) => id.clone(),
                None => {
                    proof {
                        assert(false);
                    }
                    String::new()
                },
            };
            let last_sequence = match &self.last_event {
                Some(e) => e.event_id(),
                None => {
                    proof {
                        assert(false);
                    }
                    String::new()
                },
            };
            let snapshot = AggregateSnapshot {
                aggregate_id,
                aggregate_type: Self::aggregate_type(),
                payload,
                last_sequence,
                snapshot_id: new_ulid(),
                timestamp: now_millis(),
            };
            Some(snapshot)
        } else {
            None
        }
    }
}

} // verus!
