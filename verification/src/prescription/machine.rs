//! The prescription lifecycle as an instantiation of the generic machine:
//! a `New` prescription becomes `Created` on a create command, and a
//! `Created` one stays `Created` on an update command.

use vstd::prelude::*;

use crate::machine::{Action, Condition, FSM, FSMState, State, StateId};
use crate::prescription::command::PrescriptionCommand;
use crate::prescription::context::PrescriptionContext;
use crate::prescription::event::PrescriptionEvent;

verus! {

/// Identifiers of the prescription machine's states.
#[derive(Clone, Copy)]
pub enum States {
    New,
    Created,
}

impl StateId for States {
    fn same(&self, other: &Self) -> (r: bool) {
        match (self, other) {
            (States::New, States::New) => true,
            (States::Created, States::Created) => true,
            _ => false,
        }
    }
}

/// Behaviour of a prescription that does not exist yet: leaving this state
/// on a create command decides the `PrescriptionCreated` event.
pub struct New;

impl State<PrescriptionContext> for New {
    open spec fn entry_effect(self, pre: PrescriptionContext) -> PrescriptionContext {
        pre
    }

    open spec fn exit_effect(self, pre: PrescriptionContext) -> PrescriptionContext {
        match pre.command {
            Some(PrescriptionCommand::CreatePrescription(c)) => PrescriptionContext {
                event: Some(
                    PrescriptionEvent::PrescriptionCreated {
                        id: pre.fresh_id,
                        patient_id: c.patient_id,
                        medication_id: c.medication_id,
                        address: c.address,
                        event_id: pre.fresh_event_id,
                    },
                ),
                ..pre
            },
            _ => pre,
        }
    }

    open spec fn update_effect(self, pre: PrescriptionContext) -> PrescriptionContext {
        pre
    }

    fn entry(&self, _context: &mut PrescriptionContext) {
    }

    fn exit(&self, context: &mut PrescriptionContext) {
        let event = match &context.command {
            Some(PrescriptionCommand::CreatePrescription(c)) => Some(
                PrescriptionEvent::PrescriptionCreated {
                    id: context.fresh_id.clone(),
                    patient_id: c.patient_id.clone(),
                    medication_id: c.medication_id.clone(),
                    address: c.address.clone(),
                    event_id: context.fresh_event_id.clone(),
                },
            ),
            _ => None,
        };
        match event {
            Some(e) => {
                context.event = Some(e);
            },
            None => {},
        }
    }

    fn update(&self, _context: &mut PrescriptionContext) {
    }
}

/// Behaviour of an existing prescription: leaving this state on an update
/// command decides the `PrescriptionUpdated` event.
pub struct Created;

impl State<PrescriptionContext> for Created {
    open spec fn entry_effect(self, pre: PrescriptionContext) -> PrescriptionContext {
        pre
    }

    open spec fn exit_effect(self, pre: PrescriptionContext) -> PrescriptionContext {
        match pre.command {
            Some(PrescriptionCommand::UpdatePrescription(u)) => PrescriptionContext {
                event: Some(
                    PrescriptionEvent::PrescriptionUpdated {
                        address: u.address,
                        event_id: pre.fresh_event_id,
                    },
                ),
                ..pre
            },
            _ => pre,
        }
    }

    open spec fn update_effect(self, pre: PrescriptionContext) -> PrescriptionContext {
        pre
    }

    fn entry(&self, _context: &mut PrescriptionContext) {
    }

    fn exit(&self, context: &mut PrescriptionContext) {
        let event = match &context.command {
            Some(PrescriptionCommand::UpdatePrescription(u)) => Some(
                PrescriptionEvent::PrescriptionUpdated {
                    address: u.address.clone(),
                    event_id: context.fresh_event_id.clone(),
                },
            ),
            _ => None,
        };
        match event {
            Some(e) => {
                context.event = Some(e);
            },
            None => {},
        }
    }

    fn update(&self, _context: &mut PrescriptionContext) {
    }
}

/// The behaviour attached to each state of the prescription machine.
pub enum PrescriptionBehavior {
    New(New),
    Created(Created),
}

impl State<PrescriptionContext> for PrescriptionBehavior {
    open spec fn entry_effect(self, pre: PrescriptionContext) -> PrescriptionContext {
        match self {
            PrescriptionBehavior::New(s) => s.entry_effect(pre),
            PrescriptionBehavior::Created(s) => s.entry_effect(pre),
        }
    }

    open spec fn exit_effect(self, pre: PrescriptionContext) -> PrescriptionContext {
        match self {
            PrescriptionBehavior::New(s) => s.exit_effect(pre),
            PrescriptionBehavior::Created(s) => s.exit_effect(pre),
        }
    }

    open spec fn update_effect(self, pre: PrescriptionContext) -> PrescriptionContext {
        match self {
            PrescriptionBehavior::New(s) => s.update_effect(pre),
            PrescriptionBehavior::Created(s) => s.update_effect(pre),
        }
    }

    fn entry(&self, context: &mut PrescriptionContext) {
        match self {
            PrescriptionBehavior::New(s) => s.entry(context),
            PrescriptionBehavior::Created(s) => s.entry(context),
        }
    }

    fn exit(&self, context: &mut PrescriptionContext) {
        match self {
            PrescriptionBehavior::New(s) => s.exit(context),
            PrescriptionBehavior::Created(s) => s.exit(context),
        }
    }

    fn update(&self, context: &mut PrescriptionContext) {
        match self {
            PrescriptionBehavior::New(s) => s.update(context),
            PrescriptionBehavior::Created(s) => s.update(context),
        }
    }
}

/// Guards of the prescription machine's transitions: each tests which
/// command variant the context carries, and reads nothing else.
pub enum PrescriptionGuard {
    CreateRequested,
    UpdateRequested,
}

impl Condition<PrescriptionContext> for PrescriptionGuard {
    open spec fn holds(self, context: PrescriptionContext) -> bool {
        match self {
            PrescriptionGuard::CreateRequested => context.command matches Some(
                PrescriptionCommand::CreatePrescription(_),
            ),
            PrescriptionGuard::UpdateRequested => context.command matches Some(
                PrescriptionCommand::UpdatePrescription(_),
            ),
        }
    }

    fn eval(&self, context: &PrescriptionContext) -> (r: bool) {
        match (self, &context.command) {
            (PrescriptionGuard::CreateRequested, Some(PrescriptionCommand::CreatePrescription(_)))
                => true,
            (PrescriptionGuard::UpdateRequested, Some(PrescriptionCommand::UpdatePrescription(_)))
                => true,
            _ => false,
        }
    }
}

/// No transition of the prescription machine carries an action; this is the
/// (empty) action vocabulary its transitions are declared over.
pub struct PrescriptionAction;

impl Action<PrescriptionContext> for PrescriptionAction {
    open spec fn effect(self, pre: PrescriptionContext) -> PrescriptionContext {
        pre
    }

    fn run(&self, _context: &mut PrescriptionContext) {
    }
}

pub type PrescriptionMachine = FSM<
    States,
    PrescriptionBehavior,
    PrescriptionGuard,
    PrescriptionAction,
>;

/// Build the prescription machine seeded at `initial_state`: `New` moves to
/// `Created` on a create command; `Created` stays on an update command.
pub fn create_prescription_machine(initial_state: States) -> (r: PrescriptionMachine)
    ensures
        r.active_state == initial_state,
        r.states@.len() == 2,
        r.states@[0].0 == States::New,
        r.states@[0].1.state == PrescriptionBehavior::New(New),
        r.states@[0].1.transitions@.len() == 1,
        r.states@[0].1.transitions@[0].to == States::Created,
        r.states@[0].1.transitions@[0].condition == PrescriptionGuard::CreateRequested,
        r.states@[0].1.transitions@[0].actions@.len() == 0,
        r.states@[1].0 == States::Created,
        r.states@[1].1.state == PrescriptionBehavior::Created(Created),
        r.states@[1].1.transitions@.len() == 1,
        r.states@[1].1.transitions@[0].to == States::Created,
        r.states@[1].1.transitions@[0].condition == PrescriptionGuard::UpdateRequested,
        r.states@[1].1.transitions@[0].actions@.len() == 0,
{
    let fsm = FSM::new(initial_state).state(
        States::New,
        FSMState::new(PrescriptionBehavior::New(New)).transition(
            States::Created,
            PrescriptionGuard::CreateRequested,
            Vec::new(),
        ),
    ).state(
        States::Created,
        FSMState::new(PrescriptionBehavior::Created(Created)).transition(
            States::Created,
            PrescriptionGuard::UpdateRequested,
            Vec::new(),
        ),
    );
    fsm
}

} // verus!
