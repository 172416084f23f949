use event_sourcing::machine::{FSMState, FSM};
use event_sourcing::prescription::command::{CreatePrescriptionCommand, PrescriptionCommand};
use event_sourcing::prescription::context::PrescriptionContext;
use event_sourcing::prescription::event::PrescriptionEvent;
use event_sourcing::prescription::machine::{
    create_prescription_machine, Created, New, PrescriptionAction, PrescriptionBehavior,
    PrescriptionGuard, PrescriptionMachine, States,
};

fn create_command() -> PrescriptionCommand {
    PrescriptionCommand::CreatePrescription(CreatePrescriptionCommand {
        medication_id: "m-1".to_string(),
        patient_id: "p-1".to_string(),
        address: "a-1".to_string(),
    })
}

fn fresh_context(command: Option<PrescriptionCommand>) -> PrescriptionContext {
    let mut context = PrescriptionContext::new(
        "01ARZ3NDEKTSV4RRFFQ69G5FAV".to_string(),
        "01ARZ3NDEKTSV4RRFFQ69G5FAW".to_string(),
    );
    if let Some(c) = command {
        context.set_command(c);
    }
    context
}

#[test]
fn first_matching_transition_wins_over_a_later_one() {
    // Two transitions out of New whose guards both hold for a create
    // command: the one declared first targets Created, the later one
    // targets New. First-match-wins means the machine must end in Created.
    let mut fsm: PrescriptionMachine = FSM::new(States::New)
        .state(
            States::New,
            FSMState::new(PrescriptionBehavior::New(New))
                .transition(States::Created, PrescriptionGuard::CreateRequested, Vec::new())
                .transition(States::New, PrescriptionGuard::CreateRequested, Vec::new()),
        )
        .state(
            States::Created,
            FSMState::new(PrescriptionBehavior::Created(Created)).transition(
                States::Created,
                PrescriptionGuard::UpdateRequested,
                Vec::new(),
            ),
        );
    let mut context = fresh_context(Some(create_command()));
    fsm.decide(&mut context);
    assert!(matches!(fsm.active_state, States::Created));
}

#[test]
fn fsm_state_decide_reports_the_first_matching_index() {
    let state: FSMState<States, PrescriptionBehavior, PrescriptionGuard, PrescriptionAction> =
        FSMState::new(PrescriptionBehavior::New(New))
            .transition(States::Created, PrescriptionGuard::UpdateRequested, Vec::new())
            .transition(States::Created, PrescriptionGuard::CreateRequested, Vec::new())
            .transition(States::New, PrescriptionGuard::CreateRequested, Vec::new());
    let context = fresh_context(Some(create_command()));
    assert_eq!(state.decide(&context), Some(1));

    let empty = fresh_context(None);
    assert_eq!(state.decide(&empty), None);
}

#[test]
fn deciding_a_create_command_emits_the_created_event() {
    let mut fsm = create_prescription_machine(States::New);
    let mut context = fresh_context(Some(create_command()));
    fsm.decide(&mut context);
    assert!(matches!(fsm.active_state, States::Created));
    match context.get_event() {
        Some(PrescriptionEvent::PrescriptionCreated {
            id,
            patient_id,
            medication_id,
            address,
            event_id,
        }) => {
            assert_eq!(id, "01ARZ3NDEKTSV4RRFFQ69G5FAV");
            assert_eq!(event_id, "01ARZ3NDEKTSV4RRFFQ69G5FAW");
            assert_eq!(patient_id, "p-1");
            assert_eq!(medication_id, "m-1");
            assert_eq!(address, "a-1");
        }
        _ => panic!("expected a created event"),
    }
}

#[test]
fn deciding_without_a_matching_guard_changes_nothing() {
    let mut fsm = create_prescription_machine(States::Created);
    let mut context = fresh_context(Some(create_command()));
    fsm.decide(&mut context);
    assert!(matches!(fsm.active_state, States::Created));
    assert!(context.get_event().is_none());
}

#[test]
fn set_active_state_runs_exit_before_entry_and_moves_the_machine() {
    let mut fsm = create_prescription_machine(States::New);
    let mut context = fresh_context(Some(create_command()));
    let actions: Vec<PrescriptionAction> = Vec::new();
    fsm.set_active_state(States::Created, &actions, &mut context);
    assert!(matches!(fsm.active_state, States::Created));
    // Leaving New on a create command decides the created event.
    assert!(context.get_event().is_some());
}

#[test]
fn set_active_state_towards_a_missing_state_is_a_no_op_on_the_active_state() {
    let mut fsm: PrescriptionMachine = FSM::new(States::New).state(
        States::New,
        FSMState::new(PrescriptionBehavior::New(New)),
    );
    let mut context = fresh_context(None);
    let actions: Vec<PrescriptionAction> = Vec::new();
    fsm.set_active_state(States::Created, &actions, &mut context);
    assert!(matches!(fsm.active_state, States::New));
}

#[test]
fn update_runs_only_the_update_hook() {
    let mut fsm = create_prescription_machine(States::New);
    let mut context = fresh_context(Some(create_command()));
    fsm.update(&mut context);
    // The prescription states' update hooks do nothing.
    assert!(matches!(fsm.active_state, States::New));
    assert!(context.get_event().is_none());
}

#[test]
fn context_accessors_round_trip() {
    let mut context = fresh_context(None);
    assert!(context.get_command().is_none());
    assert!(context.get_event().is_none());
    context.set_command(create_command());
    assert!(matches!(
        context.get_command(),
        Some(PrescriptionCommand::CreatePrescription(_))
    ));
    context.set_event(PrescriptionEvent::PrescriptionUpdated {
        address: "a".to_string(),
        event_id: "01ARZ3NDEKTSV4RRFFQ69G5FAX".to_string(),
    });
    assert!(matches!(
        context.get_event(),
        Some(PrescriptionEvent::PrescriptionUpdated { .. })
    ));
}
