use event_sourcing::aggregate::Aggregate;
use event_sourcing::event::DomainEvent;
use event_sourcing::prescription::aggregate::PrescriptionAggregate;
use event_sourcing::prescription::command::{
    CreatePrescriptionCommand, PrescriptionCommand, UpdatePrescriptionCommand,
};
use event_sourcing::prescription::error::PrescriptionError;
use event_sourcing::prescription::event::PrescriptionEvent;
use event_sourcing::prescription::services::DefaultPrescriptionServices;

fn created_event(id: &str, event_id: &str) -> PrescriptionEvent {
    PrescriptionEvent::PrescriptionCreated {
        id: id.to_string(),
        patient_id: "p-1".to_string(),
        medication_id: "m-1".to_string(),
        address: "somewhere".to_string(),
        event_id: event_id.to_string(),
    }
}

#[test]
fn emit_prescription_created_event_when_receive_valid_create_prescription_command() {
    let expected = "PrescriptionCreated";

    let aggregate = PrescriptionAggregate::default();

    let command = PrescriptionCommand::CreatePrescription(CreatePrescriptionCommand {
        medication_id: "1234".into(),
        patient_id: "1234".into(),
        address: "1234".into(),
    });

    let services = DefaultPrescriptionServices;

    let events = aggregate.handle(command, &services);

    assert!(events.is_ok());
    let unwrapped = events.unwrap();
    assert_eq!(unwrapped.len(), 1);
    assert_eq!(unwrapped[0].event_type(), expected);
}

#[test]
fn create_decision_assigns_fresh_ulid_identifiers() {
    let aggregate = PrescriptionAggregate::default();
    let command = PrescriptionCommand::CreatePrescription(CreatePrescriptionCommand {
        medication_id: "1234".into(),
        patient_id: "1234".into(),
        address: "1234".into(),
    });
    let services = DefaultPrescriptionServices;
    let events = aggregate.handle(command, &services).unwrap();
    match &events[0] {
        PrescriptionEvent::PrescriptionCreated { id, event_id, .. } => {
            assert_eq!(id.len(), 26);
            assert_eq!(event_id.len(), 26);
            assert_ne!(id, event_id);
        }
        other => panic!("unexpected event {:?}", other.event_type()),
    }
}

#[test]
fn applying_created_event_establishes_identity() {
    let mut aggregate = PrescriptionAggregate::default();
    let command = PrescriptionCommand::CreatePrescription(CreatePrescriptionCommand {
        medication_id: "1234".into(),
        patient_id: "1234".into(),
        address: "1234".into(),
    });
    let services = DefaultPrescriptionServices;
    let events = aggregate.handle(command, &services).unwrap();
    assert!(aggregate.aggregate_id().is_none());
    for event in &events {
        aggregate.apply(event.clone());
    }
    assert!(aggregate.aggregate_id().is_some());
    assert_eq!(aggregate.applied_events, 1);
    assert_eq!(aggregate.patient_id.as_deref(), Some("1234"));
    assert_eq!(aggregate.medication_id.as_deref(), Some("1234"));
    assert_eq!(aggregate.address.as_deref(), Some("1234"));
}

#[test]
fn update_on_created_prescription_emits_updated_event() {
    let mut aggregate = PrescriptionAggregate::default();
    aggregate.apply(created_event("rx-1", "01ARZ3NDEKTSV4RRFFQ69G5FAA"));
    let command = PrescriptionCommand::UpdatePrescription(UpdatePrescriptionCommand {
        id: "rx-1".to_string(),
        address: "5678".to_string(),
    });
    let services = DefaultPrescriptionServices;
    let events = aggregate.handle(command, &services).unwrap();
    assert_eq!(events.len(), 1);
    assert_eq!(events[0].event_type(), "PrescriptionUpdated");
    match &events[0] {
        PrescriptionEvent::PrescriptionUpdated { address, event_id } => {
            assert_eq!(address, "5678");
            assert_eq!(event_id.len(), 26);
        }
        other => panic!("unexpected event {:?}", other.event_type()),
    }
}

#[test]
fn update_without_prior_created_event_fails_with_transition_error() {
    let aggregate = PrescriptionAggregate::default();
    let command = PrescriptionCommand::UpdatePrescription(UpdatePrescriptionCommand {
        id: "rx-1".to_string(),
        address: "5678".to_string(),
    });
    let services = DefaultPrescriptionServices;
    let result = aggregate.handle(command, &services);
    match result {
        Err(PrescriptionError::StateMachineTransitionFail(name)) => {
            assert_eq!(name, "UpdatePrescription");
        }
        _ => panic!("expected a state machine transition failure"),
    }
}

#[test]
fn create_on_existing_prescription_fails_with_transition_error() {
    let mut aggregate = PrescriptionAggregate::default();
    aggregate.apply(created_event("rx-1", "01ARZ3NDEKTSV4RRFFQ69G5FAA"));
    let command = PrescriptionCommand::CreatePrescription(CreatePrescriptionCommand {
        medication_id: "1234".into(),
        patient_id: "1234".into(),
        address: "1234".into(),
    });
    let services = DefaultPrescriptionServices;
    let result = aggregate.handle(command, &services);
    match result {
        Err(PrescriptionError::StateMachineTransitionFail(name)) => {
            assert_eq!(name, "CreatePrescription");
        }
        _ => panic!("expected a state machine transition failure"),
    }
}

#[test]
fn handle_leaves_the_aggregate_untouched_until_apply() {
    let aggregate = PrescriptionAggregate::default();
    let command = PrescriptionCommand::CreatePrescription(CreatePrescriptionCommand {
        medication_id: "1234".into(),
        patient_id: "1234".into(),
        address: "1234".into(),
    });
    let services = DefaultPrescriptionServices;
    let events = aggregate.handle(command, &services);
    assert!(events.is_ok());
    assert!(aggregate.id.is_none());
    assert!(aggregate.patient_id.is_none());
    assert!(aggregate.medication_id.is_none());
    assert!(aggregate.address.is_none());
    assert!(aggregate.last_event.is_none());
    assert_eq!(aggregate.applied_events, 0);
    assert!(aggregate.aggregate_id().is_none());
}

#[test]
fn snapshot_is_produced_at_ten_applied_events_and_not_before() {
    let mut aggregate = PrescriptionAggregate::default();
    aggregate.apply(created_event("rx-1", "01ARZ3NDEKTSV4RRFFQ69G5FAA"));
    for i in 0..8 {
        aggregate.apply(PrescriptionEvent::PrescriptionUpdated {
            address: format!("addr-{}", i),
            event_id: format!("01BX5ZZKBKACTAV9WEVGEMMV{:02}", i),
        });
    }
    assert_eq!(aggregate.applied_events, 9);
    assert!(aggregate.snapshot().is_none());

    aggregate.apply(PrescriptionEvent::PrescriptionUpdated {
        address: "final".to_string(),
        event_id: "01BX5ZZKBKACTAV9WEVGEMMVRZ".to_string(),
    });
    assert_eq!(aggregate.applied_events, 10);
    let snapshot = aggregate.snapshot().expect("a snapshot is due at ten events");
    assert_eq!(snapshot.aggregate_id, "rx-1");
    assert_eq!(snapshot.aggregate_type, "Prescription");
    assert_eq!(snapshot.last_sequence, "01BX5ZZKBKACTAV9WEVGEMMVRZ");
    assert_eq!(snapshot.snapshot_id.len(), 26);
    assert_eq!(snapshot.payload.applied_events, 10);
    assert_eq!(snapshot.payload.address.as_deref(), Some("final"));
}

#[test]
fn replay_reaches_the_same_state_through_any_split() {
    let events = vec![
        created_event("rx-1", "01ARZ3NDEKTSV4RRFFQ69G5FAA"),
        PrescriptionEvent::PrescriptionUpdated {
            address: "first".to_string(),
            event_id: "01ARZ3NDEKTSV4RRFFQ69G5FAB".to_string(),
        },
        PrescriptionEvent::PrescriptionUpdated {
            address: "second".to_string(),
            event_id: "01ARZ3NDEKTSV4RRFFQ69G5FAC".to_string(),
        },
    ];
    for split in 0..=events.len() {
        let mut direct = PrescriptionAggregate::default();
        for event in &events {
            direct.apply(event.clone());
        }
        let mut staged = PrescriptionAggregate::default();
        for event in &events[..split] {
            staged.apply(event.clone());
        }
        for event in &events[split..] {
            staged.apply(event.clone());
        }
        assert_eq!(staged.id, direct.id);
        assert_eq!(staged.patient_id, direct.patient_id);
        assert_eq!(staged.medication_id, direct.medication_id);
        assert_eq!(staged.address, direct.address);
        assert_eq!(staged.applied_events, direct.applied_events);
        assert_eq!(
            staged.last_event.as_ref().map(|e| e.event_id()),
            direct.last_event.as_ref().map(|e| e.event_id())
        );
    }
}

#[test]
fn domain_event_accessors_expose_type_version_and_id() {
    let created = created_event("rx-1", "01ARZ3NDEKTSV4RRFFQ69G5FAA");
    assert_eq!(created.event_type(), "PrescriptionCreated");
    assert_eq!(created.event_version(), "0.0.1");
    assert_eq!(created.event_id(), "01ARZ3NDEKTSV4RRFFQ69G5FAA");

    let updated = PrescriptionEvent::PrescriptionUpdated {
        address: "a".to_string(),
        event_id: "01ARZ3NDEKTSV4RRFFQ69G5FAB".to_string(),
    };
    assert_eq!(updated.event_type(), "PrescriptionUpdated");
    assert_eq!(updated.event_version(), "0.0.1");
    assert_eq!(updated.event_id(), "01ARZ3NDEKTSV4RRFFQ69G5FAB");
}

#[test]
fn command_names_match_their_variants() {
    let create = PrescriptionCommand::CreatePrescription(CreatePrescriptionCommand {
        medication_id: "m".into(),
        patient_id: "p".into(),
        address: "a".into(),
    });
    assert_eq!(create.to_string(), "CreatePrescription");
    let update = PrescriptionCommand::UpdatePrescription(UpdatePrescriptionCommand {
        id: "i".into(),
        address: "a".into(),
    });
    assert_eq!(update.to_string(), "UpdatePrescription");
}

#[test]
fn aggregate_type_is_constant() {
    assert_eq!(PrescriptionAggregate::aggregate_type(), "Prescription");
}
