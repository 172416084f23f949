use event_sourcing::prescription::aggregate::PrescriptionAggregate;
use event_sourcing::prescription::event::PrescriptionEvent;
use event_sourcing::prescription::http::{
    validate_create_payload, validate_update_payload, PayloadFault, RESTPrescriptionMutation,
    RESTPrescriptionQuery,
};
use event_sourcing::prescription::sql::{SQLPrescriptionAggregate, SQLPrescriptionEvent};

#[test]
fn a_complete_create_payload_passes_validation() {
    let payload = RESTPrescriptionMutation::new(
        Some("p-1".to_string()),
        Some("m-1".to_string()),
        Some("addr".to_string()),
    );
    assert!(validate_create_payload(&payload).is_empty());
}

#[test]
fn a_create_payload_missing_every_field_earns_three_findings() {
    let payload = RESTPrescriptionMutation::new(None, None, None);
    let faults = validate_create_payload(&payload);
    assert_eq!(faults.len(), 3);
    assert!(matches!(faults[0], PayloadFault::MissingMedicationId));
    assert!(matches!(faults[1], PayloadFault::MissingPatientId));
    assert!(matches!(faults[2], PayloadFault::MissingAddress));
    assert_eq!(faults[0].param(), "medication_id");
    assert_eq!(faults[0].code(), "parameter_missing");
}

#[test]
fn a_create_payload_missing_one_field_earns_one_finding() {
    let payload = RESTPrescriptionMutation::new(
        None,
        Some("m-1".to_string()),
        Some("addr".to_string()),
    );
    let faults = validate_create_payload(&payload);
    assert_eq!(faults.len(), 1);
    assert!(matches!(faults[0], PayloadFault::MissingPatientId));
    assert_eq!(faults[0].param(), "patient_id");
}

#[test]
fn an_update_payload_with_address_only_passes_validation() {
    let payload = RESTPrescriptionMutation::new(None, None, Some("addr".to_string()));
    assert!(validate_update_payload(&payload).is_empty());
}

#[test]
fn an_update_payload_with_creation_fields_is_rejected() {
    let payload = RESTPrescriptionMutation::new(
        Some("p-1".to_string()),
        Some("m-1".to_string()),
        None,
    );
    let faults = validate_update_payload(&payload);
    assert_eq!(faults.len(), 3);
    assert!(matches!(faults[0], PayloadFault::UnexpectedMedicationId));
    assert!(matches!(faults[1], PayloadFault::UnexpectedPatientId));
    assert!(matches!(faults[2], PayloadFault::MissingAddress));
    assert_eq!(faults[0].code(), "parameter_unexpected");
    assert_eq!(faults[2].code(), "parameter_missing");
}

#[test]
fn a_query_projection_carries_the_aggregate_fields() {
    let aggregate = PrescriptionAggregate {
        id: Some("rx-1".to_string()),
        patient_id: Some("p-1".to_string()),
        medication_id: Some("m-1".to_string()),
        address: Some("addr".to_string()),
        last_event: None,
        applied_events: 1,
    };
    let query = RESTPrescriptionQuery::from(aggregate);
    assert_eq!(query.id.as_deref(), Some("rx-1"));
    assert_eq!(query.patient_id.as_deref(), Some("p-1"));
    assert_eq!(query.medication_id.as_deref(), Some("m-1"));
    assert_eq!(query.address.as_deref(), Some("addr"));
}

#[test]
fn sql_event_round_trip_preserves_every_field() {
    let event = PrescriptionEvent::PrescriptionCreated {
        id: "rx-1".to_string(),
        patient_id: "p-1".to_string(),
        medication_id: "m-1".to_string(),
        address: "addr".to_string(),
        event_id: "01ARZ3NDEKTSV4RRFFQ69G5FA1".to_string(),
    };
    let row = SQLPrescriptionEvent::from(event);
    match &row {
        SQLPrescriptionEvent::PrescriptionCreated {
            id,
            event_id,
            medication_id,
            patient_id,
            address,
        } => {
            assert_eq!(id, "rx-1");
            assert_eq!(event_id, "01ARZ3NDEKTSV4RRFFQ69G5FA1");
            assert_eq!(medication_id, "m-1");
            assert_eq!(patient_id, "p-1");
            assert_eq!(address, "addr");
        }
        _ => panic!("expected a created row"),
    }
    let back = PrescriptionEvent::from(row);
    match back {
        PrescriptionEvent::PrescriptionCreated { id, event_id, .. } => {
            assert_eq!(id, "rx-1");
            assert_eq!(event_id, "01ARZ3NDEKTSV4RRFFQ69G5FA1");
        }
        _ => panic!("expected a created event"),
    }
}

#[test]
fn sql_event_default_is_an_empty_created_row_with_a_fresh_event_id() {
    let row = SQLPrescriptionEvent::default();
    match row {
        SQLPrescriptionEvent::PrescriptionCreated {
            id,
            event_id,
            medication_id,
            patient_id,
            address,
        } => {
            assert_eq!(id, "");
            assert_eq!(event_id.len(), 26);
            assert_eq!(medication_id, "");
            assert_eq!(patient_id, "");
            assert_eq!(address, "");
        }
        _ => panic!("expected a created row"),
    }
}

#[test]
fn sql_snapshot_payload_round_trip_is_the_identity() {
    let aggregate = PrescriptionAggregate {
        id: Some("rx-1".to_string()),
        patient_id: Some("p-1".to_string()),
        medication_id: Some("m-1".to_string()),
        address: Some("addr".to_string()),
        last_event: Some(PrescriptionEvent::PrescriptionUpdated {
            address: "addr".to_string(),
            event_id: "01ARZ3NDEKTSV4RRFFQ69G5FA2".to_string(),
        }),
        applied_events: 7,
    };
    let row = SQLPrescriptionAggregate::from(aggregate);
    assert_eq!(row.id.as_deref(), Some("rx-1"));
    assert_eq!(row.patient_id.as_deref(), Some("p-1"));
    assert_eq!(row.medication_id.as_deref(), Some("m-1"));
    assert_eq!(row.address.as_deref(), Some("addr"));
    assert_eq!(row.applied_events, 7);
    assert!(row.last_event.is_some());

    let back = PrescriptionAggregate::from(row);
    assert_eq!(back.id.as_deref(), Some("rx-1"));
    assert_eq!(back.patient_id.as_deref(), Some("p-1"));
    assert_eq!(back.medication_id.as_deref(), Some("m-1"));
    assert_eq!(back.address.as_deref(), Some("addr"));
    assert_eq!(back.applied_events, 7);
    match back.last_event {
        Some(PrescriptionEvent::PrescriptionUpdated { address, event_id }) => {
            assert_eq!(address, "addr");
            assert_eq!(event_id, "01ARZ3NDEKTSV4RRFFQ69G5FA2");
        }
        _ => panic!("expected the updated event to survive"),
    }
}
