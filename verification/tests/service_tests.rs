use event_sourcing::event::{AggregateSnapshot, EventEnvelope};
use event_sourcing::ports::{EventBus, EventRepository};
use event_sourcing::prescription::aggregate::PrescriptionAggregate;
use event_sourcing::prescription::command::{
    CreatePrescriptionCommand, UpdatePrescriptionCommand,
};
use event_sourcing::prescription::error::PrescriptionError;
use event_sourcing::prescription::event::PrescriptionEvent;
use event_sourcing::prescription::http::RESTPrescriptionQuery;
use event_sourcing::prescription::service::PrescriptionService;
use event_sourcing::prescription::services::DefaultPrescriptionServices;

struct TestRepository {
    events: Vec<EventEnvelope<PrescriptionAggregate>>,
    outbox: Vec<EventEnvelope<PrescriptionAggregate>>,
    snapshots: Vec<AggregateSnapshot<PrescriptionAggregate>>,
    fail_store_events: bool,
    fail_store_snapshot: bool,
}

impl TestRepository {
    fn new() -> Self {
        TestRepository {
            events: Vec::new(),
            outbox: Vec::new(),
            snapshots: Vec::new(),
            fail_store_events: false,
            fail_store_snapshot: false,
        }
    }
}

impl EventRepository<PrescriptionAggregate> for TestRepository {
    fn stored_events(self) -> vstd::seq::Seq<EventEnvelope<PrescriptionAggregate>> {
        unreachable!()
    }

    fn outbox_events(self) -> vstd::seq::Seq<EventEnvelope<PrescriptionAggregate>> {
        unreachable!()
    }

    fn stored_snapshots(self) -> vstd::seq::Seq<AggregateSnapshot<PrescriptionAggregate>> {
        unreachable!()
    }

    fn store_events(
        &mut self,
        events: Vec<EventEnvelope<PrescriptionAggregate>>,
    ) -> Result<(), anyhow::Error> {
        if self.fail_store_events {
            return Err(anyhow::Error::msg("storage down"));
        }
        for event in events {
            self.events.push(event.clone());
            self.outbox.push(event);
        }
        Ok(())
    }

    fn retrieve_events(
        &self,
        aggregate_id: String,
        after: Option<String>,
    ) -> Result<Vec<EventEnvelope<PrescriptionAggregate>>, anyhow::Error> {
        let mut out = Vec::new();
        for event in &self.events {
            if event.aggregate_id == aggregate_id {
                let selected = match &after {
                    Some(a) => event.sequence.as_str() > a.as_str(),
                    None => true,
                };
                if selected {
                    out.push(event.clone());
                }
            }
        }
        out.sort_by(|a, b| a.sequence.cmp(&b.sequence));
        Ok(out)
    }

    fn store_snapshot(
        &mut self,
        snapshot: AggregateSnapshot<PrescriptionAggregate>,
    ) -> Result<(), anyhow::Error> {
        if self.fail_store_snapshot {
            return Err(anyhow::Error::msg("storage down"));
        }
        self.snapshots.push(snapshot);
        Ok(())
    }

    fn retrieve_latest_snapshot(
        &self,
        aggregate_id: String,
    ) -> Result<Option<AggregateSnapshot<PrescriptionAggregate>>, anyhow::Error> {
        let mut best: Option<&AggregateSnapshot<PrescriptionAggregate>> = None;
        for snapshot in &self.snapshots {
            if snapshot.aggregate_id == aggregate_id {
                let better = match best {
                    Some(b) => snapshot.snapshot_id.as_str() > b.snapshot_id.as_str(),
                    None => true,
                };
                if better {
                    best = Some(snapshot);
                }
            }
        }
        Ok(best.cloned())
    }

    fn retrieve_outbox_events(
        &self,
    ) -> Result<Vec<EventEnvelope<PrescriptionAggregate>>, anyhow::Error> {
        Ok(self.outbox.clone())
    }

    fn send_and_delete_outbox_event<B: EventBus<EventEnvelope<PrescriptionAggregate>>>(
        &mut self,
        event: EventEnvelope<PrescriptionAggregate>,
        bus: &mut B,
    ) -> Result<(), anyhow::Error> {
        let sequence = event.sequence.clone();
        bus.send_event(event)?;
        self.outbox.retain(|e| e.sequence != sequence);
        Ok(())
    }
}

fn create_command() -> CreatePrescriptionCommand {
    CreatePrescriptionCommand {
        medication_id: "m-1".to_string(),
        patient_id: "p-1".to_string(),
        address: "first street".to_string(),
    }
}

#[test]
fn create_prescription_persists_one_event_and_its_outbox_copy() {
    let mut service = PrescriptionService::new(DefaultPrescriptionServices, TestRepository::new());
    let result: Result<RESTPrescriptionQuery, PrescriptionError> =
        service.create_prescription(create_command(), vec![]);
    let query = result.expect("create must succeed when storage works");
    let id = query.id.expect("a created prescription has an identifier");
    assert_eq!(id.len(), 26);
    assert_eq!(query.medication_id.as_deref(), Some("m-1"));
    assert_eq!(query.patient_id.as_deref(), Some("p-1"));
    assert_eq!(query.address.as_deref(), Some("first street"));

    assert_eq!(service.repository.events.len(), 1);
    assert_eq!(service.repository.outbox.len(), 1);
    let stored = &service.repository.events[0];
    assert_eq!(stored.aggregate_id, id);
    assert_eq!(stored.aggregate_type, "prescription");
    match &stored.payload {
        PrescriptionEvent::PrescriptionCreated { id: event_aggregate_id, event_id, .. } => {
            assert_eq!(event_aggregate_id, &id);
            assert_eq!(&stored.sequence, event_id);
        }
        _ => panic!("expected a created event in the log"),
    }
    assert!(stored.metadata.is_empty());
    assert!(service.repository.snapshots.is_empty());
}

#[test]
fn create_prescription_reports_storage_failure_as_unknown_error() {
    let mut repository = TestRepository::new();
    repository.fail_store_events = true;
    let mut service = PrescriptionService::new(DefaultPrescriptionServices, repository);
    let result: Result<RESTPrescriptionQuery, PrescriptionError> =
        service.create_prescription(create_command(), vec![]);
    assert!(matches!(result, Err(PrescriptionError::UnknownError)));
}

#[test]
fn update_prescription_changes_the_address_of_an_existing_prescription() {
    let mut service = PrescriptionService::new(DefaultPrescriptionServices, TestRepository::new());
    let created: Result<RESTPrescriptionQuery, PrescriptionError> =
        service.create_prescription(create_command(), vec![]);
    let id = created.unwrap().id.unwrap();

    let update = UpdatePrescriptionCommand { id: id.clone(), address: "5678".to_string() };
    let result: Result<RESTPrescriptionQuery, PrescriptionError> =
        service.update_prescription(update, vec![]);
    let query = result.expect("update of an existing prescription must succeed");
    assert_eq!(query.id.as_deref(), Some(id.as_str()));
    assert_eq!(query.address.as_deref(), Some("5678"));

    assert_eq!(service.repository.events.len(), 2);
    match &service.repository.events[1].payload {
        PrescriptionEvent::PrescriptionUpdated { address, .. } => {
            assert_eq!(address, "5678");
        }
        _ => panic!("expected an updated event in the log"),
    }
}

#[test]
fn update_of_an_unknown_prescription_is_rejected_by_the_state_machine() {
    let mut service = PrescriptionService::new(DefaultPrescriptionServices, TestRepository::new());
    let update = UpdatePrescriptionCommand {
        id: "01ARZ3NDEKTSV4RRFFQ69G5FAV".to_string(),
        address: "5678".to_string(),
    };
    let result: Result<RESTPrescriptionQuery, PrescriptionError> =
        service.update_prescription(update, vec![]);
    match result {
        Err(PrescriptionError::StateMachineTransitionFail(name)) => {
            assert_eq!(name, "UpdatePrescription");
        }
        _ => panic!("expected a state machine transition failure"),
    }
}

#[test]
fn tenth_applied_event_persists_a_snapshot() {
    let mut service = PrescriptionService::new(DefaultPrescriptionServices, TestRepository::new());
    let created: Result<RESTPrescriptionQuery, PrescriptionError> =
        service.create_prescription(create_command(), vec![]);
    let id = created.unwrap().id.unwrap();
    for i in 0..9 {
        let update = UpdatePrescriptionCommand { id: id.clone(), address: format!("addr-{}", i) };
        let result: Result<RESTPrescriptionQuery, PrescriptionError> =
            service.update_prescription(update, vec![]);
        assert!(result.is_ok());
    }
    // One created event plus nine updates: the tenth fold makes a snapshot due.
    assert_eq!(service.repository.events.len(), 10);
    assert_eq!(service.repository.snapshots.len(), 1);
    let snapshot = &service.repository.snapshots[0];
    assert_eq!(snapshot.aggregate_id, id);
    assert_eq!(snapshot.payload.applied_events, 10);
    assert_eq!(snapshot.payload.address.as_deref(), Some("addr-8"));

    // The next update hydrates from that snapshot and still succeeds.
    let update = UpdatePrescriptionCommand { id: id.clone(), address: "after".to_string() };
    let result: Result<RESTPrescriptionQuery, PrescriptionError> =
        service.update_prescription(update, vec![]);
    assert_eq!(result.unwrap().address.as_deref(), Some("after"));
}

#[test]
fn snapshot_persistence_failure_does_not_fail_the_command() {
    let mut repository = TestRepository::new();
    repository.fail_store_snapshot = true;
    let mut service = PrescriptionService::new(DefaultPrescriptionServices, repository);
    let created: Result<RESTPrescriptionQuery, PrescriptionError> =
        service.create_prescription(create_command(), vec![]);
    let id = created.unwrap().id.unwrap();
    for i in 0..9 {
        let update = UpdatePrescriptionCommand { id: id.clone(), address: format!("addr-{}", i) };
        let result: Result<RESTPrescriptionQuery, PrescriptionError> =
            service.update_prescription(update, vec![]);
        assert!(result.is_ok(), "snapshot failure must be swallowed");
    }
    assert!(service.repository.snapshots.is_empty());
}
