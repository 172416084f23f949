//! The storage shapes of prescription events and snapshot payloads: what a
//! row's JSON columns hold, and the conversions between those shapes and
//! the domain types. The snapshot shape carries the full aggregate state,
//! so the round trip through storage is the identity.

use vstd::prelude::*;

use crate::ids::new_ulid;
use crate::prescription::aggregate::PrescriptionAggregate;
use crate::prescription::event::PrescriptionEvent;

verus! {

/// The persisted shape of one prescription event.
pub enum SQLPrescriptionEvent {
    PrescriptionCreated {
        id: String,
        event_id: String,
        medication_id: String,
        patient_id: String,
        address: String,
    },
    PrescriptionUpdated { event_id: String, address: String },
}

impl Default for SQLPrescriptionEvent {
    /// An empty created-row shape, under a fresh event identifier.
    fn default() -> (r: Self)
        ensures
            r matches SQLPrescriptionEvent::PrescriptionCreated {
                id,
                event_id,
                medication_id,
                patient_id,
                address,
            } && id@ == ""@ && event_id@.len() == 26 && medication_id@ == ""@ && patient_id@ == ""@
                && address@ == ""@,
    {
        SQLPrescriptionEvent::PrescriptionCreated {
            id: "".to_owned(),
            event_id: new_ulid(),
            medication_id: "".to_owned(),
            patient_id: "".to_owned(),
            address: "".to_owned(),
        }
    }
}

impl From<PrescriptionEvent> for SQLPrescriptionEvent {
    fn from(event: PrescriptionEvent) -> (r: SQLPrescriptionEvent) {
        match event {
            PrescriptionEvent::PrescriptionCreated {
                id,
                patient_id,
                medication_id,
                address,
                event_id,
            } => SQLPrescriptionEvent::PrescriptionCreated {
                id,
                event_id,
                medication_id,
                patient_id,
                address,
            },
            PrescriptionEvent::PrescriptionUpdated { address, event_id } => {
                SQLPrescriptionEvent::PrescriptionUpdated { event_id, address }
            },
        }
    }
}

impl vstd::std_specs::convert::FromSpecImpl<PrescriptionEvent> for SQLPrescriptionEvent {
    open spec fn obeys_from_spec() -> bool {
        true
    }

    open spec fn from_spec(event: PrescriptionEvent) -> SQLPrescriptionEvent {
        match event {
            PrescriptionEvent::PrescriptionCreated {
                id,
                patient_id,
                medication_id,
                address,
                event_id,
            } => SQLPrescriptionEvent::PrescriptionCreated {
                id,
                event_id,
                medication_id,
                patient_id,
                address,
            },
            PrescriptionEvent::PrescriptionUpdated { address, event_id } => {
                SQLPrescriptionEvent::PrescriptionUpdated { event_id, address }
            },
        }
    }
}

impl From<SQLPrescriptionEvent> for PrescriptionEvent {
    fn from(row: SQLPrescriptionEvent) -> (r: PrescriptionEvent) {
        match row {
            SQLPrescriptionEvent::PrescriptionCreated {
                id,
                event_id,
                medication_id,
                patient_id,
                address,
            } => PrescriptionEvent::PrescriptionCreated {
                id,
                patient_id,
                medication_id,
                address,
                event_id,
            },
            SQLPrescriptionEvent::PrescriptionUpdated { event_id, address } => {
                PrescriptionEvent::PrescriptionUpdated { address, event_id }
            },
        }
    }
}

impl vstd::std_specs::convert::FromSpecImpl<SQLPrescriptionEvent> for PrescriptionEvent {
    open spec fn obeys_from_spec() -> bool {
        true
    }

    open spec fn from_spec(row: SQLPrescriptionEvent) -> PrescriptionEvent {
        match row {
            SQLPrescriptionEvent::PrescriptionCreated {
                id,
                event_id,
                medication_id,
                patient_id,
                address,
            } => PrescriptionEvent::PrescriptionCreated {
                id,
                patient_id,
                medication_id,
                address,
                event_id,
            },
            SQLPrescriptionEvent::PrescriptionUpdated { event_id, address } => {
                PrescriptionEvent::PrescriptionUpdated { address, event_id }
            },
        }
    }
}

/// The persisted shape of a snapshot payload: the full aggregate state,
/// so that replaying the events after the snapshot's resume point
/// reconstructs current state exactly.
pub struct SQLPrescriptionAggregate {
    pub id: Option<String>,
    pub patient_id: Option<String>,
    pub medication_id: Option<String>,
    pub address: Option<String>,
    pub last_event: Option<SQLPrescriptionEvent>,
    pub applied_events: i32,
}

impl From<PrescriptionAggregate> for SQLPrescriptionAggregate {
    fn from(value: PrescriptionAggregate) -> (r: SQLPrescriptionAggregate) {
        SQLPrescriptionAggregate {
            id: value.id,
            patient_id: value.patient_id,
            medication_id: value.medication_id,
            address: value.address,
            last_event: match value.last_event {
                Some(e) => Some(SQLPrescriptionEvent::from(e)),
                None => None,
            },
            applied_events: value.applied_events,
        }
    }
}

impl vstd::std_specs::convert::FromSpecImpl<PrescriptionAggregate> for SQLPrescriptionAggregate {
    open spec fn obeys_from_spec() -> bool {
        true
    }

    open spec fn from_spec(value: PrescriptionAggregate) -> SQLPrescriptionAggregate {
        SQLPrescriptionAggregate {
            id: value.id,
            patient_id: value.patient_id,
            medication_id: value.medication_id,
            address: value.address,
            last_event: match value.last_event {
                Some(e) => Some(
                    <SQLPrescriptionEvent as vstd::std_specs::convert::FromSpec<
                        PrescriptionEvent,
                    >>::from_spec(e),
                ),
                None => None,
            },
            applied_events: value.applied_events,
        }
    }
}

impl From<SQLPrescriptionAggregate> for PrescriptionAggregate {
    fn from(row: SQLPrescriptionAggregate) -> (r: PrescriptionAggregate) {
        PrescriptionAggregate {
            id: row.id,
            patient_id: row.patient_id,
            medication_id: row.medication_id,
            address: row.address,
            last_event: match row.last_event {
                Some(e) => Some(PrescriptionEvent::from(e)),
                None => None,
            },
            applied_events: row.applied_events,
        }
    }
}

impl vstd::std_specs::convert::FromSpecImpl<SQLPrescriptionAggregate> for PrescriptionAggregate {
    open spec fn obeys_from_spec() -> bool {
        true
    }

    open spec fn from_spec(row: SQLPrescriptionAggregate) -> PrescriptionAggregate {
        PrescriptionAggregate {
            id: row.id,
            patient_id: row.patient_id,
            medication_id: row.medication_id,
            address: row.address,
            last_event: match row.last_event {
                Some(e) => Some(
                    <PrescriptionEvent as vstd::std_specs::convert::FromSpec<
                        SQLPrescriptionEvent,
                    >>::from_spec(e),
                ),
                None => None,
            },
            applied_events: row.applied_events,
        }
    }
}

} // verus!
