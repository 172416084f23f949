//! Events of the prescription aggregate: the facts its state is built from.

use vstd::prelude::*;

use crate::event::DomainEvent;

verus! {

/// A fact that has happened to one prescription. Identifiers are ULID
/// strings; the event id doubles as the per-aggregate sequence token.
pub enum PrescriptionEvent {
    PrescriptionCreated {
        id: String,
        patient_id: String,
        medication_id: String,
        address: String,
        event_id: String,
    },
    PrescriptionUpdated { address: String, event_id: String },
}

impl Clone for PrescriptionEvent {
    fn clone(&self) -> (r: Self)
        ensures
            r == *self,
    {
        match self {
            PrescriptionEvent::PrescriptionCreated {
                id,
                patient_id,
                medication_id,
                address,
                event_id,
            } => PrescriptionEvent::PrescriptionCreated {
                id: id.clone(),
                patient_id: patient_id.clone(),
                medication_id: medication_id.clone(),
                address: address.clone(),
                event_id: event_id.clone(),
            },
            PrescriptionEvent::PrescriptionUpdated { address, event_id } => {
                PrescriptionEvent::PrescriptionUpdated {
                    address: address.clone(),
                    event_id: event_id.clone(),
                }
            },
        }
    }
}

impl DomainEvent for PrescriptionEvent {
    open spec fn event_type_spec(self) -> Seq<char> {
        match self {
            PrescriptionEvent::PrescriptionCreated { .. } => "PrescriptionCreated"@,
            PrescriptionEvent::PrescriptionUpdated { .. } => "PrescriptionUpdated"@,
        }
    }

    open spec fn event_version_spec(self) -> Seq<char> {
        "0.0.1"@
    }

    open spec fn event_id_spec(self) -> Seq<char> {
        match self {
            PrescriptionEvent::PrescriptionCreated { event_id, .. } => event_id@,
            PrescriptionEvent::PrescriptionUpdated { event_id, .. } => event_id@,
        }
    }

    fn event_type(&self) -> (r: String) {
        match self {
            PrescriptionEvent::PrescriptionCreated { .. } => "PrescriptionCreated".to_owned(),
            PrescriptionEvent::PrescriptionUpdated { .. } => "PrescriptionUpdated".to_owned(),
        }
    }

    fn event_version(&self) -> (r: String) {
        "0.0.1".to_owned()
    }

    fn event_id(&self) -> (r: String) {
        match self {
            PrescriptionEvent::PrescriptionCreated { event_id, .. } => event_id.clone(),
            PrescriptionEvent::PrescriptionUpdated { event_id, .. } => event_id.clone(),
        }
    }
}

} // verus!
