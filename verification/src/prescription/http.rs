//! The transport-facing request and response shapes of the prescription
//! use cases, and the validation rules the HTTP adapter applies to a
//! request body before building a command.

use vstd::prelude::*;

use crate::prescription::aggregate::PrescriptionAggregate;

verus! {

/// A mutation request body: every field optional on the wire.
pub struct RESTPrescriptionMutation {
    pub patient_id: Option<String>,
    pub medication_id: Option<String>,
    pub address: Option<String>,
}

impl RESTPrescriptionMutation {
    pub fn new(
        patient_id: Option<String>,
        medication_id: Option<String>,
        address: Option<String>,
    ) -> (r: Self)
        ensures
            r.patient_id == patient_id,
            r.medication_id == medication_id,
            r.address == address,
    {
        Self { patient_id, medication_id, address }
    }
}

/// The caller-facing projection of a prescription aggregate.
pub struct RESTPrescriptionQuery {
    pub id: Option<String>,
    pub patient_id: Option<String>,
    pub medication_id: Option<String>,
    pub address: Option<String>,
}

impl From<PrescriptionAggregate> for RESTPrescriptionQuery {
    fn from(value: PrescriptionAggregate) -> (r: RESTPrescriptionQuery) {
        RESTPrescriptionQuery {
            id: value.id,
            patient_id: value.patient_id,
            medication_id: value.medication_id,
            address: value.address,
        }
    }
}

impl vstd::std_specs::convert::FromSpecImpl<PrescriptionAggregate> for RESTPrescriptionQuery {
    open spec fn obeys_from_spec() -> bool {
        true
    }

    open spec fn from_spec(value: PrescriptionAggregate) -> RESTPrescriptionQuery {
        RESTPrescriptionQuery {
            id: value.id,
            patient_id: value.patient_id,
            medication_id: value.medication_id,
            address: value.address,
        }
    }
}

/// One request-validation finding: a parameter that a request of this kind
/// needs but lacks, or carries but must not.
pub enum PayloadFault {
    MissingMedicationId,
    MissingPatientId,
    MissingAddress,
    UnexpectedMedicationId,
    UnexpectedPatientId,
}

impl PayloadFault {
    /// The name of the parameter the finding is about.
    pub open spec fn param_spec(self) -> Seq<char> {
        match self {
            PayloadFault::MissingMedicationId => "medication_id"@,
            PayloadFault::MissingPatientId => "patient_id"@,
            PayloadFault::MissingAddress => "address"@,
            PayloadFault::UnexpectedMedicationId => "medication_id"@,
            PayloadFault::UnexpectedPatientId => "patient_id"@,
        }
    }

    /// The machine-readable code of the finding.
    pub open spec fn code_spec(self) -> Seq<char> {
        match self {
            PayloadFault::MissingMedicationId => "parameter_missing"@,
            PayloadFault::MissingPatientId => "parameter_missing"@,
            PayloadFault::MissingAddress => "parameter_missing"@,
            PayloadFault::UnexpectedMedicationId => "parameter_unexpected"@,
            PayloadFault::UnexpectedPatientId => "parameter_unexpected"@,
        }
    }

    pub fn param(&self) -> (r: String)
        ensures
            r@ == self.param_spec(),
    {
        match self {
            PayloadFault::MissingMedicationId => "medication_id".to_owned(),
            PayloadFault::MissingPatientId => "patient_id".to_owned(),
            PayloadFault::MissingAddress => "address".to_owned(),
            PayloadFault::UnexpectedMedicationId => "medication_id".to_owned(),
            PayloadFault::UnexpectedPatientId => "patient_id".to_owned(),
        }
    }

    pub fn code(&self) -> (r: String)
        ensures
            r@ == self.code_spec(),
    {
        match self {
            PayloadFault::MissingMedicationId => "parameter_missing".to_owned(),
            PayloadFault::MissingPatientId => "parameter_missing".to_owned(),
            PayloadFault::MissingAddress => "parameter_missing".to_owned(),
            PayloadFault::UnexpectedMedicationId => "parameter_unexpected".to_owned(),
            PayloadFault::UnexpectedPatientId => "parameter_unexpected".to_owned(),
        }
    }
}

/// The findings a create request earns, in report order: each of
/// medication_id, patient_id and address must be present.
pub open spec fn create_payload_faults(payload: RESTPrescriptionMutation) -> Seq<PayloadFault> {
    (if payload.medication_id is None {
        seq![PayloadFault::MissingMedicationId]
    } else {
        Seq::empty()
    }) + (if payload.patient_id is None {
        seq![PayloadFault::MissingPatientId]
    } else {
        Seq::empty()
    }) + (if payload.address is None {
        seq![PayloadFault::MissingAddress]
    } else {
        Seq::empty()
    })
}

/// The findings an update request earns, in report order: medication_id
/// and patient_id must be absent, address must be present.
pub open spec fn update_payload_faults(payload: RESTPrescriptionMutation) -> Seq<PayloadFault> {
    (if payload.medication_id is Some {
        seq![PayloadFault::UnexpectedMedicationId]
    } else {
        Seq::empty()
    }) + (if payload.patient_id is Some {
        seq![PayloadFault::UnexpectedPatientId]
    } else {
        Seq::empty()
    }) + (if payload.address is None {
        seq![PayloadFault::MissingAddress]
    } else {
        Seq::empty()
    })
}

/// Validate a create request body; an empty report means the body can
/// become a create command.
pub fn validate_create_payload(payload: &RESTPrescriptionMutation) -> (r: Vec<PayloadFault>)
    ensures
        r@ == create_payload_faults(*payload),
{
    let mut faults: Vec<PayloadFault> = Vec::new();
    if payload.medication_id.is_none() {
        faults.push(PayloadFault::MissingMedicationId);
    }
    if payload.patient_id.is_none() {
        faults.push(PayloadFault::MissingPatientId);
    }
    if payload.address.is_none() {
        faults.push(PayloadFault::MissingAddress);
    }
    proof {
        assert(faults@ =~= create_payload_faults(*payload));
    }
    faults
}

/// Validate an update request body; an empty report means the body can
/// become an update command.
pub fn validate_update_payload(payload: &RESTPrescriptionMutation) -> (r: Vec<PayloadFault>)
    ensures
        r@ == update_payload_faults(*payload),
{
    let mut faults: Vec<PayloadFault> = Vec::new();
    if payload.medication_id.is_some() {
        faults.push(PayloadFault::UnexpectedMedicationId);
    }
    if payload.patient_id.is_some() {
        faults.push(PayloadFault::UnexpectedPatientId);
    }
    if payload.address.is_none() {
        faults.push(PayloadFault::MissingAddress);
    }
    proof {
        assert(faults@ =~= update_payload_faults(*payload));
    }
    faults
}

} // verus!
