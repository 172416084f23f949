//! Commands of the prescription aggregate: transient operation requests,
//! never persisted directly.

use vstd::prelude::*;

verus! {

/// A request to operate on one prescription.
pub enum PrescriptionCommand {
    CreatePrescription(CreatePrescriptionCommand),
    UpdatePrescription(UpdatePrescriptionCommand),
}

impl PrescriptionCommand {
    /// The command's name, as used in error reports.
    pub open spec fn to_string_spec(self) -> Seq<char> {
        match self {
            PrescriptionCommand::CreatePrescription(_) => "CreatePrescription"@,
            PrescriptionCommand::UpdatePrescription(_) => "UpdatePrescription"@,
        }
    }

    pub fn to_string(&self) -> (r: String)
        ensures
            r@ == self.to_string_spec(),
    {
        match self {
            PrescriptionCommand::CreatePrescription(_) => "CreatePrescription".to_owned(),
            PrescriptionCommand::UpdatePrescription(_) => "UpdatePrescription".to_owned(),
        }
    }
}

impl Clone for PrescriptionCommand {
    fn clone(&self) -> (r: Self)
        ensures
            r == *self,
    {
        match self {
            PrescriptionCommand::CreatePrescription(c) => PrescriptionCommand::CreatePrescription(
                CreatePrescriptionCommand {
                    medication_id: c.medication_id.clone(),
                    patient_id: c.patient_id.clone(),
                    address: c.address.clone(),
                },
            ),
            PrescriptionCommand::UpdatePrescription(u) => PrescriptionCommand::UpdatePrescription(
                UpdatePrescriptionCommand { id: u.id.clone(), address: u.address.clone() },
            ),
        }
    }
}

/// The fields needed to decide a `PrescriptionCreated` event.
pub struct CreatePrescriptionCommand {
    pub medication_id: String,
    pub patient_id: String,
    pub address: String,
}

impl From<CreatePrescriptionCommand> for PrescriptionCommand {
    fn from(command: CreatePrescriptionCommand) -> (r: PrescriptionCommand)
        ensures
            r == PrescriptionCommand::CreatePrescription(command),
    {
        PrescriptionCommand::CreatePrescription(command)
    }
}

impl vstd::std_specs::convert::FromSpecImpl<CreatePrescriptionCommand> for PrescriptionCommand {
    open spec fn obeys_from_spec() -> bool {
        true
    }

    open spec fn from_spec(command: CreatePrescriptionCommand) -> PrescriptionCommand {
        PrescriptionCommand::CreatePrescription(command)
    }
}

/// The fields needed to decide a `PrescriptionUpdated` event.
pub struct UpdatePrescriptionCommand {
    pub id: String,
    pub address: String,
}

impl From<UpdatePrescriptionCommand> for PrescriptionCommand {
    fn from(command: UpdatePrescriptionCommand) -> (r: PrescriptionCommand)
        ensures
            r == PrescriptionCommand::UpdatePrescription(command),
    {
        PrescriptionCommand::UpdatePrescription(command)
    }
}

impl vstd::std_specs::convert::FromSpecImpl<UpdatePrescriptionCommand> for PrescriptionCommand {
    open spec fn obeys_from_spec() -> bool {
        true
    }

    open spec fn from_spec(command: UpdatePrescriptionCommand) -> PrescriptionCommand {
        PrescriptionCommand::UpdatePrescription(command)
    }
}

} // verus!
