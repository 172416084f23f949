//! Errors surfaced by the prescription aggregate and its command service.

use vstd::prelude::*;

verus! {

/// What can go wrong while deciding or committing a prescription command.
#[derive(Debug)]
pub enum PrescriptionError {
    /// Business-rule rejection: the named medication does not exist.
    MedicationNotExist(String),
    /// No transition matched the active state: the named command is invalid
    /// for the aggregate's current lifecycle phase.
    StateMachineTransitionFail(String),
    /// Catch-all for storage failures and contract violations.
    UnknownError,
}

impl PrescriptionError {
    /// A human-readable description of the error.
    pub fn message(&self) -> String {
        match self {
            PrescriptionError::MedicationNotExist(_) => {
                "prescription invalid, medication does not exist".to_owned()
            },
            PrescriptionError::StateMachineTransitionFail(_) => {
                "state machine failed to emit event for command".to_owned()
            },
            PrescriptionError::UnknownError => "unknown error occured".to_owned(),
        }
    }
}

} // verus!
