//! The external capability set a prescription decision may consult
//! (validation lookups and the like). The sample domain needs none, so the
//! trait is a bare capability marker with a default empty implementation.

use vstd::prelude::*;

verus! {

/// Capabilities injected into the prescription decision step.
pub trait PrescriptionServices {

}

/// The empty capability set: decisions that consult nothing.
pub struct DefaultPrescriptionServices;

impl PrescriptionServices for DefaultPrescriptionServices {

}

} // verus!
