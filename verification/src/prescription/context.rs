//! The throwaway context a prescription decision runs in: the command under
//! consideration, the event the machine decides, and the fresh identifiers
//! the decision may assign.

use vstd::prelude::*;

use crate::prescription::command::PrescriptionCommand;
use crate::prescription::event::PrescriptionEvent;

verus! {

/// Mutable context threaded through one `decide` run of the prescription
/// machine. Identifiers are drawn ahead of the run and carried here, so the
/// machine's hooks stay deterministic functions of the context.
pub struct PrescriptionContext {
    pub command: Option<PrescriptionCommand>,
    pub event: Option<PrescriptionEvent>,
    /// Identifier for an entity the decision may bring into existence.
    pub fresh_id: String,
    /// Identifier for the event the decision may emit.
    pub fresh_event_id: String,
}

impl PrescriptionContext {
    pub fn new(fresh_id: String, fresh_event_id: String) -> (r: Self)
        ensures
            r.command is None,
            r.event is None,
            r.fresh_id == fresh_id,
            r.fresh_event_id == fresh_event_id,
    {
        Self { command: None, event: None, fresh_id, fresh_event_id }
    }

    pub fn get_event(&self) -> (r: &Option<PrescriptionEvent>)
        ensures
            *r == self.event,
    {
        &self.event
    }

    pub fn set_event(&mut self, event: PrescriptionEvent)
        ensures
            *final(self) == (PrescriptionContext { event: Some(event), ..*old(self) }),
    {
        self.event = Some(event);
    }

    pub fn get_command(&self) -> (r: &Option<PrescriptionCommand>)
        ensures
            *r == self.command,
    {
        &self.command
    }

    pub fn set_command(&mut self, command: PrescriptionCommand)
        ensures
            *final(self) == (PrescriptionContext { command: Some(command), ..*old(self) }),
    {
        self.command = Some(command);
    }
}

} // verus!
