//! The ingestion endpoint: what becomes of a patient that was submitted
//! directly.

use vstd::prelude::*;

use crate::domain::patient::{DomainPatient, DomainPatientView};
use crate::{Event, EventView};

verus! {

/// The HTTP status that tells the submitter the patient was accepted.
pub const STATUS_OK: u16 = 200;

/// What the endpoint does with a submission.
#[derive(Debug)]
pub struct Accepted {
    /// The event to publish on the bus, if there is one.
    pub event: Option<Event>,
    /// The HTTP status to answer with.
    pub status: u16,
}

/// The event for a submitted patient. A patient whose `demographic_no` is
/// empty gives none: no event goes out without an identifier.
pub open spec fn submitted_event(patient: DomainPatientView) -> Option<EventView> {
    if patient.has_identity() {
        Some(EventView::PatientUpsert(patient))
    } else {
        None
    }
}

/// Accepts a submitted patient. Whatever could be read as a patient is
/// accepted as it is: the endpoint validates nothing further, and answers
/// with success also where it has no event to publish.
pub fn handle_upsert(dto: DomainPatient) -> (accepted: Accepted)
    ensures
        accepted.event.deep_view() == submitted_event(dto@),
        accepted.status == STATUS_OK,
{
    let event = if dto.has_identity() {
        Some(Event::PatientUpsert(dto))
    } else {
        None
    };
    Accepted { event, status: STATUS_OK }
}

} // verus!
