//! The sync forwarder: what is sent out for each event taken from the bus.

use vstd::prelude::*;

use crate::adapters::entities::patient::clinical_message;
use crate::proto::fhir::{Patient, PatientView};
use crate::{Event, EventView};

verus! {

/// What the forwarder does after a receive on the bus.
#[derive(Debug)]
pub enum ForwardStep {
    /// Hand this message to the outbound side, then receive again.
    Deliver(Patient),
    /// The bus is closed: every producer is gone. The forwarder ends.
    Finished,
}

/// What a [`ForwardStep`] holds, as plain text and numbers.
pub enum ForwardStepView {
    Deliver(PatientView),
    Finished,
}

impl View for ForwardStep {
    type V = ForwardStepView;

    open spec fn view(&self) -> ForwardStepView {
        match self {
            ForwardStep::Deliver(message) => ForwardStepView::Deliver(message@),
            ForwardStep::Finished => ForwardStepView::Finished,
        }
    }
}

/// The message that goes out for an event.
pub open spec fn outbound_message(event: EventView) -> PatientView {
    match event {
        EventView::PatientUpsert(patient) => clinical_message(patient),
    }
}

/// What follows a receive: an event is adapted and delivered; a closed bus
/// ends the forwarder, and nothing else does.
pub open spec fn forward_step(received: Option<EventView>) -> ForwardStepView {
    match received {
        Some(event) => ForwardStepView::Deliver(outbound_message(event)),
        None => ForwardStepView::Finished,
    }
}

/// The messages that go out for a run of events: one for each, in the order
/// in which the events were received.
pub open spec fn outbound_messages(events: Seq<EventView>) -> Seq<PatientView> {
    Seq::new(events.len(), |i: int| outbound_message(events[i]))
}

/// Adapts one event.
pub fn adapt(event: Event) -> (message: Patient)
    ensures
        message@ == outbound_message(event@),
{
    match event {
        Event::PatientUpsert(patient) => Patient::from(patient),
    }
}

/// Computes [`forward_step`].
pub fn forward(received: Option<Event>) -> (step: ForwardStep)
    ensures
        step@ == forward_step(received.deep_view()),
{
    match received {
        Some(event) => ForwardStep::Deliver(adapt(event)),
        None => ForwardStep::Finished,
    }
}

/// Adapts a run of events that was taken from the bus in one go.
pub fn forward_all(events: Vec<Event>) -> (messages: Vec<Patient>)
    ensures
        messages.deep_view() == outbound_messages(events.deep_view()),
{
    let ghost all = events@;
    let mut messages: Vec<Patient> = Vec::new();
    for event in it: events.into_iter()
        invariant
            it.seq() == all,
            messages@.len() == it.index(),
            forall|k: int|
                0 <= k < it.index() ==> (#[trigger] messages@[k])@ == outbound_message(all[k]@),
    {
        messages.push(adapt(event));
    }
    assert(messages.deep_view() =~= outbound_messages(events.deep_view()));
    messages
}

} // verus!
