//! The synchronisation service: patient lookup, upsert, and the exchange of
//! change-sets against acknowledgments.
//!
//! The service keeps no state. What it answers depends on the request alone.

use vstd::prelude::*;
use vstd::string::StringExecFns;

use crate::proto::fhir_sync::{Ack, ChangeSet, Patient, PatientAck, PatientAckView, PatientRef};

verus! {

/// The status of an acknowledgment that reports success.
pub const STATUS_OK: &'static str = "ok";

/// The message that acknowledges a change-set.
pub const CHANGE_RECEIVED: &'static str = "got it";

/// How many acknowledgments of one exchange may wait to be sent.
pub const ACK_BUFFER: usize = 32;

/// What the inbound side of an exchange gave.
#[derive(Debug, Clone)]
pub enum Inbound {
    /// The peer sent a change-set.
    Change(ChangeSet),
    /// The peer ended the stream.
    End,
    /// The stream failed, or what came could not be read as a change-set.
    Fault,
}

/// What the service does with what the inbound side gave.
#[derive(Debug, Clone)]
pub enum StreamStep {
    /// Send this acknowledgment, then wait for the next change-set.
    Acknowledge(Ack),
    /// Send nothing more and close the outbound side.
    Close,
}

/// The acknowledgment of an upsert: the id of the patient, and success.
pub open spec fn upsert_ack(patient_id: Seq<char>) -> PatientAckView {
    PatientAckView { id: patient_id, status: STATUS_OK@ }
}

/// The acknowledgments of one exchange, in the order in which they are sent:
/// one for each change-set up to the first end or fault, none after it.
pub open spec fn acknowledgments(inbound: Seq<Inbound>) -> Seq<Seq<char>>
    decreases inbound.len(),
{
    if inbound.len() == 0 {
        Seq::empty()
    } else {
        match inbound[0] {
            Inbound::Change(_) => seq![CHANGE_RECEIVED@] + acknowledgments(inbound.drop_first()),
            _ => Seq::empty(),
        }
    }
}

/// The service.
#[derive(Debug)]
pub struct MyFhirSyncService;

impl Default for MyFhirSyncService {
    fn default() -> (service: MyFhirSyncService) {
        MyFhirSyncService
    }
}

impl MyFhirSyncService {
    /// Looks a patient up by logical id. No store stands behind the lookup:
    /// the answer is the patient with the id that was asked for.
    pub fn get_patient(&self, request: PatientRef) -> (patient: Patient)
        ensures
            patient@ == request@,
    {
        Patient { id: request.id }
    }

    /// Accepts a patient and acknowledges it under the same id, with success.
    pub fn upsert_patient(&self, request: Patient) -> (ack: PatientAck)
        ensures
            ack@ == upsert_ack(request@),
    {
        PatientAck { id: request.id, status: String::from_str(STATUS_OK) }
    }

    /// One step of an exchange: a change-set is acknowledged, an end or a
    /// fault closes the exchange without an acknowledgment.
    pub fn receive(&self, inbound: &Inbound) -> (step: StreamStep)
        ensures
            match *inbound {
                Inbound::Change(_) => step matches StreamStep::Acknowledge(ack) && ack@
                    == CHANGE_RECEIVED@,
                _ => step is Close,
            },
    {
        match inbound {
            Inbound::Change(_) => StreamStep::Acknowledge(
                Ack { message: String::from_str(CHANGE_RECEIVED) },
            ),
            _ => StreamStep::Close,
        }
    }

    /// A whole exchange: takes what the inbound side gives, in order, and
    /// returns what is sent, in order.
    pub fn stream_changes(&self, inbound: Vec<Inbound>) -> (acks: Vec<Ack>)
        ensures
            acks.deep_view() == acknowledgments(inbound@),
    {
        let mut acks: Vec<Ack> = Vec::new();
        let n: usize = inbound.len();
        let mut i: usize = 0;
        assert(inbound@.skip(0) =~= inbound@);
        assert(acks.deep_view() =~= Seq::<Seq<char>>::empty());
        while i < n
            invariant
                i <= n,
                n == inbound@.len(),
                acknowledgments(inbound@) == acks.deep_view() + acknowledgments(
                    inbound@.skip(i as int),
                ),
            decreases n - i,
        {
            let ghost sent = acks.deep_view();
            let ghost rest = inbound@.skip(i as int);
            assert(rest.len() > 0 && rest[0] == inbound@[i as int]);
            match self.receive(&inbound[i]) {
                StreamStep::Acknowledge(ack) => {
                    acks.push(ack);
                },
                StreamStep::Close => {
                    return acks;
                },
            }
            i += 1;
            proof {
                assert(rest.drop_first() =~= inbound@.skip(i as int));
                assert(acks.deep_view() =~= sent + seq![CHANGE_RECEIVED@]);
                assert(acknowledgments(inbound@) =~= acks.deep_view() + acknowledgments(
                    inbound@.skip(i as int),
                ));
            }
        }
        assert(inbound@.skip(n as int) =~= Seq::<Inbound>::empty());
        assert(acknowledgments(inbound@) =~= acks.deep_view());
        acks
    }
}

/// Idempotence of the upsert: two acknowledgments of the same patient carry
/// the same id and the same status.
pub proof fn lemma_upsert_is_idempotent(
    patient_id: Seq<char>,
    first: PatientAckView,
    second: PatientAckView,
)
    requires
        first == upsert_ack(patient_id),
        second == upsert_ack(patient_id),
    ensures
        first.id == second.id,
        first.status == second.status,
        first.id == patient_id,
        first.status == STATUS_OK@,
{
}

/// Where the inbound side gives nothing but change-sets, the exchange sends
/// exactly one acknowledgment for each.
pub proof fn lemma_one_ack_for_each_change(inbound: Seq<Inbound>)
    requires
        forall|i: int| 0 <= i < inbound.len() ==> inbound[i] is Change,
    ensures
        acknowledgments(inbound).len() == inbound.len(),
        forall|i: int|
            0 <= i < inbound.len() ==> #[trigger] acknowledgments(inbound)[i] == CHANGE_RECEIVED@,
    decreases inbound.len(),
{
    if inbound.len() > 0 {
        let rest = inbound.drop_first();
        assert forall|i: int| 0 <= i < rest.len() implies rest[i] is Change by {
            assert(rest[i] == inbound[i + 1]);
        }
        lemma_one_ack_for_each_change(rest);
        assert forall|i: int| 0 <= i < inbound.len() implies #[trigger] acknowledgments(
            inbound,
        )[i] == CHANGE_RECEIVED@ by {
            if i > 0 {
                assert(acknowledgments(inbound)[i] == acknowledgments(rest)[i - 1]);
            }
        }
    }
}

/// Acknowledgments keep the order of arrival: what is sent for the first `k`
/// change-sets is the first `k` of what is sent for all of them. No
/// acknowledgment waits for a later change-set, and none overtakes another.
pub proof fn lemma_acks_follow_arrival(inbound: Seq<Inbound>, k: int)
    requires
        0 <= k <= inbound.len(),
        forall|i: int| 0 <= i < inbound.len() ==> inbound[i] is Change,
    ensures
        acknowledgments(inbound.take(k)) == acknowledgments(inbound).take(k),
{
    let head = inbound.take(k);
    assert forall|i: int| 0 <= i < head.len() implies head[i] is Change by {
        assert(head[i] == inbound[i]);
    }
    lemma_one_ack_for_each_change(inbound);
    lemma_one_ack_for_each_change(head);
    assert(acknowledgments(head) =~= acknowledgments(inbound).take(k));
}

} // verus!
