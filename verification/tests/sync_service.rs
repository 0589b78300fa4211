use patient_sync::proto::fhir_sync::{Ack, ChangeSet, Patient, PatientRef};
use patient_sync::service::fhir_sync::{
    Inbound, MyFhirSyncService, StreamStep, ACK_BUFFER, CHANGE_RECEIVED, STATUS_OK,
};

fn change(payload: &[u8]) -> Inbound {
    Inbound::Change(ChangeSet { payload: payload.to_vec() })
}

fn messages(acks: &[Ack]) -> Vec<&str> {
    acks.iter().map(|ack| ack.message.as_str()).collect()
}

#[test]
fn get_patient_echoes_the_id() {
    let service = MyFhirSyncService::default();
    let patient = service.get_patient(PatientRef { id: "pat-17".to_string() });
    assert_eq!(patient.id, "pat-17");

    let empty = service.get_patient(PatientRef { id: String::new() });
    assert_eq!(empty.id, "");
}

#[test]
fn upsert_acknowledges_under_the_same_id() {
    let service = MyFhirSyncService;
    let ack = service.upsert_patient(Patient { id: "pat-17".to_string() });
    assert_eq!(ack.id, "pat-17");
    assert_eq!(ack.status, "ok");
    assert_eq!(STATUS_OK, "ok");
}

#[test]
fn upsert_twice_gives_the_same_acknowledgment() {
    let service = MyFhirSyncService;
    let message = Patient { id: "pat-17".to_string() };
    let first = service.upsert_patient(message.clone());
    let second = service.upsert_patient(message);
    assert_eq!(first.id, second.id);
    assert_eq!(first.status, second.status);
}

#[test]
fn each_change_set_is_acknowledged() {
    let service = MyFhirSyncService;
    match service.receive(&change(b"abc")) {
        StreamStep::Acknowledge(ack) => assert_eq!(ack.message, "got it"),
        StreamStep::Close => panic!("a change-set closed the exchange"),
    }
    assert_eq!(CHANGE_RECEIVED, "got it");
}

#[test]
fn end_and_fault_close_without_acknowledgment() {
    let service = MyFhirSyncService;
    assert!(matches!(service.receive(&Inbound::End), StreamStep::Close));
    assert!(matches!(service.receive(&Inbound::Fault), StreamStep::Close));
}

#[test]
fn n_change_sets_give_n_acknowledgments() {
    let service = MyFhirSyncService;
    for n in [0usize, 1, 2, 5, 40] {
        let inbound: Vec<Inbound> = (0..n).map(|i| change(&[i as u8])).collect();
        let acks = service.stream_changes(inbound);
        assert_eq!(acks.len(), n);
        assert!(acks.iter().all(|ack| ack.message == "got it"));
    }
}

#[test]
fn acknowledgments_stop_at_the_end_of_the_stream() {
    let service = MyFhirSyncService;
    let acks = service.stream_changes(vec![change(b"1"), change(b"2"), Inbound::End]);
    assert_eq!(messages(&acks), vec!["got it", "got it"]);
}

#[test]
fn nothing_is_acknowledged_after_a_fault() {
    let service = MyFhirSyncService;
    let acks = service.stream_changes(vec![
        change(b"1"),
        Inbound::Fault,
        change(b"2"),
        change(b"3"),
    ]);
    assert_eq!(messages(&acks), vec!["got it"]);

    let none = service.stream_changes(vec![Inbound::Fault, change(b"1")]);
    assert!(none.is_empty());
}

#[test]
fn a_prefix_of_the_stream_gives_a_prefix_of_the_acknowledgments() {
    let service = MyFhirSyncService;
    let all: Vec<Inbound> = (0..6u8).map(|i| change(&[i])).collect();
    let whole = service.stream_changes(all.clone());
    for k in 0..=all.len() {
        let part = service.stream_changes(all[..k].to_vec());
        assert_eq!(messages(&part), messages(&whole[..k]));
    }
}

#[test]
fn acknowledgment_buffer_holds_thirty_two() {
    assert_eq!(ACK_BUFFER, 32);
}
