use patient_sync::binlog::{
    CdcListener, ListenerAction, ListenerInput, ListenerState, LogRecord, RowEvent,
};
use patient_sync::ext::column_value_ext::ColumnValue;
use patient_sync::Event;

fn row(id: &str) -> RowEvent {
    RowEvent {
        column_values: vec![
            ColumnValue::String(id.as_bytes().to_vec()),
            ColumnValue::String(b"Ann".to_vec()),
            ColumnValue::String(b"Lee".to_vec()),
            ColumnValue::Date("2001-02-03".to_string()),
            ColumnValue::String(b"f".to_vec()),
        ],
    }
}

fn streaming() -> CdcListener {
    let mut listener = CdcListener::new();
    listener.step(ListenerInput::Start);
    listener.step(ListenerInput::Connected);
    listener
}

fn announce(listener: &mut CdcListener, table_id: u64, name: &str) {
    let action = listener.step(ListenerInput::Record(LogRecord::TableMap {
        table_id,
        table_name: name.to_string(),
    }));
    assert_eq!(published(action), Vec::<String>::new());
}

fn published(action: ListenerAction) -> Vec<String> {
    match action {
        ListenerAction::Publish(events) => events
            .into_iter()
            .map(|event| match event {
                Event::PatientUpsert(patient) => patient.demographic_no,
            })
            .collect(),
        other => panic!("expected a publish, got {:?}", other),
    }
}

#[test]
fn session_runs_from_start_to_streaming() {
    let mut listener = CdcListener::new();
    assert_eq!(listener.state(), ListenerState::Disconnected);

    assert!(matches!(listener.step(ListenerInput::Start), ListenerAction::Connect));
    assert_eq!(listener.state(), ListenerState::Connecting);

    let action = listener.step(ListenerInput::Connected);
    assert_eq!(published(action), Vec::<String>::new());
    assert_eq!(listener.state(), ListenerState::Streaming);
}

#[test]
fn fault_while_connecting_ends_the_session() {
    let mut listener = CdcListener::new();
    listener.step(ListenerInput::Start);
    assert!(matches!(listener.step(ListenerInput::Fault), ListenerAction::Stop));
    assert_eq!(listener.state(), ListenerState::Disconnected);
}

#[test]
fn fault_while_streaming_ends_the_session() {
    let mut listener = streaming();
    assert!(matches!(listener.step(ListenerInput::Fault), ListenerAction::Stop));
    assert_eq!(listener.state(), ListenerState::Disconnected);
}

#[test]
fn input_out_of_turn_ends_the_session() {
    let mut idle = CdcListener::new();
    assert!(matches!(idle.step(ListenerInput::Connected), ListenerAction::Stop));
    assert_eq!(idle.state(), ListenerState::Disconnected);

    let mut idle = CdcListener::new();
    assert!(matches!(
        idle.step(ListenerInput::Record(LogRecord::Other)),
        ListenerAction::Stop
    ));
    assert_eq!(idle.state(), ListenerState::Disconnected);

    let mut connecting = CdcListener::new();
    connecting.step(ListenerInput::Start);
    assert!(matches!(connecting.step(ListenerInput::Start), ListenerAction::Stop));
    assert_eq!(connecting.state(), ListenerState::Disconnected);

    let mut running = streaming();
    assert!(matches!(running.step(ListenerInput::Connected), ListenerAction::Stop));
    assert_eq!(running.state(), ListenerState::Disconnected);
}

#[test]
fn rows_of_an_announced_tracked_table_are_published() {
    let mut listener = streaming();
    announce(&mut listener, 42, "demographic");
    assert_eq!(listener.table_name(42), Some("demographic".to_string()));

    let action = listener.step(ListenerInput::Record(LogRecord::WriteRows {
        table_id: 42,
        rows: vec![row("1"), row("2")],
    }));
    assert_eq!(published(action), vec!["1".to_string(), "2".to_string()]);
    assert_eq!(listener.state(), ListenerState::Streaming);
}

#[test]
fn rows_of_a_table_that_was_not_announced_are_passed_over() {
    let mut listener = streaming();
    assert_eq!(listener.table_name(42), None);
    let action = listener.step(ListenerInput::Record(LogRecord::WriteRows {
        table_id: 42,
        rows: vec![row("1")],
    }));
    assert_eq!(published(action), Vec::<String>::new());
    assert_eq!(listener.state(), ListenerState::Streaming);
}

#[test]
fn rows_of_another_table_are_passed_over() {
    let mut listener = streaming();
    announce(&mut listener, 42, "demographic");
    announce(&mut listener, 43, "appointment");

    let action = listener.step(ListenerInput::Record(LogRecord::WriteRows {
        table_id: 43,
        rows: vec![row("1"), row("2"), row("3")],
    }));
    assert_eq!(published(action), Vec::<String>::new());
}

#[test]
fn updates_and_deletes_are_published_like_inserts() {
    let mut listener = streaming();
    announce(&mut listener, 7, "demographic");

    let updated = listener.step(ListenerInput::Record(LogRecord::UpdateRows {
        table_id: 7,
        rows: vec![(row("old"), row("new"))],
    }));
    assert_eq!(published(updated), vec!["new".to_string()]);

    let deleted = listener.step(ListenerInput::Record(LogRecord::DeleteRows {
        table_id: 7,
        rows: vec![row("gone")],
    }));
    assert_eq!(published(deleted), vec!["gone".to_string()]);
}

#[test]
fn rows_without_identifier_are_passed_over() {
    let mut listener = streaming();
    announce(&mut listener, 42, "demographic");
    let unnamed = RowEvent { column_values: vec![ColumnValue::Null] };
    let action = listener.step(ListenerInput::Record(LogRecord::WriteRows {
        table_id: 42,
        rows: vec![row("1"), unnamed, row("3")],
    }));
    assert_eq!(published(action), vec!["1".to_string(), "3".to_string()]);
    assert_eq!(listener.state(), ListenerState::Streaming);
}

#[test]
fn housekeeping_records_give_nothing() {
    let mut listener = streaming();
    let action = listener.step(ListenerInput::Record(LogRecord::Other));
    assert_eq!(published(action), Vec::<String>::new());
    assert_eq!(listener.state(), ListenerState::Streaming);
}

#[test]
fn a_later_announcement_replaces_the_name() {
    let mut listener = streaming();
    announce(&mut listener, 5, "demographic");
    announce(&mut listener, 5, "allergies");
    assert_eq!(listener.table_name(5), Some("allergies".to_string()));

    let action = listener.step(ListenerInput::Record(LogRecord::WriteRows {
        table_id: 5,
        rows: vec![row("1")],
    }));
    assert_eq!(published(action), Vec::<String>::new());
}

#[test]
fn a_new_session_knows_no_table() {
    let mut listener = streaming();
    announce(&mut listener, 42, "demographic");
    listener.step(ListenerInput::Fault);
    assert_eq!(listener.table_name(42), None);

    listener.step(ListenerInput::Start);
    listener.step(ListenerInput::Connected);
    assert_eq!(listener.state(), ListenerState::Streaming);
    let action = listener.step(ListenerInput::Record(LogRecord::WriteRows {
        table_id: 42,
        rows: vec![row("1")],
    }));
    assert_eq!(published(action), Vec::<String>::new());
}
