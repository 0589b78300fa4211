//! The change-data-capture listener: which records of the replication log
//! become events, and what each event holds.
//!
//! The log is a strictly ordered sequence of typed records. A row record names
//! its table by a number only, so the listener keeps the table names that the
//! log announced and reads each row record against them.

use std::collections::HashMap;
use vstd::prelude::*;

use crate::domain::patient::{DomainPatient, DomainPatientView};
use crate::ext::column_value_ext::{ColumnValue, ColumnValueExt};
use crate::text::eq_text;
use crate::{Event, EventView};

verus! {

broadcast use vstd::std_specs::hash::group_hash_axioms;

/// The one table whose rows become events.
pub const TRACKED_TABLE: &'static str = "demographic";

/// Position of the patient identifier among a row's values.
pub const DEMOGRAPHIC_NO_COLUMN: usize = 0;

/// Position of the given name.
pub const FIRST_NAME_COLUMN: usize = 1;

/// Position of the family name.
pub const LAST_NAME_COLUMN: usize = 2;

/// Position of the date of birth.
pub const DATE_OF_BIRTH_COLUMN: usize = 3;

/// Position of the sex.
pub const SEX_COLUMN: usize = 4;

/// The values of one row, in the order of the table's columns.
#[derive(Debug, Clone)]
pub struct RowEvent {
    pub column_values: Vec<ColumnValue>,
}

impl View for RowEvent {
    type V = Seq<ColumnValue>;

    open spec fn view(&self) -> Seq<ColumnValue> {
        self.column_values@
    }
}

impl DeepView for RowEvent {
    type V = Seq<ColumnValue>;

    open spec fn deep_view(&self) -> Seq<ColumnValue> {
        self@
    }
}

/// Rows inserted into one table. The table's name is known only where the log
/// announced the table before.
#[derive(Debug, Clone)]
pub struct WriteRowsEvent {
    pub table_name: Option<String>,
    pub rows: Vec<RowEvent>,
}

/// Rows changed in one table, each as it was before and as it is after.
#[derive(Debug, Clone)]
pub struct UpdateRowsEvent {
    pub table_name: Option<String>,
    pub rows: Vec<(RowEvent, RowEvent)>,
}

/// Rows removed from one table.
#[derive(Debug, Clone)]
pub struct DeleteRowsEvent {
    pub table_name: Option<String>,
    pub rows: Vec<RowEvent>,
}

/// The text at one position of a row. A position the row does not reach, and
/// a value that holds no text, give none.
pub open spec fn column_text(row: Seq<ColumnValue>, index: int) -> Option<Seq<char>> {
    if 0 <= index < row.len() {
        row[index].text()
    } else {
        None
    }
}

/// The text, or the empty text where there is none.
pub open spec fn text_or_empty(text: Option<Seq<char>>) -> Seq<char> {
    match text {
        Some(t) => t,
        None => Seq::empty(),
    }
}

/// The patient record that a row of the tracked table stands for.
///
/// Reading never rejects a row: a value that cannot be read leaves its field
/// empty (identifier and names) or absent (date of birth and sex). A field
/// that no column feeds is absent.
pub open spec fn patient_of_row(row: Seq<ColumnValue>) -> DomainPatientView {
    DomainPatientView {
        demographic_no: text_or_empty(column_text(row, DEMOGRAPHIC_NO_COLUMN as int)),
        first_name: Some(text_or_empty(column_text(row, FIRST_NAME_COLUMN as int))),
        last_name: Some(text_or_empty(column_text(row, LAST_NAME_COLUMN as int))),
        date_of_birth: column_text(row, DATE_OF_BIRTH_COLUMN as int),
        location: None,
        sex: column_text(row, SEX_COLUMN as int),
        phone: None,
        email: None,
    }
}

/// A row names its patient: the identifier column holds text, and the text is
/// not empty.
pub open spec fn names_patient(row: Seq<ColumnValue>) -> bool {
    column_text(row, DEMOGRAPHIC_NO_COLUMN as int) matches Some(id) && id.len() > 0
}

/// Whether rows of the table are tracked. A table whose name is not known is
/// not.
pub open spec fn tracks(table_name: Option<Seq<char>>) -> bool {
    table_name == Some(TRACKED_TABLE@)
}

/// The row mapper: the record for a row of the tracked table, and nothing for
/// a row of any other table.
pub open spec fn row_mapper(table_name: Option<Seq<char>>, row: Seq<ColumnValue>) -> Option<
    DomainPatientView,
> {
    if tracks(table_name) {
        Some(patient_of_row(row))
    } else {
        None
    }
}

/// The event for one row of the tracked table. A row that does not name its
/// patient gives none: no event goes out without an identifier.
pub open spec fn row_upsert(row: Seq<ColumnValue>) -> Option<EventView> {
    if names_patient(row) {
        Some(EventView::PatientUpsert(patient_of_row(row)))
    } else {
        None
    }
}

/// [`row_upsert`] as a function value.
pub open spec fn upsert_of_row() -> spec_fn(Seq<ColumnValue>) -> Option<EventView> {
    |row: Seq<ColumnValue>| row_upsert(row)
}

/// The events for the rows of one table: one upsert for each row of the
/// tracked table that names its patient, in the order of the rows, and none
/// for any other row or any other table.
pub open spec fn upserts(table_name: Option<Seq<char>>, rows: Seq<Seq<ColumnValue>>) -> Seq<
    EventView,
> {
    if tracks(table_name) {
        rows.filter_map(upsert_of_row())
    } else {
        Seq::empty()
    }
}

/// Every event holds a patient with an identifier.
pub open spec fn all_identified(events: Seq<EventView>) -> bool {
    forall|i: int|
        0 <= i < events.len() ==> (#[trigger] events[i] matches EventView::PatientUpsert(p)
            && p.has_identity())
}

/// The event is the one that the row gives.
pub open spec fn event_of_row(event: EventView, row: Seq<ColumnValue>) -> bool {
    row_upsert(row) == Some(event)
}

/// The event is the one that some row of the batch gives.
pub open spec fn has_source(event: EventView, rows: Seq<Seq<ColumnValue>>) -> bool {
    exists|j: int| 0 <= j < rows.len() && #[trigger] event_of_row(event, rows[j])
}

/// Every event is the one that some row of the batch gives: nothing goes out
/// that was not read from a row.
pub open spec fn all_from_rows(events: Seq<EventView>, rows: Seq<Seq<ColumnValue>>) -> bool {
    forall|i: int| 0 <= i < events.len() ==> has_source(#[trigger] events[i], rows)
}

/// A row as it stands in a batch: by itself, or as one of a pair.
pub trait RowImage {
    /// The values that are read.
    spec fn image(&self) -> Seq<ColumnValue>;

    /// The row that is read.
    fn row(&self) -> (row: &RowEvent)
        ensures
            row@ == self.image(),
    ;
}

impl RowImage for RowEvent {
    open spec fn image(&self) -> Seq<ColumnValue> {
        self@
    }

    fn row(&self) -> (row: &RowEvent) {
        self
    }
}

impl RowImage for (RowEvent, RowEvent) {
    /// Of a row before and after a change, the row after it is read.
    open spec fn image(&self) -> Seq<ColumnValue> {
        self.1@
    }

    fn row(&self) -> (row: &RowEvent) {
        &self.1
    }
}

/// The values that are read of each row of a batch.
pub open spec fn images<R: RowImage>(rows: Seq<R>) -> Seq<Seq<ColumnValue>> {
    Seq::new(rows.len(), |i: int| rows[i].image())
}

/// The rows as they are after the change.
pub open spec fn after_images(rows: Seq<(RowEvent, RowEvent)>) -> Seq<Seq<ColumnValue>> {
    images(rows)
}

/// Computes [`tracks`].
pub fn is_tracked(table_name: &Option<String>) -> (yes: bool)
    ensures
        yes == tracks(table_name.deep_view()),
{
    match table_name {
        Some(name) => eq_text(name.as_str(), TRACKED_TABLE),
        None => false,
    }
}

/// The text at one position of a row, if there is any.
fn text_at(row: &RowEvent, index: usize) -> (text: Option<&str>)
    ensures
        match text {
            Some(t) => column_text(row@, index as int) == Some(t@),
            None => column_text(row@, index as int) is None,
        },
{
    if index < row.column_values.len() {
        row.column_values[index].as_str()
    } else {
        None
    }
}

/// An owned copy of the text, or the empty text where there is none.
fn owned_or_empty(text: Option<&str>) -> (owned: String)
    ensures
        owned@ == text_or_empty(text.deep_view()),
{
    match text {
        Some(t) => t.to_owned(),
        None => String::new(),
    }
}

/// An owned copy of the text, if there is any.
fn owned(text: Option<&str>) -> (owned: Option<String>)
    ensures
        owned.deep_view() == text.deep_view(),
{
    match text {
        Some(t) => Some(t.to_owned()),
        None => None,
    }
}

/// Reads one row of the tracked table as a patient record.
pub fn map_row(row: &RowEvent) -> (patient: DomainPatient)
    ensures
        patient@ == patient_of_row(row@),
        names_patient(row@) <==> patient@.has_identity(),
{
    DomainPatient {
        demographic_no: owned_or_empty(text_at(row, DEMOGRAPHIC_NO_COLUMN)),
        first_name: Some(owned_or_empty(text_at(row, FIRST_NAME_COLUMN))),
        last_name: Some(owned_or_empty(text_at(row, LAST_NAME_COLUMN))),
        date_of_birth: owned(text_at(row, DATE_OF_BIRTH_COLUMN)),
        location: None,
        sex: owned(text_at(row, SEX_COLUMN)),
        phone: None,
        email: None,
    }
}

/// The events for a batch of rows of one table.
fn upserts_for<R: RowImage>(table_name: &Option<String>, rows: &Vec<R>) -> (events: Vec<Event>)
    ensures
        events.deep_view() == upserts(table_name.deep_view(), images(rows@)),
        all_identified(events.deep_view()),
        all_from_rows(events.deep_view(), images(rows@)),
{
    let mut events: Vec<Event> = Vec::new();
    if !is_tracked(table_name) {
        assert(events.deep_view() =~= Seq::<EventView>::empty());
        return events;
    }
    let ghost all = images(rows@);
    let n: usize = rows.len();
    let mut i: usize = 0;
    assert(events.deep_view() =~= all.take(0).filter_map(upsert_of_row()));
    while i < n
        invariant
            i <= n,
            n == rows@.len(),
            all == images(rows@),
            events.deep_view() == all.take(i as int).filter_map(upsert_of_row()),
            all_identified(events.deep_view()),
            all_from_rows(events.deep_view(), all),
        decreases n - i,
    {
        let ghost sent = events.deep_view();
        let patient = map_row(rows[i].row());
        proof {
            all.lemma_filter_map_take_succ(upsert_of_row(), i as int);
        }
        if patient.has_identity() {
            events.push(Event::PatientUpsert(patient));
            assert(events.deep_view() =~= sent + seq![EventView::PatientUpsert(patient@)]);
            let ghost now = events.deep_view();
            assert forall|k: int| 0 <= k < now.len() implies has_source(#[trigger] now[k], all) by {
                if k < sent.len() {
                    assert(now[k] == sent[k]);
                } else {
                    assert(event_of_row(now[k], all[i as int]));
                }
            }
        }
        i += 1;
    }
    assert(all.take(n as int) =~= all);
    events
}

/// Turns the rows of an insert into events.
///
/// Rows of any table but the tracked one are passed over in silence, and so
/// is a row without an identifier: that is filtering, not a failure.
pub fn handle_write_rows(event: &WriteRowsEvent) -> (events: Vec<Event>)
    ensures
        events.deep_view() == upserts(event.table_name.deep_view(), event.rows.deep_view()),
        all_identified(events.deep_view()),
        all_from_rows(events.deep_view(), event.rows.deep_view()),
{
    assert(images(event.rows@) =~= event.rows.deep_view());
    upserts_for(&event.table_name, &event.rows)
}

/// Turns the rows of an update into events, each row as it is after the
/// change. An update and an insert give the same kind of event.
pub fn handle_update_rows(event: &UpdateRowsEvent) -> (events: Vec<Event>)
    ensures
        events.deep_view() == upserts(event.table_name.deep_view(), after_images(event.rows@)),
        all_identified(events.deep_view()),
        all_from_rows(events.deep_view(), after_images(event.rows@)),
{
    upserts_for(&event.table_name, &event.rows)
}

/// Turns the rows of a delete into events, each row as it was.
pub fn handle_delete_rows(event: &DeleteRowsEvent) -> (events: Vec<Event>)
    ensures
        events.deep_view() == upserts(event.table_name.deep_view(), event.rows.deep_view()),
        all_identified(events.deep_view()),
        all_from_rows(events.deep_view(), event.rows.deep_view()),
{
    assert(images(event.rows@) =~= event.rows.deep_view());
    upserts_for(&event.table_name, &event.rows)
}

/// One record of the replication log, as far as the listener reads it.
#[derive(Debug, Clone)]
pub enum LogRecord {
    /// The log announces a table: rows that follow name it by `table_id`.
    TableMap { table_id: u64, table_name: String },
    /// Rows were inserted.
    WriteRows { table_id: u64, rows: Vec<RowEvent> },
    /// Rows were changed; each comes as it was before and as it is after.
    UpdateRows { table_id: u64, rows: Vec<(RowEvent, RowEvent)> },
    /// Rows were removed.
    DeleteRows { table_id: u64, rows: Vec<RowEvent> },
    /// A housekeeping record: a heartbeat, a rotation, a transaction mark.
    Other,
}

/// Where a listener stands in its session.
#[derive(Debug, Clone, Copy, PartialEq, Eq, Structural)]
pub enum ListenerState {
    /// No session: none was started yet, or the last one ended.
    Disconnected,
    /// A connection to the log was asked for and is not yet there.
    Connecting,
    /// Records are being read.
    Streaming,
}

/// What happened outside the listener.
#[derive(Debug, Clone)]
pub enum ListenerInput {
    /// A session is to begin.
    Start,
    /// The connection to the log stands.
    Connected,
    /// The log gave its next record.
    Record(LogRecord),
    /// Connecting or reading failed.
    Fault,
}

/// What the listener wants done next.
#[derive(Debug)]
pub enum ListenerAction {
    /// Open the connection to the log.
    Connect,
    /// Publish these events in this order, then read the next record.
    Publish(Vec<Event>),
    /// The session is over. Nothing is retried.
    Stop,
}

/// What a [`ListenerAction`] holds, as plain text.
pub enum ListenerActionView {
    Connect,
    Publish(Seq<EventView>),
    Stop,
}

impl View for ListenerAction {
    type V = ListenerActionView;

    open spec fn view(&self) -> ListenerActionView {
        match self {
            ListenerAction::Connect => ListenerActionView::Connect,
            ListenerAction::Publish(events) => ListenerActionView::Publish(events.deep_view()),
            ListenerAction::Stop => ListenerActionView::Stop,
        }
    }
}

/// A listener as a value: its state and the names of the tables that the log
/// announced in this session, by table number.
pub struct ListenerView {
    pub state: ListenerState,
    pub tables: Map<u64, Seq<char>>,
}

/// The name under which a table was announced, if it was.
pub open spec fn announced_name(tables: Map<u64, Seq<char>>, table_id: u64) -> Option<
    Seq<char>,
> {
    if tables.contains_key(table_id) {
        Some(tables[table_id])
    } else {
        None
    }
}

/// The events that one record gives, read against the tables announced so far.
pub open spec fn record_events(tables: Map<u64, Seq<char>>, record: LogRecord) -> Seq<
    EventView,
> {
    match record {
        LogRecord::TableMap { .. } => Seq::empty(),
        LogRecord::WriteRows { table_id, rows } => upserts(
            announced_name(tables, table_id),
            rows.deep_view(),
        ),
        LogRecord::UpdateRows { table_id, rows } => upserts(
            announced_name(tables, table_id),
            after_images(rows@),
        ),
        LogRecord::DeleteRows { table_id, rows } => upserts(
            announced_name(tables, table_id),
            rows.deep_view(),
        ),
        LogRecord::Other => Seq::empty(),
    }
}

/// The tables announced once a record was read: an announcement adds its
/// table, or replaces the name the number had; no other record changes them.
pub open spec fn record_tables(tables: Map<u64, Seq<char>>, record: LogRecord) -> Map<
    u64,
    Seq<char>,
> {
    match record {
        LogRecord::TableMap { table_id, table_name } => tables.insert(table_id, table_name@),
        _ => tables,
    }
}

/// The listener after an input.
///
/// A session runs from `Disconnected` over `Connecting` to `Streaming`. An
/// input that the state does not wait for, a fault among them, ends the
/// session: there is no pause and no way back but a new start. A new session
/// knows no table.
pub open spec fn listener_after(listener: ListenerView, input: ListenerInput) -> ListenerView {
    match (listener.state, input) {
        (ListenerState::Disconnected, ListenerInput::Start) => ListenerView {
            state: ListenerState::Connecting,
            tables: Map::empty(),
        },
        (ListenerState::Connecting, ListenerInput::Connected) => ListenerView {
            state: ListenerState::Streaming,
            tables: Map::empty(),
        },
        (ListenerState::Streaming, ListenerInput::Record(record)) => ListenerView {
            state: ListenerState::Streaming,
            tables: record_tables(listener.tables, record),
        },
        _ => ListenerView { state: ListenerState::Disconnected, tables: Map::empty() },
    }
}

/// What the listener wants done after an input.
pub open spec fn listener_action(listener: ListenerView, input: ListenerInput) -> ListenerActionView {
    match (listener.state, input) {
        (ListenerState::Disconnected, ListenerInput::Start) => ListenerActionView::Connect,
        (ListenerState::Connecting, ListenerInput::Connected) => ListenerActionView::Publish(
            Seq::empty(),
        ),
        (ListenerState::Streaming, ListenerInput::Record(record)) => ListenerActionView::Publish(
            record_events(listener.tables, record),
        ),
        _ => ListenerActionView::Stop,
    }
}

/// The listener's decisions. Whoever owns the connection feeds it what
/// happened and does what it answers.
pub struct CdcListener {
    state: ListenerState,
    tables: HashMap<u64, String>,
}

impl View for CdcListener {
    type V = ListenerView;

    closed spec fn view(&self) -> ListenerView {
        ListenerView {
            state: self.state,
            tables: Map::new(
                |id: u64| self.tables@.contains_key(id),
                |id: u64| self.tables@[id]@,
            ),
        }
    }
}

impl CdcListener {
    /// A listener without a session.
    pub fn new() -> (listener: CdcListener)
        ensures
            listener@ == (ListenerView { state: ListenerState::Disconnected, tables: Map::empty() }),
    {
        let listener = CdcListener { state: ListenerState::Disconnected, tables: HashMap::new() };
        assert(listener@.tables =~= Map::<u64, Seq<char>>::empty());
        listener
    }

    /// Where the listener stands.
    pub fn state(&self) -> (state: ListenerState)
        ensures
            state == self@.state,
    {
        self.state
    }

    /// The name under which the log announced a table in this session.
    pub fn table_name(&self, table_id: u64) -> (name: Option<String>)
        ensures
            name.deep_view() == announced_name(self@.tables, table_id),
    {
        match self.tables.get(&table_id) {
            Some(name) => Some(name.clone()),
            None => None,
        }
    }

    /// Ends the session.
    fn disconnect(&mut self)
        ensures
            final(self)@ == (ListenerView { state: ListenerState::Disconnected, tables: Map::empty() }),
    {
        self.state = ListenerState::Disconnected;
        self.tables = HashMap::new();
        assert(self@.tables =~= Map::<u64, Seq<char>>::empty());
    }

    /// Reads one record in a running session.
    fn read(&mut self, record: LogRecord) -> (events: Vec<Event>)
        requires
            old(self)@.state == ListenerState::Streaming,
        ensures
            final(self)@.state == ListenerState::Streaming,
            final(self)@.tables == record_tables(old(self)@.tables, record),
            events.deep_view() == record_events(old(self)@.tables, record),
            all_identified(events.deep_view()),
    {
        match record {
            LogRecord::TableMap { table_id, table_name } => {
                self.tables.insert(table_id, table_name);
                assert(self@.tables =~= old(self)@.tables.insert(table_id, table_name@));
                let events: Vec<Event> = Vec::new();
                assert(events.deep_view() =~= Seq::<EventView>::empty());
                events
            },
            LogRecord::WriteRows { table_id, rows } => {
                let event = WriteRowsEvent { table_name: self.table_name(table_id), rows };
                handle_write_rows(&event)
            },
            LogRecord::UpdateRows { table_id, rows } => {
                let event = UpdateRowsEvent { table_name: self.table_name(table_id), rows };
                handle_update_rows(&event)
            },
            LogRecord::DeleteRows { table_id, rows } => {
                let event = DeleteRowsEvent { table_name: self.table_name(table_id), rows };
                handle_delete_rows(&event)
            },
            LogRecord::Other => {
                let events: Vec<Event> = Vec::new();
                assert(events.deep_view() =~= Seq::<EventView>::empty());
                events
            },
        }
    }

    /// Takes what happened and answers what is to be done.
    pub fn step(&mut self, input: ListenerInput) -> (action: ListenerAction)
        ensures
            final(self)@ == listener_after(old(self)@, input),
            action@ == listener_action(old(self)@, input),
            action@ matches ListenerActionView::Publish(events) ==> all_identified(events),
    {
        match (self.state, input) {
            (ListenerState::Disconnected, ListenerInput::Start) => {
                self.disconnect();
                self.state = ListenerState::Connecting;
                ListenerAction::Connect
            },
            (ListenerState::Connecting, ListenerInput::Connected) => {
                self.disconnect();
                self.state = ListenerState::Streaming;
                let events: Vec<Event> = Vec::new();
                assert(events.deep_view() =~= Seq::<EventView>::empty());
                ListenerAction::Publish(events)
            },
            (ListenerState::Streaming, ListenerInput::Record(record)) => {
                let events = self.read(record);
                ListenerAction::Publish(events)
            },
            _ => {
                self.disconnect();
                ListenerAction::Stop
            },
        }
    }
}

/// For every row of the tracked table that names its patient, the row
/// mapper gives a record, and the record's `demographic_no` is the text of
/// the identifier column: not empty, and unchanged. The event for the row
/// holds that record.
pub proof fn lemma_tracked_row_keeps_identifier(
    table_name: Option<Seq<char>>,
    row: Seq<ColumnValue>,
)
    requires
        tracks(table_name),
        names_patient(row),
    ensures
        row_mapper(table_name, row) matches Some(patient) && patient.has_identity()
            && column_text(row, DEMOGRAPHIC_NO_COLUMN as int) == Some(patient.demographic_no)
            && upserts(table_name, seq![row]) == seq![EventView::PatientUpsert(patient)],
{
    let rows = seq![row];
    assert(rows.drop_last() =~= Seq::<Seq<ColumnValue>>::empty());
    assert(rows.drop_last().filter_map(upsert_of_row()) =~= Seq::<EventView>::empty());
    assert(upserts(table_name, rows) =~= seq![EventView::PatientUpsert(patient_of_row(row))]);
}

/// For every table but the tracked one, the row mapper gives nothing, and a
/// batch of rows gives no event, however many rows it holds.
pub proof fn lemma_other_tables_give_nothing(
    table_name: Option<Seq<char>>,
    rows: Seq<Seq<ColumnValue>>,
)
    requires
        !tracks(table_name),
    ensures
        upserts(table_name, rows).len() == 0,
        forall|i: int| 0 <= i < rows.len() ==> row_mapper(table_name, #[trigger] rows[i]) is None,
{
}

/// No event goes out without an identifier, and none that was not read from
/// a row: whatever the table and the rows, every event is the one that some
/// row gives, and holds a patient whose `demographic_no` is not empty.
pub proof fn lemma_every_event_names_its_patient(
    table_name: Option<Seq<char>>,
    rows: Seq<Seq<ColumnValue>>,
)
    ensures
        all_identified(upserts(table_name, rows)),
        all_from_rows(upserts(table_name, rows), rows),
        upserts(table_name, rows).len() <= rows.len(),
    decreases rows.len(),
{
    if tracks(table_name) && rows.len() > 0 {
        let before = rows.drop_last();
        lemma_every_event_names_its_patient(table_name, before);
        let events = upserts(table_name, rows);
        let sent = upserts(table_name, before);
        assert forall|i: int| 0 <= i < events.len() implies has_source(
            #[trigger] events[i],
            rows,
        ) by {
            if i < sent.len() {
                assert(events[i] == sent[i]);
                let j = choose|j: int|
                    0 <= j < before.len() && #[trigger] event_of_row(sent[i], before[j]);
                assert(event_of_row(events[i], rows[j]));
            } else {
                assert(event_of_row(events[i], rows[rows.len() - 1]));
            }
        }
    }
}

/// An event that was read from a row holds only what the row holds: an
/// identifier, and neither phone number, e-mail address nor location, which
/// no column feeds.
pub proof fn lemma_event_holds_what_its_row_holds(event: EventView, rows: Seq<Seq<ColumnValue>>)
    requires
        has_source(event, rows),
    ensures
        event matches EventView::PatientUpsert(patient) && patient.has_identity()
            && patient.phone is None && patient.email is None && patient.location is None,
{
}

/// A batch of rows of the tracked table that all name their patients gives
/// one event for each row, in the order of the rows, and each event holds
/// what the row mapper gives for its row.
pub proof fn lemma_tracked_rows_give_one_event_each(
    table_name: Option<Seq<char>>,
    rows: Seq<Seq<ColumnValue>>,
)
    requires
        tracks(table_name),
        forall|i: int| 0 <= i < rows.len() ==> names_patient(#[trigger] rows[i]),
    ensures
        upserts(table_name, rows).len() == rows.len(),
        forall|i: int|
            0 <= i < rows.len() ==> #[trigger] upserts(table_name, rows)[i]
                == EventView::PatientUpsert(patient_of_row(rows[i])),
    decreases rows.len(),
{
    if rows.len() > 0 {
        let before = rows.drop_last();
        assert forall|i: int| 0 <= i < before.len() implies names_patient(
            #[trigger] before[i],
        ) by {
            assert(before[i] == rows[i]);
        }
        lemma_tracked_rows_give_one_event_each(table_name, before);
        assert(names_patient(rows.last()));
        assert forall|i: int| 0 <= i < rows.len() implies #[trigger] upserts(table_name, rows)[i]
            == EventView::PatientUpsert(patient_of_row(rows[i])) by {
            if i < before.len() {
                assert(upserts(table_name, rows)[i] == upserts(table_name, before)[i]);
                assert(before[i] == rows[i]);
            }
        }
    }
}

/// A row without an identifier changes nothing: the events of a batch are
/// those of the batch without that row.
pub proof fn lemma_unnamed_row_gives_no_event(
    table_name: Option<Seq<char>>,
    rows: Seq<Seq<ColumnValue>>,
    row: Seq<ColumnValue>,
)
    requires
        !names_patient(row),
    ensures
        upserts(table_name, rows.push(row)) == upserts(table_name, rows),
{
    assert(rows.push(row).drop_last() =~= rows);
}

} // verus!
