//! The messages of the synchronisation service.

use vstd::prelude::*;

verus! {

/// A reference to a patient by logical id.
#[derive(Debug, Clone)]
pub struct PatientRef {
    pub id: String,
}

/// A patient as the synchronisation service names it.
#[derive(Debug, Clone)]
pub struct Patient {
    pub id: String,
}

/// Confirms that a patient was accepted.
#[derive(Debug, Clone)]
pub struct PatientAck {
    pub id: String,
    pub status: String,
}

/// A batch of changes a peer announces, carried as received.
#[derive(Debug, Clone)]
pub struct ChangeSet {
    pub payload: Vec<u8>,
}

/// Confirms that one change-set was received.
#[derive(Debug, Clone)]
pub struct Ack {
    pub message: String,
}

/// What a [`PatientAck`] holds, as plain text.
pub struct PatientAckView {
    pub id: Seq<char>,
    pub status: Seq<char>,
}

impl View for PatientRef {
    type V = Seq<char>;

    /// A reference is the id it names.
    open spec fn view(&self) -> Seq<char> {
        self.id@
    }
}

impl View for Patient {
    type V = Seq<char>;

    /// The service knows a patient by its id.
    open spec fn view(&self) -> Seq<char> {
        self.id@
    }
}

impl View for PatientAck {
    type V = PatientAckView;

    open spec fn view(&self) -> PatientAckView {
        PatientAckView { id: self.id@, status: self.status@ }
    }
}

impl View for ChangeSet {
    type V = Seq<u8>;

    open spec fn view(&self) -> Seq<u8> {
        self.payload@
    }
}

impl View for Ack {
    type V = Seq<char>;

    /// An acknowledgment is the message it carries.
    open spec fn view(&self) -> Seq<char> {
        self.message@
    }
}

impl DeepView for Ack {
    type V = Seq<char>;

    open spec fn deep_view(&self) -> Seq<char> {
        self@
    }
}

} // verus!
