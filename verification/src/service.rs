//! What the library answers to its peers.

pub mod fhir_sync;
