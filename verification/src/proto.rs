//! The messages exchanged with peers.

pub mod fhir;
pub mod fhir_sync;
