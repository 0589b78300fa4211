//! The canonical records that every other part of the library exchanges.

pub mod patient;
