//! One adapter for each clinical resource.

pub mod patient;
