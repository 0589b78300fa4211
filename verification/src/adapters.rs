//! Conversions between the canonical records and the shapes other systems use.

pub mod entities;
pub mod oscar;
pub mod surreal;
