//! The patient as the legacy system exports it.

use vstd::prelude::*;

verus! {

/// A patient in the legacy system's own terms.
#[derive(Debug, Clone)]
pub struct OscarPatient {
    pub demographic_no: String,
    pub first_name: Option<String>,
    pub last_name: Option<String>,
    /// ISO calendar date, `YYYY-MM-DD`.
    pub date_of_birth: Option<String>,
    /// City, province, country, postal code.
    pub location: Option<(String, String, String, String)>,
    pub sex: Option<String>,
    pub phone: Option<String>,
    pub email: Option<String>,
}

/// The tables of the legacy system that the library knows by number.
#[derive(Debug, Clone, Copy, PartialEq, Eq, Structural)]
pub enum TableId {
    Demographic,
}

impl TableId {
    /// The number the legacy system gives the table.
    pub open spec fn number(self) -> i32 {
        match self {
            TableId::Demographic => 123,
        }
    }

    /// The number the legacy system gives the table.
    pub fn as_i32(self) -> (id: i32)
        ensures
            id == self.number(),
    {
        match self {
            TableId::Demographic => 123,
        }
    }
}

} // verus!
