//! A worked example: one patient record and the message it becomes.

use vstd::prelude::*;
use vstd::string::StringExecFns;

use crate::adapters::entities::patient::clinical_message;
use crate::domain::patient::{DomainPatient, DomainPatientView};
use crate::proto::fhir::Patient;

verus! {

/// The record of the example.
pub open spec fn example_record() -> DomainPatientView {
    DomainPatientView {
        demographic_no: "DEM-123"@,
        first_name: Some("Jane"@),
        last_name: Some("Doe"@),
        date_of_birth: Some("1990-02-20"@),
        location: Some(("Vancouver"@, "BC"@, "CA"@, "V5K0A1"@)),
        sex: Some("female"@),
        phone: Some("+1-604-123-4567"@),
        email: Some("jane.doe@example.com"@),
    }
}

/// Builds the record of the example and adapts it.
pub fn example() -> (message: Patient)
    ensures
        message@ == clinical_message(example_record()),
{
    let domain_obj = DomainPatient {
        demographic_no: String::from_str("DEM-123"),
        first_name: Some(String::from_str("Jane")),
        last_name: Some(String::from_str("Doe")),
        date_of_birth: Some(String::from_str("1990-02-20")),
        location: Some(
            (
                String::from_str("Vancouver"),
                String::from_str("BC"),
                String::from_str("CA"),
                String::from_str("V5K0A1"),
            ),
        ),
        sex: Some(String::from_str("female")),
        phone: Some(String::from_str("+1-604-123-4567")),
        email: Some(String::from_str("jane.doe@example.com")),
    };
    Patient::from(domain_obj)
}

} // verus!
