//! The patient record in its canonical, source-independent form.

use vstd::prelude::*;

verus! {

/// A patient as the source system knows them.
///
/// `demographic_no` is the key that joins the record to the source system.
/// Every other field may be absent.
#[derive(Debug, Clone)]
pub struct DomainPatient {
    pub demographic_no: String,
    pub first_name: Option<String>,
    pub last_name: Option<String>,
    /// ISO calendar date, `YYYY-MM-DD`.
    pub date_of_birth: Option<String>,
    /// City, region, country, postal code: all four or none.
    pub location: Option<(String, String, String, String)>,
    /// Free text; `male`/`m`, `female`/`f` and `other` are recognised in any case.
    pub sex: Option<String>,
    pub phone: Option<String>,
    pub email: Option<String>,
}

/// What a [`DomainPatient`] holds, as plain text.
pub struct DomainPatientView {
    pub demographic_no: Seq<char>,
    pub first_name: Option<Seq<char>>,
    pub last_name: Option<Seq<char>>,
    pub date_of_birth: Option<Seq<char>>,
    pub location: Option<(Seq<char>, Seq<char>, Seq<char>, Seq<char>)>,
    pub sex: Option<Seq<char>>,
    pub phone: Option<Seq<char>>,
    pub email: Option<Seq<char>>,
}

impl View for DomainPatient {
    type V = DomainPatientView;

    open spec fn view(&self) -> DomainPatientView {
        DomainPatientView {
            demographic_no: self.demographic_no@,
            first_name: self.first_name.deep_view(),
            last_name: self.last_name.deep_view(),
            date_of_birth: self.date_of_birth.deep_view(),
            location: self.location.deep_view(),
            sex: self.sex.deep_view(),
            phone: self.phone.deep_view(),
            email: self.email.deep_view(),
        }
    }
}

impl DeepView for DomainPatient {
    type V = DomainPatientView;

    open spec fn deep_view(&self) -> DomainPatientView {
        self@
    }
}

impl DomainPatientView {
    /// A record can be joined to the source system only through a
    /// non-empty `demographic_no`.
    pub open spec fn has_identity(self) -> bool {
        self.demographic_no.len() > 0
    }

    /// The record that carries `demographic_no` and nothing else.
    pub open spec fn minimal(demographic_no: Seq<char>) -> DomainPatientView {
        DomainPatientView {
            demographic_no,
            first_name: None,
            last_name: None,
            date_of_birth: None,
            location: None,
            sex: None,
            phone: None,
            email: None,
        }
    }

    /// Every optional field is present.
    pub open spec fn fully_populated(self) -> bool {
        &&& self.first_name is Some
        &&& self.last_name is Some
        &&& self.date_of_birth is Some
        &&& self.location is Some
        &&& self.sex is Some
        &&& self.phone is Some
        &&& self.email is Some
    }
}

impl DomainPatient {
    /// Whether the record can be joined to the source system: whether its
    /// `demographic_no` is not empty.
    pub fn has_identity(&self) -> (yes: bool)
        ensures
            yes == self@.has_identity(),
    {
        !self.demographic_no.as_str().is_empty()
    }

    /// A record with `demographic_no` set and every other field absent.
    pub fn new(demographic_no: String) -> (patient: DomainPatient)
        ensures
            patient@ == DomainPatientView::minimal(demographic_no@),
    {
        DomainPatient {
            demographic_no,
            first_name: None,
            last_name: None,
            date_of_birth: None,
            location: None,
            sex: None,
            phone: None,
            email: None,
        }
    }
}

} // verus!
