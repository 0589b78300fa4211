//! The clinical patient resource in the shape it has on the wire.

use vstd::prelude::*;

verus! {

/// The channel a contact point reaches a person through.
#[derive(Debug, Clone, Copy, PartialEq, Eq, Structural)]
pub enum ContactPointSystemCode {
    Phone,
    Fax,
    Email,
    Pager,
    Url,
    Sms,
    Other,
}

/// Administrative gender.
#[derive(Debug, Clone, Copy, PartialEq, Eq, Structural)]
pub enum AdministrativeGenderCode {
    Male,
    Female,
    Other,
    Unknown,
}

/// A business identifier and the namespace it is unique in.
#[derive(Debug, Clone)]
pub struct Identifier {
    pub system: Option<String>,
    pub value: Option<String>,
}

/// A person's name: one family name, any number of given names.
#[derive(Debug, Clone)]
pub struct HumanName {
    pub family: Option<String>,
    pub given: Vec<String>,
}

/// One way to contact a person.
#[derive(Debug, Clone)]
pub struct ContactPoint {
    pub system: Option<ContactPointSystemCode>,
    pub value: Option<String>,
}

/// A calendar date as microseconds from the Unix epoch to its midnight in UTC.
#[derive(Debug, Clone, Copy, PartialEq, Eq, Structural)]
pub struct Date {
    pub value_us: i64,
}

/// A postal address.
#[derive(Debug, Clone)]
pub struct Address {
    pub city: Option<String>,
    pub state: Option<String>,
    pub country: Option<String>,
    pub postal_code: Option<String>,
}

/// The clinical patient message.
#[derive(Debug, Clone)]
pub struct Patient {
    pub id: Option<String>,
    pub identifier: Vec<Identifier>,
    pub name: Vec<HumanName>,
    pub telecom: Vec<ContactPoint>,
    pub gender: Option<AdministrativeGenderCode>,
    pub birth_date: Option<Date>,
    pub address: Vec<Address>,
}

pub struct IdentifierView {
    pub system: Option<Seq<char>>,
    pub value: Option<Seq<char>>,
}

pub struct HumanNameView {
    pub family: Option<Seq<char>>,
    pub given: Seq<Seq<char>>,
}

pub struct ContactPointView {
    pub system: Option<ContactPointSystemCode>,
    pub value: Option<Seq<char>>,
}

pub struct AddressView {
    pub city: Option<Seq<char>>,
    pub state: Option<Seq<char>>,
    pub country: Option<Seq<char>>,
    pub postal_code: Option<Seq<char>>,
}

/// What a [`Patient`] message holds, as plain text and numbers.
pub struct PatientView {
    pub id: Option<Seq<char>>,
    pub identifier: Seq<IdentifierView>,
    pub name: Seq<HumanNameView>,
    pub telecom: Seq<ContactPointView>,
    pub gender: Option<AdministrativeGenderCode>,
    pub birth_date: Option<Date>,
    pub address: Seq<AddressView>,
}

impl View for Identifier {
    type V = IdentifierView;

    open spec fn view(&self) -> IdentifierView {
        IdentifierView { system: self.system.deep_view(), value: self.value.deep_view() }
    }
}

impl DeepView for Identifier {
    type V = IdentifierView;

    open spec fn deep_view(&self) -> IdentifierView {
        self@
    }
}

impl View for HumanName {
    type V = HumanNameView;

    open spec fn view(&self) -> HumanNameView {
        HumanNameView { family: self.family.deep_view(), given: self.given.deep_view() }
    }
}

impl DeepView for HumanName {
    type V = HumanNameView;

    open spec fn deep_view(&self) -> HumanNameView {
        self@
    }
}

impl View for ContactPoint {
    type V = ContactPointView;

    open spec fn view(&self) -> ContactPointView {
        ContactPointView { system: self.system, value: self.value.deep_view() }
    }
}

impl DeepView for ContactPoint {
    type V = ContactPointView;

    open spec fn deep_view(&self) -> ContactPointView {
        self@
    }
}

impl View for Address {
    type V = AddressView;

    open spec fn view(&self) -> AddressView {
        AddressView {
            city: self.city.deep_view(),
            state: self.state.deep_view(),
            country: self.country.deep_view(),
            postal_code: self.postal_code.deep_view(),
        }
    }
}

impl DeepView for Address {
    type V = AddressView;

    open spec fn deep_view(&self) -> AddressView {
        self@
    }
}

impl View for Patient {
    type V = PatientView;

    open spec fn view(&self) -> PatientView {
        PatientView {
            id: self.id.deep_view(),
            identifier: self.identifier.deep_view(),
            name: self.name.deep_view(),
            telecom: self.telecom.deep_view(),
            gender: self.gender,
            birth_date: self.birth_date,
            address: self.address.deep_view(),
        }
    }
}

impl DeepView for Patient {
    type V = PatientView;

    open spec fn deep_view(&self) -> PatientView {
        self@
    }
}

impl PatientView {
    /// The message with no field set.
    pub open spec fn empty() -> PatientView {
        PatientView {
            id: None,
            identifier: Seq::empty(),
            name: Seq::empty(),
            telecom: Seq::empty(),
            gender: None,
            birth_date: None,
            address: Seq::empty(),
        }
    }
}

impl Default for Patient {
    /// The message with no field set.
    fn default() -> (message: Patient)
        ensures
            message@ == PatientView::empty(),
    {
        let message = Patient {
            id: None,
            identifier: Vec::new(),
            name: Vec::new(),
            telecom: Vec::new(),
            gender: None,
            birth_date: None,
            address: Vec::new(),
        };
        assert(message.identifier.deep_view() =~= Seq::<IdentifierView>::empty());
        assert(message.name.deep_view() =~= Seq::<HumanNameView>::empty());
        assert(message.telecom.deep_view() =~= Seq::<ContactPointView>::empty());
        assert(message.address.deep_view() =~= Seq::<AddressView>::empty());
        message
    }
}

} // verus!
