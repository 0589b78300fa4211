//! The clinical adapter: a canonical patient record becomes a clinical
//! patient message.

use chrono::{NaiveDate, NaiveTime};
use vstd::prelude::*;
use vstd::string::StringExecFns;

use crate::domain::patient::{DomainPatient, DomainPatientView};
use crate::proto::fhir::{
    Address, AddressView, AdministrativeGenderCode, ContactPoint, ContactPointSystemCode,
    ContactPointView, Date, HumanName, HumanNameView, Identifier, IdentifierView, Patient,
    PatientView,
};
use crate::text::{eq_ignoring_ascii_case, same_ignoring_ascii_case};

verus! {

/// Namespace of the identifiers the source system assigns.
pub const IDENTIFIER_SYSTEM: &'static str = "urn:arsmedicatech:demographic_no";

/// The format a date of birth is written in: year, month and day, with hyphens.
pub const ISO_DATE_FORMAT: &'static str = "%Y-%m-%d";

/// Microseconds in one second.
pub const MICROS_PER_SECOND: i64 = 1_000_000;

/// Seconds from the Unix epoch to 00:00:00 UTC on the calendar date that
/// chrono reads from `text` under the format `format`; `None` where chrono
/// rejects the text.
pub uninterp spec fn midnight_utc_seconds(text: Seq<char>, format: Seq<char>) -> Option<int>;

/// Calls chrono's `NaiveDate::parse_from_str` and, on the date it returns,
/// `and_time` with the earliest time of day, `and_utc` and `timestamp`.
///
/// Trusted: the outcome depends on the two texts alone, which is what gives
/// it the name [`midnight_utc_seconds`], and a date at midnight lies a whole
/// number of days from the epoch.
#[verifier::external_body]
fn parse_midnight_utc(text: &str, format: &str) -> (seconds: Option<i64>)
    ensures
        match seconds {
            Some(s) => midnight_utc_seconds(text@, format@) == Some(s as int) && s % 86_400 == 0,
            None => midnight_utc_seconds(text@, format@) is None,
        },
{
    match NaiveDate::parse_from_str(text, format) {
        Ok(date) => Some(date.and_time(NaiveTime::MIN).and_utc().timestamp()),
        Err(_) => None,
    }
}

/// The coded gender that a free-text sex stands for.
///
/// `male` and `m`, `female` and `f`, and `other` are recognised whatever the
/// case of their letters. Anything else is coded as unknown.
pub open spec fn gender_of(sex: Seq<char>) -> AdministrativeGenderCode {
    if same_ignoring_ascii_case(sex, "male"@) || same_ignoring_ascii_case(sex, "m"@) {
        AdministrativeGenderCode::Male
    } else if same_ignoring_ascii_case(sex, "female"@) || same_ignoring_ascii_case(sex, "f"@) {
        AdministrativeGenderCode::Female
    } else if same_ignoring_ascii_case(sex, "other"@) {
        AdministrativeGenderCode::Other
    } else {
        AdministrativeGenderCode::Unknown
    }
}

/// Computes [`gender_of`].
pub fn normalize_gender(sex: &str) -> (code: AdministrativeGenderCode)
    ensures
        code == gender_of(sex@),
{
    if eq_ignoring_ascii_case(sex, "male") || eq_ignoring_ascii_case(sex, "m") {
        AdministrativeGenderCode::Male
    } else if eq_ignoring_ascii_case(sex, "female") || eq_ignoring_ascii_case(sex, "f") {
        AdministrativeGenderCode::Female
    } else if eq_ignoring_ascii_case(sex, "other") {
        AdministrativeGenderCode::Other
    } else {
        AdministrativeGenderCode::Unknown
    }
}

/// The date that lies `seconds` after the Unix epoch, in microseconds.
///
/// A moment that the 64 bits of the field cannot hold in microseconds has no
/// date.
pub open spec fn date_at(seconds: int) -> Option<Date> {
    if i64::MIN <= seconds * MICROS_PER_SECOND <= i64::MAX {
        Some(Date { value_us: (seconds * MICROS_PER_SECOND) as i64 })
    } else {
        None
    }
}

/// The birth date that the result of reading a date of birth yields.
pub open spec fn birth_date_from(parsed: Option<int>) -> Option<Date> {
    match parsed {
        Some(seconds) => date_at(seconds),
        None => None,
    }
}

/// The birth date of a message whose source gave `date_of_birth`.
///
/// Text that is no calendar date in ISO form yields no birth date.
pub open spec fn birth_date_of(date_of_birth: Seq<char>) -> Option<Date> {
    birth_date_from(midnight_utc_seconds(date_of_birth, ISO_DATE_FORMAT@))
}

impl Date {
    /// Computes [`birth_date_from`].
    pub fn from_midnight_seconds(parsed: Option<i64>) -> (date: Option<Date>)
        ensures
            date == birth_date_from(
                match parsed {
                    Some(s) => Some(s as int),
                    None => None,
                },
            ),
    {
        match parsed {
            Some(seconds) => match seconds.checked_mul(MICROS_PER_SECOND) {
                Some(value_us) => Some(Date { value_us }),
                None => None,
            },
            None => None,
        }
    }

    /// Reads an ISO calendar date and gives it as a message date.
    pub fn parse(date_of_birth: &str) -> (date: Option<Date>)
        ensures
            date == birth_date_of(date_of_birth@),
            date matches Some(d) ==> d.value_us % 86_400_000_000 == 0,
    {
        let parsed = parse_midnight_utc(date_of_birth, ISO_DATE_FORMAT);
        let date = Date::from_midnight_seconds(parsed);
        proof {
            if let Some(seconds) = parsed {
                lemma_whole_days(seconds as int);
            }
        }
        date
    }
}

/// The name entries of a message: one entry where a given or a family name
/// is known, none otherwise. The entry holds the family name, if any, and at
/// most one given name.
pub open spec fn name_entries(
    first_name: Option<Seq<char>>,
    last_name: Option<Seq<char>>,
) -> Seq<HumanNameView> {
    if first_name is Some || last_name is Some {
        seq![
            HumanNameView {
                family: last_name,
                given: match first_name {
                    Some(given) => seq![given],
                    None => Seq::empty(),
                },
            },
        ]
    } else {
        Seq::empty()
    }
}

/// The entry for one contact channel: present where the source gave a value.
pub open spec fn contact_entries(
    system: ContactPointSystemCode,
    value: Option<Seq<char>>,
) -> Seq<ContactPointView> {
    match value {
        Some(v) => seq![ContactPointView { system: Some(system), value: Some(v) }],
        None => Seq::empty(),
    }
}

/// The contact entries of a message: the phone number, then the e-mail
/// address, each only where it is known.
pub open spec fn telecom_entries(
    phone: Option<Seq<char>>,
    email: Option<Seq<char>>,
) -> Seq<ContactPointView> {
    contact_entries(ContactPointSystemCode::Phone, phone) + contact_entries(
        ContactPointSystemCode::Email,
        email,
    )
}

/// The address entries of a message: one entry with all four parts where the
/// location is known, none otherwise.
pub open spec fn address_entries(
    location: Option<(Seq<char>, Seq<char>, Seq<char>, Seq<char>)>,
) -> Seq<AddressView> {
    match location {
        Some((city, region, country, postal)) => seq![
            AddressView {
                city: Some(city),
                state: Some(region),
                country: Some(country),
                postal_code: Some(postal),
            },
        ],
        None => Seq::empty(),
    }
}

/// The clinical message that stands for a patient record.
pub open spec fn clinical_message(patient: DomainPatientView) -> PatientView {
    PatientView {
        id: Some(patient.demographic_no),
        identifier: seq![
            IdentifierView {
                system: Some(IDENTIFIER_SYSTEM@),
                value: Some(patient.demographic_no),
            },
        ],
        name: name_entries(patient.first_name, patient.last_name),
        telecom: telecom_entries(patient.phone, patient.email),
        gender: match patient.sex {
            Some(sex) => Some(gender_of(sex)),
            None => None,
        },
        birth_date: match patient.date_of_birth {
            Some(text) => birth_date_of(text),
            None => None,
        },
        address: address_entries(patient.location),
    }
}

impl From<DomainPatient> for Patient {
    /// Builds the clinical message for a patient record. Each call gives a
    /// fresh message; the record is consumed.
    fn from(src: DomainPatient) -> (dest: Patient)
        ensures
            dest@ == clinical_message(src@),
            dest.birth_date matches Some(d) ==> d.value_us % 86_400_000_000 == 0,
    {
        let ghost record = src@;
        let DomainPatient {
            demographic_no,
            first_name,
            last_name,
            date_of_birth,
            location,
            sex,
            phone,
            email,
        } = src;

        let mut dest = Patient::default();

        dest.identifier.push(
            Identifier {
                system: Some(String::from_str(IDENTIFIER_SYSTEM)),
                value: Some(demographic_no.clone()),
            },
        );
        dest.id = Some(demographic_no);

        if first_name.is_some() || last_name.is_some() {
            let mut name = HumanName { family: None, given: Vec::new() };
            if let Some(family) = last_name {
                name.family = Some(family);
            }
            if let Some(given) = first_name {
                name.given.push(given);
            }
            assert(name.given.deep_view() =~= match record.first_name {
                Some(given) => seq![given],
                None => Seq::empty(),
            });
            dest.name.push(name);
        }

        if let Some(phone) = phone {
            dest.telecom.push(
                ContactPoint { system: Some(ContactPointSystemCode::Phone), value: Some(phone) },
            );
        }
        if let Some(email) = email {
            dest.telecom.push(
                ContactPoint { system: Some(ContactPointSystemCode::Email), value: Some(email) },
            );
        }

        if let Some(sex_raw) = sex {
            dest.gender = Some(normalize_gender(sex_raw.as_str()));
        }

        if let Some(dob) = date_of_birth {
            dest.birth_date = Date::parse(dob.as_str());
        }

        if let Some((city, province, country, postal)) = location {
            dest.address.push(
                Address {
                    city: Some(city),
                    state: Some(province),
                    country: Some(country),
                    postal_code: Some(postal),
                },
            );
        }

        proof {
            let want = clinical_message(record);
            assert(dest.identifier.deep_view() =~= want.identifier);
            assert(dest.name.deep_view() =~= want.name);
            assert(dest.telecom.deep_view() =~= want.telecom);
            assert(dest.address.deep_view() =~= want.address);
        }
        dest
    }
}

impl vstd::std_specs::convert::FromSpecImpl<DomainPatient> for Patient {
    /// Two messages with the same content need not be the same value, so the
    /// conversion is specified by its own contract, over views.
    open spec fn obeys_from_spec() -> bool {
        false
    }

    open spec fn from_spec(src: DomainPatient) -> Patient {
        arbitrary()
    }
}

/// Round trip of a fully populated record: every field can be read back
/// from the message. The id and the one identifier are `demographic_no`; the
/// one name holds the family name and the given name; the contact entries are
/// the phone number and the e-mail address, in that order; the gender is the
/// code of the sex; the birth date is the date of birth; the one address
/// holds the four parts of the location.
pub proof fn lemma_full_record_round_trip(patient: DomainPatientView)
    requires
        patient.fully_populated(),
    ensures
        ({
            let message = clinical_message(patient);
            let location = patient.location->0;
            &&& message.id == Some(patient.demographic_no)
            &&& message.identifier == seq![
                IdentifierView {
                    system: Some(IDENTIFIER_SYSTEM@),
                    value: Some(patient.demographic_no),
                },
            ]
            &&& message.name == seq![
                HumanNameView { family: patient.last_name, given: seq![patient.first_name->0] },
            ]
            &&& message.telecom == seq![
                ContactPointView {
                    system: Some(ContactPointSystemCode::Phone),
                    value: patient.phone,
                },
                ContactPointView {
                    system: Some(ContactPointSystemCode::Email),
                    value: patient.email,
                },
            ]
            &&& message.gender == Some(gender_of(patient.sex->0))
            &&& message.birth_date == birth_date_of(patient.date_of_birth->0)
            &&& message.address == seq![
                AddressView {
                    city: Some(location.0),
                    state: Some(location.1),
                    country: Some(location.2),
                    postal_code: Some(location.3),
                },
            ]
        }),
{
    let message = clinical_message(patient);
    assert(message.telecom =~= seq![
        ContactPointView { system: Some(ContactPointSystemCode::Phone), value: patient.phone },
        ContactPointView { system: Some(ContactPointSystemCode::Email), value: patient.email },
    ]);
}

/// A record that holds `demographic_no` and nothing else gives a message
/// with the id and the identifier, and with no name, no contact entry, no
/// gender, no birth date and no address.
pub proof fn lemma_minimal_record_gives_id_only(demographic_no: Seq<char>)
    ensures
        ({
            let message = clinical_message(DomainPatientView::minimal(demographic_no));
            &&& message.id == Some(demographic_no)
            &&& message.identifier.len() == 1
            &&& message.identifier[0].value == Some(demographic_no)
            &&& message.name.len() == 0
            &&& message.telecom.len() == 0
            &&& message.gender is None
            &&& message.birth_date is None
            &&& message.address.len() == 0
        }),
{
}

/// The message says of each optional field of the record whether it was
/// there: records that differ in the phone number, the e-mail address, the
/// names or the location give different contact, name or address entries.
/// In particular no address appears without a location, whatever else the
/// record holds.
pub proof fn lemma_absent_fields_stay_absent(patient: DomainPatientView)
    ensures
        ({
            let message = clinical_message(patient);
            &&& patient.location is None <==> message.address.len() == 0
            &&& patient.sex is None <==> message.gender is None
            &&& patient.date_of_birth is None ==> message.birth_date is None
            &&& (patient.first_name is None && patient.last_name is None) <==> message.name.len()
                == 0
            &&& (patient.phone is None && patient.email is None) <==> message.telecom.len() == 0
        }),
{
}

/// Case does not matter to the gender code: texts that differ only in the
/// case of their letters are coded alike.
pub proof fn lemma_gender_ignores_case(a: Seq<char>, b: Seq<char>)
    requires
        same_ignoring_ascii_case(a, b),
    ensures
        gender_of(a) == gender_of(b),
{
}

/// A whole number of days in seconds is a whole number of days in microseconds.
proof fn lemma_whole_days(seconds: int)
    requires
        seconds % 86_400 == 0,
    ensures
        (seconds * 1_000_000) % 86_400_000_000 == 0,
{
    let days = seconds / 86_400;
    assert(seconds == days * 86_400);
    assert(seconds * 1_000_000 == days * 86_400_000_000) by (nonlinear_arith)
        requires
            seconds == days * 86_400,
    ;
    assert((days * 86_400_000_000) % 86_400_000_000 == 0) by (nonlinear_arith);
}

} // verus!
