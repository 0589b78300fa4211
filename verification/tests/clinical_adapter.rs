use patient_sync::adapters::entities::patient::{normalize_gender, IDENTIFIER_SYSTEM};
use patient_sync::adapters::surreal::example;
use patient_sync::domain::patient::DomainPatient;
use patient_sync::proto::fhir::{
    AdministrativeGenderCode, ContactPointSystemCode, Date, Patient,
};

fn full_patient() -> DomainPatient {
    DomainPatient {
        demographic_no: "12345".to_string(),
        first_name: Some("John".to_string()),
        last_name: Some("Doe".to_string()),
        date_of_birth: Some("1990-01-01".to_string()),
        location: Some((
            "Toronto".to_string(),
            "ON".to_string(),
            "Canada".to_string(),
            "M5V1A1".to_string(),
        )),
        sex: Some("male".to_string()),
        phone: Some("+1-555-123-4567".to_string()),
        email: Some("john.doe@example.com".to_string()),
    }
}

fn with_sex(sex: Option<&str>) -> DomainPatient {
    let mut patient = DomainPatient::new("1".to_string());
    patient.sex = sex.map(|s| s.to_string());
    patient
}

fn with_date_of_birth(text: &str) -> DomainPatient {
    let mut patient = DomainPatient::new("1".to_string());
    patient.date_of_birth = Some(text.to_string());
    patient
}

#[test]
fn full_record_reads_back_from_message() {
    let message = Patient::from(full_patient());

    assert_eq!(message.id, Some("12345".to_string()));

    assert_eq!(message.identifier.len(), 1);
    assert_eq!(
        message.identifier[0].system,
        Some("urn:arsmedicatech:demographic_no".to_string())
    );
    assert_eq!(message.identifier[0].value, Some("12345".to_string()));

    assert_eq!(message.name.len(), 1);
    assert_eq!(message.name[0].family, Some("Doe".to_string()));
    assert_eq!(message.name[0].given, vec!["John".to_string()]);

    assert_eq!(message.telecom.len(), 2);
    assert_eq!(message.telecom[0].system, Some(ContactPointSystemCode::Phone));
    assert_eq!(message.telecom[0].value, Some("+1-555-123-4567".to_string()));
    assert_eq!(message.telecom[1].system, Some(ContactPointSystemCode::Email));
    assert_eq!(message.telecom[1].value, Some("john.doe@example.com".to_string()));

    assert_eq!(message.gender, Some(AdministrativeGenderCode::Male));

    assert_eq!(message.birth_date, Some(Date { value_us: 631_152_000_000_000 }));

    assert_eq!(message.address.len(), 1);
    assert_eq!(message.address[0].city, Some("Toronto".to_string()));
    assert_eq!(message.address[0].state, Some("ON".to_string()));
    assert_eq!(message.address[0].country, Some("Canada".to_string()));
    assert_eq!(message.address[0].postal_code, Some("M5V1A1".to_string()));
}

#[test]
fn minimal_record_gives_id_and_nothing_else() {
    let message = Patient::from(DomainPatient::new("67890".to_string()));

    assert_eq!(message.id, Some("67890".to_string()));
    assert_eq!(message.identifier.len(), 1);
    assert_eq!(message.identifier[0].value, Some("67890".to_string()));
    assert_eq!(message.identifier[0].system, Some(IDENTIFIER_SYSTEM.to_string()));
    assert!(message.name.is_empty());
    assert!(message.telecom.is_empty());
    assert_eq!(message.gender, None);
    assert_eq!(message.birth_date, None);
    assert!(message.address.is_empty());
}

#[test]
fn new_record_holds_only_its_identifier() {
    let patient = DomainPatient::new("A-1".to_string());
    assert_eq!(patient.demographic_no, "A-1");
    assert_eq!(patient.first_name, None);
    assert_eq!(patient.last_name, None);
    assert_eq!(patient.date_of_birth, None);
    assert_eq!(patient.location, None);
    assert_eq!(patient.sex, None);
    assert_eq!(patient.phone, None);
    assert_eq!(patient.email, None);
}

#[test]
fn default_message_is_empty() {
    let message = Patient::default();
    assert_eq!(message.id, None);
    assert!(message.identifier.is_empty());
    assert!(message.name.is_empty());
    assert!(message.telecom.is_empty());
    assert_eq!(message.gender, None);
    assert_eq!(message.birth_date, None);
    assert!(message.address.is_empty());
}

#[test]
fn sex_f_is_female() {
    assert_eq!(
        Patient::from(with_sex(Some("F"))).gender,
        Some(AdministrativeGenderCode::Female)
    );
}

#[test]
fn sex_unspecified_is_unknown() {
    assert_eq!(
        Patient::from(with_sex(Some("unspecified"))).gender,
        Some(AdministrativeGenderCode::Unknown)
    );
}

#[test]
fn absent_sex_gives_no_gender() {
    assert_eq!(Patient::from(with_sex(None)).gender, None);
}

#[test]
fn gender_words_in_any_case() {
    assert_eq!(normalize_gender("male"), AdministrativeGenderCode::Male);
    assert_eq!(normalize_gender("MALE"), AdministrativeGenderCode::Male);
    assert_eq!(normalize_gender("m"), AdministrativeGenderCode::Male);
    assert_eq!(normalize_gender("M"), AdministrativeGenderCode::Male);
    assert_eq!(normalize_gender("female"), AdministrativeGenderCode::Female);
    assert_eq!(normalize_gender("Female"), AdministrativeGenderCode::Female);
    assert_eq!(normalize_gender("f"), AdministrativeGenderCode::Female);
    assert_eq!(normalize_gender("other"), AdministrativeGenderCode::Other);
    assert_eq!(normalize_gender("OtHeR"), AdministrativeGenderCode::Other);
}

#[test]
fn gender_of_anything_else_is_unknown() {
    assert_eq!(normalize_gender(""), AdministrativeGenderCode::Unknown);
    assert_eq!(normalize_gender("unknown"), AdministrativeGenderCode::Unknown);
    assert_eq!(normalize_gender(" male"), AdministrativeGenderCode::Unknown);
    assert_eq!(normalize_gender("males"), AdministrativeGenderCode::Unknown);
    assert_eq!(normalize_gender("mal"), AdministrativeGenderCode::Unknown);
    assert_eq!(normalize_gender("o"), AdministrativeGenderCode::Unknown);
    assert_eq!(normalize_gender("\u{212a}"), AdministrativeGenderCode::Unknown);
    assert_eq!(normalize_gender("m\u{e4}le"), AdministrativeGenderCode::Unknown);
}

#[test]
fn absent_location_gives_no_address() {
    let mut patient = full_patient();
    patient.location = None;
    let message = Patient::from(patient);

    assert!(message.address.is_empty());
    assert_eq!(message.name.len(), 1);
    assert_eq!(message.telecom.len(), 2);
    assert_eq!(message.gender, Some(AdministrativeGenderCode::Male));
    assert_eq!(message.birth_date, Some(Date { value_us: 631_152_000_000_000 }));
}

#[test]
fn name_with_family_only() {
    let mut patient = DomainPatient::new("1".to_string());
    patient.last_name = Some("Doe".to_string());
    let message = Patient::from(patient);
    assert_eq!(message.name.len(), 1);
    assert_eq!(message.name[0].family, Some("Doe".to_string()));
    assert!(message.name[0].given.is_empty());
}

#[test]
fn name_with_given_only() {
    let mut patient = DomainPatient::new("1".to_string());
    patient.first_name = Some("Jane".to_string());
    let message = Patient::from(patient);
    assert_eq!(message.name.len(), 1);
    assert_eq!(message.name[0].family, None);
    assert_eq!(message.name[0].given, vec!["Jane".to_string()]);
}

#[test]
fn phone_only_gives_one_contact() {
    let mut patient = DomainPatient::new("1".to_string());
    patient.phone = Some("555".to_string());
    let message = Patient::from(patient);
    assert_eq!(message.telecom.len(), 1);
    assert_eq!(message.telecom[0].system, Some(ContactPointSystemCode::Phone));
    assert_eq!(message.telecom[0].value, Some("555".to_string()));
}

#[test]
fn email_only_gives_one_contact() {
    let mut patient = DomainPatient::new("1".to_string());
    patient.email = Some("a@b.c".to_string());
    let message = Patient::from(patient);
    assert_eq!(message.telecom.len(), 1);
    assert_eq!(message.telecom[0].system, Some(ContactPointSystemCode::Email));
    assert_eq!(message.telecom[0].value, Some("a@b.c".to_string()));
}

#[test]
fn birth_date_is_midnight_utc_in_microseconds() {
    assert_eq!(Date::parse("1970-01-01"), Some(Date { value_us: 0 }));
    assert_eq!(Date::parse("1970-01-02"), Some(Date { value_us: 86_400_000_000 }));
    assert_eq!(Date::parse("1990-01-01"), Some(Date { value_us: 631_152_000_000_000 }));
    assert_eq!(Date::parse("2000-02-29"), Some(Date { value_us: 951_782_400_000_000 }));
}

#[test]
fn birth_date_before_the_epoch_is_negative() {
    assert_eq!(Date::parse("1969-12-31"), Some(Date { value_us: -86_400_000_000 }));
}

#[test]
fn birth_date_is_a_whole_number_of_days() {
    let date = Date::parse("1985-05-15").unwrap();
    assert_eq!(date.value_us % 86_400_000_000, 0);
    assert_eq!(date.value_us / 86_400_000_000, 5_613);
}

#[test]
fn unreadable_birth_date_is_left_out() {
    assert_eq!(Date::parse(""), None);
    assert_eq!(Date::parse("not a date"), None);
    assert_eq!(Date::parse("1990-13-01"), None);
    assert_eq!(Date::parse("1990-02-30"), None);
    assert_eq!(Date::parse("1990/01/01"), None);
    assert_eq!(Date::parse("1990-01-01T00:00:00"), None);

    let message = Patient::from(with_date_of_birth("01/02/1990"));
    assert_eq!(message.birth_date, None);
    assert_eq!(message.id, Some("1".to_string()));
}

#[test]
fn seconds_become_microseconds() {
    assert_eq!(Date::from_midnight_seconds(None), None);
    assert_eq!(Date::from_midnight_seconds(Some(0)), Some(Date { value_us: 0 }));
    assert_eq!(
        Date::from_midnight_seconds(Some(86_400)),
        Some(Date { value_us: 86_400_000_000 })
    );
    assert_eq!(
        Date::from_midnight_seconds(Some(-86_400)),
        Some(Date { value_us: -86_400_000_000 })
    );
    assert_eq!(
        Date::from_midnight_seconds(Some(9_223_372_036_854)),
        Some(Date { value_us: 9_223_372_036_854_000_000 })
    );
}

#[test]
fn seconds_beyond_the_field_give_no_date() {
    assert_eq!(Date::from_midnight_seconds(Some(9_223_372_036_855)), None);
    assert_eq!(Date::from_midnight_seconds(Some(-9_223_372_036_855)), None);
    assert_eq!(Date::from_midnight_seconds(Some(i64::MAX)), None);
    assert_eq!(Date::from_midnight_seconds(Some(i64::MIN)), None);
}

#[test]
fn each_conversion_gives_a_fresh_message() {
    let first = Patient::from(full_patient());
    let mut second = Patient::from(full_patient());
    second.name.clear();
    assert_eq!(first.name.len(), 1);
    assert_eq!(second.name.len(), 0);
}

#[test]
fn example_message() {
    let message = example();
    assert_eq!(message.id, Some("DEM-123".to_string()));
    assert_eq!(message.identifier.len(), 1);
    assert_eq!(message.identifier[0].value, Some("DEM-123".to_string()));
    assert_eq!(message.name.len(), 1);
    assert_eq!(message.name[0].family, Some("Doe".to_string()));
    assert_eq!(message.name[0].given, vec!["Jane".to_string()]);
    assert_eq!(message.telecom.len(), 2);
    assert_eq!(message.telecom[0].value, Some("+1-604-123-4567".to_string()));
    assert_eq!(message.telecom[1].value, Some("jane.doe@example.com".to_string()));
    assert_eq!(message.gender, Some(AdministrativeGenderCode::Female));
    assert_eq!(message.birth_date, Some(Date { value_us: 635_472_000_000_000 }));
    assert_eq!(message.address.len(), 1);
    assert_eq!(message.address[0].city, Some("Vancouver".to_string()));
    assert_eq!(message.address[0].state, Some("BC".to_string()));
    assert_eq!(message.address[0].country, Some("CA".to_string()));
    assert_eq!(message.address[0].postal_code, Some("V5K0A1".to_string()));
}
