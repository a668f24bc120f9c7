use petclinic::config::i18n::I18n;
use petclinic::config::i18n::TranslationFile;
use petclinic::date::Date;
use petclinic::service::owner_service::PetType;
use petclinic::service::owner_service::PetWithTypeAndVisits;
use petclinic::web::owner_handler::CreateOrUpdateOwnerForm;
use petclinic::web::pet_handler::is_duplicate_pet_name;
use petclinic::web::pet_handler::validate_creation;
use petclinic::web::pet_handler::validate_creation_on;
use petclinic::web::pet_handler::CreateOrUpdatePetForm;
use petclinic::web::validator::create_validation_error;
use petclinic::web::validator::ValidationErrors;
use petclinic::web::visit_handler::CreateVisitForm;

const TODAY: Date = Date { year: 2024, month: 2, day: 29 };

fn summary(errors: &ValidationErrors) -> Vec<(String, Vec<(String, Option<String>)>)> {
    errors
        .field_errors()
        .iter()
        .map(|f| {
            (f.field.clone(), f.errors.iter().map(|e| (e.code.clone(), e.message.clone())).collect())
        })
        .collect()
}

fn field(name: &str, errors: &[(&str, Option<&str>)]) -> (String, Vec<(String, Option<String>)>) {
    (
        name.to_string(),
        errors.iter().map(|(c, m)| (c.to_string(), m.map(|m| m.to_string()))).collect(),
    )
}

fn owner_form(telephone: &str, id: &str) -> CreateOrUpdateOwnerForm {
    CreateOrUpdateOwnerForm {
        first_name: "George".to_string(),
        last_name: "Franklin".to_string(),
        address: "110 W. Liberty St.".to_string(),
        city: "Madison".to_string(),
        telephone: telephone.to_string(),
        id: id.to_string(),
    }
}

#[test]
fn a_complete_owner_form_passes() {
    assert!(owner_form("6085551023", "").validate().is_empty());
    assert!(owner_form("6085551023", "17").validate().is_empty());
}

#[test]
fn empty_owner_fields_are_refused_in_the_order_of_the_form() {
    let form = CreateOrUpdateOwnerForm {
        first_name: String::new(),
        last_name: String::new(),
        address: String::new(),
        city: String::new(),
        telephone: String::new(),
        id: "x1".to_string(),
    };
    let errors = form.validate();
    assert!(!errors.is_empty());
    let empty = ("length", Some("공백일 수 없습니다"));
    assert_eq!(
        summary(&errors),
        vec![
            field("first_name", &[empty]),
            field("last_name", &[empty]),
            field("address", &[empty]),
            field("city", &[empty]),
            field("telephone", &[empty, ("regex", Some("Telephone must be a 10-digit number"))]),
            field("id", &[("regex", None)]),
        ]
    );
}

#[test]
fn a_blank_owner_field_is_not_empty() {
    let mut form = owner_form("6085551023", "");
    form.city = " ".to_string();
    assert!(form.validate().is_empty());
}

#[test]
fn a_telephone_number_is_ten_digits() {
    let refused = vec![field("telephone", &[("regex", Some("Telephone must be a 10-digit number"))])];
    for telephone in ["608555102", "60855510234", "608555102a", " 6085551023", "608-555-10"] {
        assert_eq!(summary(&owner_form(telephone, "").validate()), refused);
    }
}

#[test]
fn an_id_is_digits_or_empty() {
    let refused = vec![field("id", &[("regex", None)])];
    for id in ["-1", "1.5", "abc", " 1", "+1"] {
        assert_eq!(summary(&owner_form("6085551023", id).validate()), refused);
    }
    for id in ["0", "007", "4294967296"] {
        assert!(owner_form("6085551023", id).validate().is_empty());
    }
}

fn pet_form(name: &str, birth_date: &str, pet_type: &str) -> CreateOrUpdatePetForm {
    CreateOrUpdatePetForm {
        pet_name: name.to_string(),
        birth_date: birth_date.to_string(),
        pet_type: pet_type.to_string(),
    }
}

#[test]
fn a_complete_pet_form_passes() {
    assert!(pet_form("Leo", "2024-02-29", "cat").validate_on(TODAY).is_empty());
    assert!(pet_form("Leo", "2010-09-07", "snake").validate().is_empty());
}

#[test]
fn pet_fields_are_refused_by_their_rules() {
    let errors = pet_form(" ", "2024-03-01", "horse").validate_on(TODAY);
    assert_eq!(
        summary(&errors),
        vec![
            field("pet_name", &[("length", Some("required"))]),
            field("birth_date", &[("today_or_past_date", Some("typeMismatch.birthDate"))]),
            field("pet_type", &[("invalid_pet_type", Some("존재하지 않는 pet type 입니다"))]),
        ]
    );
    let errors = pet_form("Leo", "", "").validate_on(TODAY);
    assert_eq!(
        summary(&errors),
        vec![
            field("birth_date", &[("length", Some("required"))]),
            field("pet_type", &[("length", Some("required"))]),
        ]
    );
    let errors = pet_form("Leo", "soon", "dog").validate_on(TODAY);
    assert_eq!(
        summary(&errors),
        vec![field("birth_date", &[("invalid_date", Some("typeMismatch.birthDate"))])]
    );
    let errors = pet_form("Leo", "9999-01-01", "dog").validate();
    assert_eq!(
        summary(&errors),
        vec![field("birth_date", &[("today_or_past_date", Some("typeMismatch.birthDate"))])]
    );
}

fn pet(id: u32, name: Option<&str>) -> PetWithTypeAndVisits {
    PetWithTypeAndVisits {
        pet_id: id,
        pet_name: name.map(|n| n.to_string()),
        birth_date: Some(Date { year: 2010, month: 9, day: 7 }),
        pet_type: PetType { type_id: 1, pet_type_name: Some("cat".to_string()) },
        visits: Vec::new(),
    }
}

#[test]
fn a_pet_name_is_a_duplicate_whatever_its_case() {
    let pets = vec![pet(1, None), pet(2, Some("Leo")), pet(3, Some("ÉMILE"))];
    assert!(is_duplicate_pet_name(&pets, "Leo"));
    assert!(is_duplicate_pet_name(&pets, "LEO"));
    assert!(is_duplicate_pet_name(&pets, "leo"));
    assert!(is_duplicate_pet_name(&pets, "émile"));
    assert!(!is_duplicate_pet_name(&pets, "Leo "));
    assert!(!is_duplicate_pet_name(&pets, "Basil"));
    assert!(!is_duplicate_pet_name(&pets, ""));
    assert!(!is_duplicate_pet_name(&Vec::new(), "Leo"));
}

#[test]
fn a_duplicate_pet_name_is_refused_after_the_rules_of_the_form() {
    let pets = vec![pet(2, Some("Leo"))];
    let errors = validate_creation_on(&pet_form("LEO", "2024-02-29", "cat"), TODAY, &pets);
    assert_eq!(summary(&errors), vec![field("pet_name", &[("duplicate", Some("duplicate"))])]);
    let errors = validate_creation_on(&pet_form("leo", "2024-02-29", ""), TODAY, &pets);
    assert_eq!(
        summary(&errors),
        vec![
            field("pet_type", &[("length", Some("required"))]),
            field("pet_name", &[("duplicate", Some("duplicate"))]),
        ]
    );
    let errors = validate_creation_on(&pet_form("Basil", "2024-02-29", "cat"), TODAY, &pets);
    assert!(errors.is_empty());
    let errors = validate_creation(&pet_form("Leo", "2000-01-01", "cat"), &pets);
    assert_eq!(summary(&errors), vec![field("pet_name", &[("duplicate", Some("duplicate"))])]);
}

#[test]
fn visit_fields_are_refused_by_their_rules() {
    let form = CreateVisitForm { date: "2024-03-01".to_string(), description: "shot".to_string() };
    assert!(form.validate_on(TODAY).is_empty());
    let form = CreateVisitForm { date: "2024-02-28".to_string(), description: String::new() };
    assert_eq!(
        summary(&form.validate_on(TODAY)),
        vec![
            field("date", &[("future_date", Some("typeMismatch.birthDate"))]),
            field("description", &[("length", Some("공백일 수 없습니다"))]),
        ]
    );
    let form = CreateVisitForm { date: String::new(), description: " ".to_string() };
    assert_eq!(summary(&form.validate_on(TODAY)), vec![field("date", &[("length", Some("required"))])]);
    let form = CreateVisitForm { date: "1900-01-01".to_string(), description: "x".to_string() };
    assert_eq!(
        summary(&form.validate()),
        vec![field("date", &[("future_date", Some("typeMismatch.birthDate"))])]
    );
    let form = CreateVisitForm { date: "9999-01-01".to_string(), description: "x".to_string() };
    assert!(form.validate().is_empty());
}

#[test]
fn refusals_of_one_field_are_kept_together() {
    let mut errors = ValidationErrors::new();
    assert!(errors.is_empty());
    errors.add("a", create_validation_error("one", "first"));
    errors.add("b", create_validation_error("two", "second"));
    errors.add("a", create_validation_error("three", "third"));
    assert!(!errors.is_empty());
    assert_eq!(
        summary(&errors),
        vec![
            field("a", &[("one", Some("first")), ("three", Some("third"))]),
            field("b", &[("two", Some("second"))]),
        ]
    );
}

#[test]
fn refusals_are_translated_field_by_field() {
    let i18n = I18n::new(vec![
        TranslationFile {
            language: "en".to_string(),
            content: "{\"required\": \"is required\", \"typeMismatch\": {\"birthDate\": \"invalid date\"}, \"parameter error\": \"bad value\"}".to_string(),
        },
        TranslationFile { language: "de".to_string(), content: "{\"required\": \"muss angegeben werden\"}".to_string() },
    ])
    .ok()
    .unwrap();
    let mut errors = pet_form("", "soon", "cat").validate_on(TODAY);
    errors.add("id", petclinic::web::validator::ValidationError { code: "regex".to_string(), message: None });
    let translated = i18n.translate_errors("en", &errors);
    let shown: Vec<(&str, Vec<&str>)> = translated
        .iter()
        .map(|f| (f.field.as_str(), f.messages.iter().map(|m| m.as_str()).collect()))
        .collect();
    assert_eq!(
        shown,
        vec![
            ("pet_name", vec!["is required"]),
            ("birth_date", vec!["invalid date"]),
            ("id", vec!["bad value"]),
        ]
    );
    let translated = i18n.translate_errors("de", &errors);
    let shown: Vec<(&str, Vec<&str>)> = translated
        .iter()
        .map(|f| (f.field.as_str(), f.messages.iter().map(|m| m.as_str()).collect()))
        .collect();
    assert_eq!(
        shown,
        vec![
            ("pet_name", vec!["muss angegeben werden"]),
            ("birth_date", vec!["typeMismatch.birthDate"]),
            ("id", vec!["parameter error"]),
        ]
    );
    assert!(i18n.translate_errors("en", &ValidationErrors::new()).is_empty());
}

#[test]
fn a_form_with_refusals_is_a_bad_request() {
    let mut errors = ValidationErrors::new();
    assert_eq!(petclinic::web::validator::form_status(&errors), 200);
    errors.add("id", create_validation_error("regex", "regex"));
    assert_eq!(petclinic::web::validator::form_status(&errors), 400);
}
