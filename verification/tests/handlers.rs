use petclinic::date::Date;
use petclinic::domain::owner::types;
use petclinic::model::app_error::AppError;
use petclinic::service::owner_service::OwnersWithPetNames;
use petclinic::service::owner_service::PetType;
use petclinic::service::owner_service::PetWithTypeAndVisits;
use petclinic::service::vet_service;
use petclinic::service::vet_service::VetWithSpecialties;
use petclinic::text::parse_u32;
use petclinic::web::owner_handler::check_owner_id;
use petclinic::web::owner_handler::extract_flash_messages;
use petclinic::web::owner_handler::find_outcome;
use petclinic::web::owner_handler::nothing_found;
use petclinic::web::owner_handler::owner_path;
use petclinic::web::owner_handler::page_index;
use petclinic::web::owner_handler::FindOutcome;
use petclinic::web::owner_handler::FindOwnerRequestQueryParams;
use petclinic::web::owner_handler::FlashMessage;
use petclinic::web::owner_handler::Level;
use petclinic::web::pet_handler::find_pet_by_id;
use petclinic::web::pet_handler::pet_form;
use petclinic::web::pet_handler::pet_type_id;
use petclinic::web::pet_handler::pet_type_names;
use petclinic::web::vet_handler::has_vets;
use petclinic::web::vet_handler::show_resources_vet_list;
use petclinic::web::vet_handler::ShowVetListQuery;
use petclinic::web::vet_handler::Specialty;
use petclinic::web::vet_handler::Vet;

fn flash(level: Level, content: &str) -> FlashMessage {
    FlashMessage { level, content: content.to_string() }
}

#[test]
fn the_last_information_and_the_last_error_are_shown() {
    let messages = vec![
        flash(Level::Info, "New Owner Created"),
        flash(Level::Warning, "ignored"),
        flash(Level::Error, "first error"),
        flash(Level::Info, "Owner Values Updated"),
        flash(Level::Success, "ignored"),
        flash(Level::Error, "last error"),
        flash(Level::Debug, "ignored"),
    ];
    let (success, error) = extract_flash_messages(&messages);
    assert_eq!(success.map(|s| s.as_str()), Some("Owner Values Updated"));
    assert_eq!(error.map(|s| s.as_str()), Some("last error"));
    let one = vec![flash(Level::Success, "done")];
    let (success, error) = extract_flash_messages(&one);
    assert!(success.is_none());
    assert!(error.is_none());
    let none = Vec::new();
    let (success, error) = extract_flash_messages(&none);
    assert!(success.is_none() && error.is_none());
}

#[test]
fn a_search_defaults_to_any_name_first_page_five_owners() {
    let query = FindOwnerRequestQueryParams { last_name: None, page: None, size: None }.query();
    assert_eq!(query.last_name, "");
    assert_eq!(query.page, 1);
    assert_eq!(query.size, 5);
    let query = FindOwnerRequestQueryParams {
        last_name: Some("Dav".to_string()),
        page: Some(3),
        size: Some(20),
    }
    .query();
    assert_eq!(query.last_name, "Dav");
    assert_eq!(query.page, 3);
    assert_eq!(query.size, 20);
}

#[test]
fn pages_count_from_one_and_indices_from_zero() {
    assert_eq!(page_index(1), 0);
    assert_eq!(page_index(12), 11);
    assert_eq!(page_index(u64::MAX), u64::MAX - 1);
}

fn found(id: u32) -> OwnersWithPetNames {
    OwnersWithPetNames {
        id,
        first_name: Some("Betty".to_string()),
        last_name: Some("Davis".to_string()),
        address: None,
        city: None,
        telephone: None,
        pet_names: Some("Basil, Leo".to_string()),
    }
}

#[test]
fn a_single_owner_on_the_first_page_is_shown_at_once() {
    assert!(nothing_found(0));
    assert!(!nothing_found(1));
    match find_outcome(1, 1, &vec![found(42)]) {
        FindOutcome::Redirect(path) => assert_eq!(path, "/owners/42"),
        FindOutcome::List(_) => panic!("the owner should be shown"),
    }
    match find_outcome(1, 6, &vec![found(1), found(2)]) {
        FindOutcome::List(page) => {
            assert_eq!(page.total_pages(), 2);
            assert!(!page.has_previous());
            assert!(page.has_next());
            assert_eq!(page.page_range(), &vec![1, 2]);
        }
        FindOutcome::Redirect(_) => panic!("the owners should be listed"),
    }
    match find_outcome(2, 6, &vec![found(6)]) {
        FindOutcome::List(page) => {
            assert!(page.has_previous());
            assert!(!page.has_next());
        }
        FindOutcome::Redirect(_) => panic!("the owners should be listed"),
    }
    match find_outcome(1, 3, &Vec::new()) {
        FindOutcome::List(page) => assert_eq!(page.total_pages(), 1),
        FindOutcome::Redirect(_) => panic!("the owners should be listed"),
    }
}

#[test]
fn owner_paths_end_in_the_id() {
    assert_eq!(owner_path(0), "/owners/0");
    assert_eq!(owner_path(305), "/owners/305");
    assert_eq!(owner_path(u32::MAX), "/owners/4294967295");
}

#[test]
fn an_update_must_name_the_owner_it_is_sent_to() {
    assert!(check_owner_id(7, 7).is_ok());
    match check_owner_id(7, 8) {
        Ok(()) => panic!("the ids differ"),
        Err(error) => {
            assert_eq!(error.status_code(), 400);
            assert_eq!(
                error.message(),
                "Resource ID mismatch: owner - Path ID 7 does not match Body ID 8"
            );
            assert!(matches!(
                error,
                AppError::ResourceIdMismatch { path_id: 7, body_id: 8, .. }
            ));
        }
    }
}

#[test]
fn ids_are_read_as_decimal_numbers() {
    assert_eq!(parse_u32("0"), Some(0));
    assert_eq!(parse_u32("007"), Some(7));
    assert_eq!(parse_u32("+15"), Some(15));
    assert_eq!(parse_u32("4294967295"), Some(u32::MAX));
    assert_eq!(parse_u32("4294967296"), None);
    assert_eq!(parse_u32("99999999999999999999999"), None);
    assert_eq!(parse_u32(""), None);
    assert_eq!(parse_u32("+"), None);
    assert_eq!(parse_u32("-1"), None);
    assert_eq!(parse_u32("1 "), None);
    assert_eq!(parse_u32("١٢"), None);
    assert_eq!(parse_u32("12a"), None);
    for text in ["0", "+0", "10", "65536", "4294967295", "4294967296", "", "+", "++1", "1e3"] {
        assert_eq!(parse_u32(text), text.parse::<u32>().ok());
    }
}

fn pet_type(id: u32, name: Option<&str>) -> types::Model {
    types::Model { id, name: name.map(|n| n.to_string()) }
}

#[test]
fn pet_types_are_offered_by_name() {
    let all = || vec![pet_type(1, Some("cat")), pet_type(2, None), pet_type(3, Some("dog")), pet_type(4, Some("cat"))];
    assert_eq!(pet_type_names(all()), ["cat", "dog", "cat"]);
    assert!(pet_type_names(Vec::new()).is_empty());
    assert_eq!(pet_type_id(&all(), "dog"), Some(3));
    assert_eq!(pet_type_id(&all(), "cat"), Some(1));
    assert_eq!(pet_type_id(&all(), "bird"), None);
    assert_eq!(pet_type_id(&all(), ""), None);
}

fn pet(id: u32, name: Option<&str>, birth_date: Option<Date>, kind: Option<&str>) -> PetWithTypeAndVisits {
    PetWithTypeAndVisits {
        pet_id: id,
        pet_name: name.map(|n| n.to_string()),
        birth_date,
        pet_type: PetType { type_id: 1, pet_type_name: kind.map(|k| k.to_string()) },
        visits: Vec::new(),
    }
}

#[test]
fn a_pet_is_found_by_its_id() {
    let day = Some(Date { year: 2010, month: 9, day: 7 });
    let pets = vec![pet(3, Some("Leo"), day, Some("cat")), pet(5, Some("Basil"), day, Some("hamster"))];
    assert_eq!(find_pet_by_id(&pets, 5).ok().unwrap().pet_name, Some("Basil".to_string()));
    assert_eq!(find_pet_by_id(&pets, 3).ok().unwrap().pet_id, 3);
    match find_pet_by_id(&pets, 4) {
        Ok(_) => panic!("there is no such pet"),
        Err(error) => {
            assert_eq!(error.status_code(), 404);
            assert_eq!(error.message(), "Resource not found: pet with id: 4");
        }
    }
}

#[test]
fn the_form_of_a_pet_shows_what_is_stored() {
    let stored = pet(3, Some("Leo"), Some(Date { year: 2010, month: 9, day: 7 }), Some("cat"));
    let form = pet_form(&stored).unwrap();
    assert_eq!(form.pet_name, "Leo");
    assert_eq!(form.birth_date, "2010-09-07");
    assert_eq!(form.pet_type, "cat");
    let day = Some(Date { year: 2010, month: 9, day: 7 });
    assert!(pet_form(&pet(3, None, day, Some("cat"))).is_none());
    assert!(pet_form(&pet(3, Some("Leo"), None, Some("cat"))).is_none());
    assert!(pet_form(&pet(3, Some("Leo"), day, None)).is_none());
    let no_such_day = Some(Date { year: 2023, month: 2, day: 29 });
    assert!(pet_form(&pet(3, Some("Leo"), no_such_day, Some("cat"))).is_none());
}

#[test]
fn vets_are_listed_under_the_names_of_the_resource() {
    let specialty = Specialty::from(vet_service::Specialty {
        specialty_id: 2,
        specialty_name: Some("surgery".to_string()),
    });
    assert_eq!(specialty.id, 2);
    assert_eq!(specialty.name, Some("surgery".to_string()));
    let vet = Vet::from(VetWithSpecialties {
        vet_id: 3,
        first_name: Some("Linda".to_string()),
        last_name: Some("Douglas".to_string()),
        specialties: vec![
            vet_service::Specialty { specialty_id: 3, specialty_name: Some("dentistry".to_string()) },
            vet_service::Specialty { specialty_id: 2, specialty_name: None },
        ],
    });
    assert_eq!(vet.id, 3);
    assert_eq!(vet.first_name, Some("Linda".to_string()));
    assert_eq!(vet.last_name, Some("Douglas".to_string()));
    let listed: Vec<(u32, Option<&str>)> =
        vet.specialties.iter().map(|s| (s.id, s.name.as_deref())).collect();
    assert_eq!(listed, [(3, Some("dentistry")), (2, None)]);
    let response = show_resources_vet_list(vec![
        VetWithSpecialties { vet_id: 1, first_name: None, last_name: None, specialties: Vec::new() },
        VetWithSpecialties {
            vet_id: 2,
            first_name: Some("Helen".to_string()),
            last_name: None,
            specialties: vec![vet_service::Specialty { specialty_id: 1, specialty_name: None }],
        },
    ]);
    let ids: Vec<u32> = response.vet_list.iter().map(|v| v.id).collect();
    assert_eq!(ids, [1, 2]);
    assert!(response.vet_list[0].specialties.is_empty());
    assert_eq!(response.vet_list[1].specialties.len(), 1);
}

#[test]
fn the_page_of_vets_defaults_to_the_first_with_five_vets() {
    let query = ShowVetListQuery { page: None, size: None };
    assert_eq!(query.cur_page(), 1);
    assert_eq!(query.page_size(), 5);
    let query = ShowVetListQuery { page: Some(4), size: Some(2) };
    assert_eq!(query.cur_page(), 4);
    assert_eq!(query.page_size(), 2);
    assert!(!has_vets(0));
    assert!(has_vets(1));
}

#[test]
fn a_failure_is_answered_with_its_status_and_envelope() {
    let reply = AppError::ResourceNotFound { resource: "owner".to_string(), id: 9 }.error_response();
    assert_eq!(reply.status, 404);
    assert_eq!(reply.body.message(), "Resource not found: owner with id: 9");
    let reply = AppError::DbError("down".to_string()).error_response();
    assert_eq!(reply.status, 500);
    assert_eq!(reply.body.message(), "Database error: down");
}
