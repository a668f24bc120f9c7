use petclinic::date::Date;
use petclinic::service::owner_service::OwnerService;
use petclinic::service::owner_service::OwnerWithPetsAndTypesAndVisitsQueryResult;
use petclinic::service::vet_service::VetService;
use petclinic::service::vet_service::VetWithSpecialtiesQueryResult;

fn text(s: &str) -> Option<String> {
    Some(s.to_string())
}

fn day(year: i32, month: u32, day: u32) -> Option<Date> {
    Some(Date { year, month, day })
}

fn owner_row(
    pet: Option<(u32, &str, u32, &str)>,
    visit: Option<(u32, Option<Date>, &str)>,
) -> OwnerWithPetsAndTypesAndVisitsQueryResult {
    OwnerWithPetsAndTypesAndVisitsQueryResult {
        owner_id: 7,
        first_name: text("Jean"),
        last_name: text("Coleman"),
        address: text("105 N. Lake St."),
        city: text("Monona"),
        telephone: text("6085552654"),
        pet_id: pet.map(|p| p.0),
        pet_name: pet.map(|p| p.1.to_string()),
        birth_date: pet.map(|_| Date { year: 2010, month: 9, day: 7 }),
        type_id: pet.map(|p| p.2),
        pet_type_name: pet.map(|p| p.3.to_string()),
        visit_id: visit.map(|v| v.0),
        visit_date: visit.and_then(|v| v.1),
        description: visit.map(|v| v.2.to_string()),
    }
}

#[test]
fn owner_without_pets_has_an_empty_pet_list() {
    let owner = OwnerService::transform_query_results(vec![owner_row(None, None)]);
    assert_eq!(owner.owner_id, 7);
    assert_eq!(owner.first_name, text("Jean"));
    assert_eq!(owner.last_name, text("Coleman"));
    assert_eq!(owner.address, text("105 N. Lake St."));
    assert_eq!(owner.city, text("Monona"));
    assert_eq!(owner.telephone, text("6085552654"));
    assert!(owner.pets_with_type.is_empty());
}

#[test]
fn pets_are_grouped_and_sorted_by_name() {
    let rows = vec![
        owner_row(Some((8, "Samantha", 1, "cat")), Some((2, day(2013, 1, 2), "rabies shot"))),
        owner_row(Some((7, "Max", 1, "cat")), Some((3, day(2013, 1, 3), "neutered"))),
        owner_row(Some((8, "Samantha", 1, "cat")), Some((1, day(2013, 1, 1), "checkup"))),
        owner_row(Some((9, "Abby", 2, "dog")), None),
    ];
    let owner = OwnerService::transform_query_results(rows);
    let pets = &owner.pets_with_type;
    assert_eq!(pets.len(), 3);
    assert_eq!(pets[0].pet_id, 9);
    assert_eq!(pets[0].pet_name, text("Abby"));
    assert_eq!(pets[0].pet_type.type_id, 2);
    assert_eq!(pets[0].pet_type.pet_type_name, text("dog"));
    assert!(pets[0].visits.is_empty());
    assert_eq!(pets[1].pet_id, 7);
    assert_eq!(pets[1].visits.len(), 1);
    assert_eq!(pets[1].visits[0].visit_id, 3);
    assert_eq!(pets[2].pet_id, 8);
    assert_eq!(pets[2].birth_date, day(2010, 9, 7));
    assert_eq!(pets[2].visits.len(), 2);
    assert_eq!(pets[2].visits[0].visit_id, 1);
    assert_eq!(pets[2].visits[0].visit_date, day(2013, 1, 1));
    assert_eq!(pets[2].visits[0].description, text("checkup"));
    assert_eq!(pets[2].visits[1].visit_id, 2);
}

#[test]
fn pets_of_one_name_keep_the_order_of_their_first_rows() {
    let rows = vec![
        owner_row(Some((5, "Rex", 2, "dog")), None),
        owner_row(Some((3, "Rex", 2, "dog")), None),
        owner_row(Some((4, "Ace", 2, "dog")), None),
    ];
    let pets = OwnerService::group_pets_and_visits(&rows);
    let ids: Vec<u32> = pets.iter().map(|p| p.pet_id).collect();
    assert_eq!(ids, vec![4, 5, 3]);
}

#[test]
fn nameless_pets_come_first_and_names_sort_by_code_point() {
    let mut nameless = owner_row(Some((1, "", 2, "dog")), None);
    nameless.pet_name = None;
    let rows = vec![
        owner_row(Some((2, "b", 2, "dog")), None),
        owner_row(Some((3, "", 2, "dog")), None),
        owner_row(Some((4, "B", 2, "dog")), None),
        nameless,
        owner_row(Some((5, "ab", 2, "dog")), None),
        owner_row(Some((6, "a", 2, "dog")), None),
        owner_row(Some((8, "é", 2, "dog")), None),
    ];
    let pets = OwnerService::group_pets_and_visits(&rows);
    let ids: Vec<u32> = pets.iter().map(|p| p.pet_id).collect();
    assert_eq!(ids, vec![1, 3, 4, 6, 5, 2, 8]);
}

#[test]
fn pet_fields_come_from_the_first_row_of_the_pet() {
    let mut later = owner_row(Some((8, "Renamed", 3, "bird")), None);
    later.birth_date = day(1999, 1, 1);
    let rows = vec![owner_row(Some((8, "Samantha", 1, "cat")), None), later];
    let pets = OwnerService::group_pets_and_visits(&rows);
    assert_eq!(pets.len(), 1);
    assert_eq!(pets[0].pet_name, text("Samantha"));
    assert_eq!(pets[0].birth_date, day(2010, 9, 7));
    assert_eq!(pets[0].pet_type.type_id, 1);
    assert_eq!(pets[0].pet_type.pet_type_name, text("cat"));
}

#[test]
fn visits_are_sorted_by_date_undated_first_ties_in_row_order() {
    let pet = Some((8, "Samantha", 1, "cat"));
    let rows = vec![
        owner_row(pet, Some((10, day(2013, 1, 2), "b"))),
        owner_row(pet, Some((11, day(2012, 12, 31), "a"))),
        owner_row(pet, Some((12, day(2013, 1, 2), "c"))),
        owner_row(pet, Some((13, None, "d"))),
        owner_row(pet, Some((14, day(2013, 1, 1), "e"))),
        owner_row(pet, Some((15, day(2012, 2, 28), "f"))),
    ];
    let pet = OwnerService::create_pet_with_type_and_visits(&rows, 0);
    let ids: Vec<u32> = pet.visits.iter().map(|v| v.visit_id).collect();
    assert_eq!(ids, vec![13, 15, 11, 14, 10, 12]);
}

#[test]
fn a_visit_that_several_rows_bear_is_listed_once() {
    let pet = Some((8, "Samantha", 1, "cat"));
    let rows = vec![
        owner_row(pet, Some((10, day(2013, 1, 2), "first"))),
        owner_row(pet, Some((10, day(2013, 1, 2), "again"))),
        owner_row(Some((9, "Max", 1, "cat")), Some((10, day(2013, 1, 2), "other pet"))),
    ];
    let pets = OwnerService::group_pets_and_visits(&rows);
    assert_eq!(pets.len(), 2);
    assert_eq!(pets[0].pet_id, 9);
    assert_eq!(pets[0].visits.len(), 1);
    assert_eq!(pets[0].visits[0].description, text("other pet"));
    assert_eq!(pets[1].visits.len(), 1);
    assert_eq!(pets[1].visits[0].description, text("first"));
}

fn vet_row(id: u32, first: &str, specialty: Option<(u32, &str)>) -> VetWithSpecialtiesQueryResult {
    VetWithSpecialtiesQueryResult {
        vet_id: id,
        first_name: text(first),
        last_name: text("Leary"),
        specialty_id: specialty.map(|s| s.0),
        specialty_name: specialty.map(|s| s.1.to_string()),
    }
}

#[test]
fn vets_are_grouped_in_ascending_order_of_id() {
    let rows = vec![
        vet_row(3, "Linda", Some((3, "dentistry"))),
        vet_row(1, "James", None),
        vet_row(3, "Other", Some((2, "surgery"))),
        vet_row(2, "Helen", Some((1, "radiology"))),
        vet_row(3, "Linda", Some((3, "dentistry again"))),
    ];
    let vets = VetService::group_vets_by_id(rows);
    assert_eq!(vets.len(), 3);
    assert_eq!(vets[0].vet_id, 1);
    assert_eq!(vets[0].first_name, text("James"));
    assert!(vets[0].specialties.is_empty());
    assert_eq!(vets[1].vet_id, 2);
    assert_eq!(vets[1].specialties.len(), 1);
    assert_eq!(vets[1].specialties[0].specialty_id, 1);
    assert_eq!(vets[1].specialties[0].specialty_name, text("radiology"));
    assert_eq!(vets[2].vet_id, 3);
    assert_eq!(vets[2].first_name, text("Linda"));
    assert_eq!(vets[2].last_name, text("Leary"));
    let ids: Vec<u32> = vets[2].specialties.iter().map(|s| s.specialty_id).collect();
    assert_eq!(ids, vec![3, 2]);
    assert_eq!(vets[2].specialties[0].specialty_name, text("dentistry"));
}

#[test]
fn no_rows_give_no_vets() {
    assert!(VetService::group_vets_by_id(Vec::new()).is_empty());
}

#[test]
fn only_the_first_row_of_a_pet_must_bear_its_type() {
    let mut untyped = owner_row(Some((8, "Samantha", 1, "cat")), None);
    untyped.type_id = None;
    untyped.pet_type_name = None;
    let typed = || owner_row(Some((8, "Samantha", 1, "cat")), None);
    assert!(OwnerService::rows_have_types(&vec![typed(), owner_row(None, None)]));
    assert!(OwnerService::rows_have_types(&Vec::new()));
    let rows = vec![typed(), untyped];
    assert!(OwnerService::rows_have_types(&rows));
    let pets = OwnerService::group_pets_and_visits(&rows);
    assert_eq!(pets.len(), 1);
    assert_eq!(pets[0].pet_type.type_id, 1);
    let mut untyped = owner_row(Some((9, "Max", 1, "cat")), None);
    untyped.type_id = None;
    assert!(!OwnerService::rows_have_types(&vec![typed(), untyped]));
}

#[test]
fn last_names_are_matched_by_their_start() {
    assert_eq!(OwnerService::last_name_pattern("Dav"), "Dav%");
    assert_eq!(OwnerService::last_name_pattern(""), "%");
}
