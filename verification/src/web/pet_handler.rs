//! What the pet pages decide: which fields of a pet form are refused, which
//! pet of an owner a request means, and what the form of a pet shows.

use crate::date::format_date;
use crate::date::date_text;
use crate::date::today;
use crate::date::Date;
use crate::domain::owner::types;
use crate::model::app_error::AppError;
use crate::model::app_error::AppErrorView;
use crate::service::owner_service::pet_views;
use crate::service::owner_service::PetView;
use crate::service::owner_service::PetWithTypeAndVisits;
use crate::text::lowercase;
use crate::text::same_text;
use crate::text::to_lowercase;
use crate::web::validator::create_validation_error;
use crate::web::validator::not_blank_verdict;
use crate::web::validator::pet_type_verdict;
use crate::web::validator::refusal;
use crate::web::validator::today_or_past_verdict;
use crate::web::validator::validate_not_blank;
use crate::web::validator::validate_pet_type;
use crate::web::validator::validate_today_or_past_date_on;
use crate::web::validator::with_error;
use crate::web::validator::with_verdict;
use crate::web::validator::FieldErrorsView;
use crate::web::validator::ValidationErrors;
use vstd::prelude::*;

verus! {

/// The fields of the form that creates or updates a pet.
pub struct CreateOrUpdatePetForm {
    pub pet_name: String,
    pub birth_date: String,
    pub pet_type: String,
}

pub struct PetFormView {
    pub pet_name: Seq<char>,
    pub birth_date: Seq<char>,
    pub pet_type: Seq<char>,
}

impl View for CreateOrUpdatePetForm {
    type V = PetFormView;

    open spec fn view(&self) -> PetFormView {
        PetFormView {
            pet_name: self.pet_name@,
            birth_date: self.birth_date@,
            pet_type: self.pet_type@,
        }
    }
}

/// The refusals of a pet form on the day `today`: the name must not be
/// blank, the birth date must be a day up to today, and the type one that
/// the clinic treats.
pub open spec fn pet_form_errors(form: PetFormView, today: Date) -> Seq<FieldErrorsView> {
    let e = Seq::<FieldErrorsView>::empty();
    let e = with_verdict(e, "pet_name"@, not_blank_verdict(form.pet_name));
    let e = with_verdict(e, "birth_date"@, today_or_past_verdict(form.birth_date, today));
    with_verdict(e, "pet_type"@, pet_type_verdict(form.pet_type))
}

impl CreateOrUpdatePetForm {
    /// Checks the form against its rules, as of the given day.
    pub fn validate_on(&self, today: Date) -> (errors: ValidationErrors)
        ensures
            errors@ == pet_form_errors(self@, today),
    {
        let mut errors = ValidationErrors::new();
        errors.add_verdict("pet_name", validate_not_blank(self.pet_name.as_str()));
        errors.add_verdict(
            "birth_date",
            validate_today_or_past_date_on(self.birth_date.as_str(), today),
        );
        errors.add_verdict("pet_type", validate_pet_type(self.pet_type.as_str()));
        errors
    }

    /// Checks the form against its rules, as of the current day.
    pub fn validate(&self) -> (errors: ValidationErrors)
        ensures
            exists|today: Date| errors@ == #[trigger] pet_form_errors(self@, today),
    {
        self.validate_on(today())
    }
}

/// Whether one of the first `n` pets has the given name, upper and lower
/// case not counting.
pub open spec fn has_pet_named(pets: Seq<PetView>, name: Seq<char>, n: int) -> bool {
    exists|i: int|
        0 <= i < n && (#[trigger] pets[i]).pet_name is Some && lowercase(pets[i].pet_name.unwrap())
            == lowercase(name)
}

/// Whether the owner already has a pet of the given name, upper and lower
/// case not counting.
pub fn is_duplicate_pet_name(pets: &Vec<PetWithTypeAndVisits>, name: &str) -> (r: bool)
    ensures
        r == has_pet_named(pet_views(pets@), name@, pets@.len() as int),
{
    let wanted = to_lowercase(name);
    let mut i: usize = 0;
    while i < pets.len()
        invariant
            i <= pets@.len(),
            wanted@ == lowercase(name@),
            !has_pet_named(pet_views(pets@), name@, i as int),
        decreases pets@.len() - i,
    {
        assert(pet_views(pets@)[i as int] == pets@[i as int]@);
        match &pets[i].pet_name {
            Some(pet_name) => {
                let lower = to_lowercase(pet_name.as_str());
                if same_text(lower.as_str(), wanted.as_str()) {
                    return true;
                }
            },
            None => {},
        }
        i = i + 1;
    }
    false
}

/// The refusals of a form that creates a pet: those of the form's own
/// rules, and the name refused as a duplicate where the owner has a pet of
/// that name.
pub open spec fn pet_creation_errors(form: PetFormView, today: Date, pets: Seq<PetView>) -> Seq<
    FieldErrorsView,
> {
    if has_pet_named(pets, form.pet_name, pets.len() as int) {
        with_error(pet_form_errors(form, today), "pet_name"@, refusal("duplicate"@, "duplicate"@))
    } else {
        pet_form_errors(form, today)
    }
}

/// Checks a form that creates a pet for an owner with the given pets, as of
/// the given day.
pub fn validate_creation_on(
    form: &CreateOrUpdatePetForm,
    today: Date,
    pets: &Vec<PetWithTypeAndVisits>,
) -> (errors: ValidationErrors)
    ensures
        errors@ == pet_creation_errors(form@, today, pet_views(pets@)),
{
    let mut all_errors = form.validate_on(today);
    if is_duplicate_pet_name(pets, form.pet_name.as_str()) {
        all_errors.add("pet_name", create_validation_error("duplicate", "duplicate"));
    }
    all_errors
}

/// Checks a form that creates a pet for an owner with the given pets, as of
/// the current day.
pub fn validate_creation(form: &CreateOrUpdatePetForm, pets: &Vec<PetWithTypeAndVisits>) -> (errors:
    ValidationErrors)
    ensures
        exists|today: Date|
            errors@ == #[trigger] pet_creation_errors(form@, today, pet_views(pets@)),
{
    validate_creation_on(form, today(), pets)
}

/// The names of the first `n` pet types, those without a name left out.
pub open spec fn names_of(pet_types: Seq<types::Model>, n: int) -> Seq<Seq<char>>
    decreases n,
{
    if n <= 0 {
        Seq::empty()
    } else {
        match pet_types[n - 1].name {
            Some(name) => names_of(pet_types, n - 1).push(name@),
            None => names_of(pet_types, n - 1),
        }
    }
}

/// The texts of a list of strings.
pub open spec fn name_views(names: Seq<String>) -> Seq<Seq<char>> {
    names.map_values(|n: String| n@)
}

/// The names that the pet form offers as types.
pub fn pet_type_names(pet_types: Vec<types::Model>) -> (names: Vec<String>)
    ensures
        name_views(names@) == names_of(pet_types@, pet_types@.len() as int),
{
    let mut names: Vec<String> = Vec::new();
    let mut i: usize = 0;
    assert(name_views(names@) =~= Seq::empty());
    while i < pet_types.len()
        invariant
            i <= pet_types@.len(),
            name_views(names@) == names_of(pet_types@, i as int),
        decreases pet_types@.len() - i,
    {
        match &pet_types[i].name {
            Some(name) => {
                let ghost before_push = name_views(names@);
                names.push(name.clone());
                assert(name_views(names@) =~= before_push.push(name@));
            },
            None => {},
        }
        i = i + 1;
    }
    names
}

/// Index of the first pet type at or after `from` that has the given name,
/// or the length of the list where none has.
pub open spec fn type_index(pet_types: Seq<types::Model>, name: Seq<char>, from: int) -> int
    decreases pet_types.len() - from,
{
    if from < 0 || from >= pet_types.len() {
        pet_types.len() as int
    } else if pet_types[from]@.name == Some(name) {
        from
    } else {
        type_index(pet_types, name, from + 1)
    }
}

/// The id of the first pet type of the given name, if there is one.
pub fn pet_type_id(pet_types: &Vec<types::Model>, name: &str) -> (id: Option<u32>)
    ensures
        match id {
            Some(found) => 0 <= type_index(pet_types@, name@, 0) < pet_types@.len() && found
                == pet_types@[type_index(pet_types@, name@, 0)].id,
            None => type_index(pet_types@, name@, 0) == pet_types@.len(),
        },
{
    let mut i: usize = 0;
    while i < pet_types.len()
        invariant
            i <= pet_types@.len(),
            type_index(pet_types@, name@, 0) == type_index(pet_types@, name@, i as int),
        decreases pet_types@.len() - i,
    {
        match &pet_types[i].name {
            Some(kind_name) => {
                if same_text(kind_name.as_str(), name) {
                    return Some(pet_types[i].id);
                }
            },
            None => {},
        }
        i = i + 1;
    }
    None
}

/// Index of the first pet at or after `from` that has the given id, or the
/// length of the list where none has.
pub open spec fn pet_index(pets: Seq<PetView>, pet_id: u32, from: int) -> int
    decreases pets.len() - from,
{
    if from < 0 || from >= pets.len() {
        pets.len() as int
    } else if pets[from].pet_id == pet_id {
        from
    } else {
        pet_index(pets, pet_id, from + 1)
    }
}

/// The failure that reports that the owner has no pet of the given id.
pub open spec fn pet_not_found(pet_id: u32) -> AppErrorView {
    AppErrorView::ResourceNotFound { resource: "pet"@, id: pet_id }
}

/// The first pet of the given id among those of an owner, or the failure
/// that reports it missing.
pub fn find_pet_by_id(pets: &Vec<PetWithTypeAndVisits>, pet_id: u32) -> (result: Result<
    &PetWithTypeAndVisits,
    AppError,
>)
    ensures
        match result {
            Ok(pet) => 0 <= pet_index(pet_views(pets@), pet_id, 0) < pets@.len() && *pet
                == pets@[pet_index(pet_views(pets@), pet_id, 0)],
            Err(error) => pet_index(pet_views(pets@), pet_id, 0) == pets@.len() && error@
                == pet_not_found(pet_id),
        },
{
    let mut i: usize = 0;
    while i < pets.len()
        invariant
            i <= pets@.len(),
            pet_index(pet_views(pets@), pet_id, 0) == pet_index(pet_views(pets@), pet_id, i as int),
        decreases pets@.len() - i,
    {
        assert(pet_views(pets@)[i as int] == pets@[i as int]@);
        if pets[i].pet_id == pet_id {
            return Ok(&pets[i]);
        }
        i = i + 1;
    }
    Err(AppError::ResourceNotFound { resource: String::from_str("pet"), id: pet_id })
}

/// What the form of a pet shows: its name, its birth date written as
/// year-month-day and the name of its type; nothing where the pet lacks one
/// of the three, or its birth date is no day of the calendar.
pub open spec fn pet_form_of(pet: PetView) -> Option<PetFormView> {
    if pet.pet_name is Some && pet.birth_date is Some && pet.pet_type.pet_type_name is Some
        && date_text(
        pet.birth_date.unwrap().year as int,
        pet.birth_date.unwrap().month as int,
        pet.birth_date.unwrap().day as int,
    ) is Some {
        Some(
            PetFormView {
                pet_name: pet.pet_name.unwrap(),
                birth_date: date_text(
                    pet.birth_date.unwrap().year as int,
                    pet.birth_date.unwrap().month as int,
                    pet.birth_date.unwrap().day as int,
                ).unwrap(),
                pet_type: pet.pet_type.pet_type_name.unwrap(),
            },
        )
    } else {
        None
    }
}

/// The view of an optional form.
pub open spec fn form_view(form: Option<CreateOrUpdatePetForm>) -> Option<PetFormView> {
    match form {
        Some(f) => Some(f@),
        None => None,
    }
}

/// Fills the form that updates a pet with what is stored of the pet.
pub fn pet_form(pet: &PetWithTypeAndVisits) -> (form: Option<CreateOrUpdatePetForm>)
    ensures
        form_view(form) == pet_form_of(pet@),
{
    let pet_name = match &pet.pet_name {
        Some(name) => name.clone(),
        None => {
            return None;
        },
    };
    let birth_date = match pet.birth_date {
        Some(date) => match format_date(date) {
            Some(text) => text,
            None => {
                return None;
            },
        },
        None => {
            return None;
        },
    };
    let pet_type = match &pet.pet_type.pet_type_name {
        Some(name) => name.clone(),
        None => {
            return None;
        },
    };
    Some(CreateOrUpdatePetForm { pet_name, birth_date, pet_type })
}

} // verus!
