//! Owners with their pets, each pet with its type and visits, rebuilt from
//! the rows of a left join across owner, pet, type and visit.

use crate::date::date_precedes;
use crate::domain::owner::owners;
use crate::model::app_error::AppError;
use crate::model::app_error::AppErrorView;
use crate::date::opt_date_lt;
use crate::date::Date;
use crate::ordering::enumerate;
use crate::ordering::enumeration_carries_over;
use crate::ordering::indices;
use crate::ordering::is_enumeration;
use crate::ordering::Listing;
use crate::ordering::Selection;
use crate::text::clone_text;
use crate::text::name_lt;
use crate::text::name_lt_is_strict_total;
use crate::text::name_precedes;
use crate::text::same_name;
use crate::text::text_of;
use vstd::prelude::*;

verus! {

pub struct OwnerService;

/// One row of the join: the owner's columns, then those of one of its pets
/// with its type, then those of one of that pet's visits. The pet and visit
/// columns are empty where the owner has no pet, or the pet no visit.
pub struct OwnerWithPetsAndTypesAndVisitsQueryResult {
    pub owner_id: u32,
    pub first_name: Option<String>,
    pub last_name: Option<String>,
    pub address: Option<String>,
    pub city: Option<String>,
    pub telephone: Option<String>,
    pub pet_id: Option<u32>,
    pub pet_name: Option<String>,
    pub birth_date: Option<Date>,
    pub type_id: Option<u32>,
    pub pet_type_name: Option<String>,
    pub visit_id: Option<u32>,
    pub visit_date: Option<Date>,
    pub description: Option<String>,
}

/// A join row as mathematical values.
pub struct OwnerRow {
    pub owner_id: u32,
    pub first_name: Option<Seq<char>>,
    pub last_name: Option<Seq<char>>,
    pub address: Option<Seq<char>>,
    pub city: Option<Seq<char>>,
    pub telephone: Option<Seq<char>>,
    pub pet_id: Option<u32>,
    pub pet_name: Option<Seq<char>>,
    pub birth_date: Option<Date>,
    pub type_id: Option<u32>,
    pub pet_type_name: Option<Seq<char>>,
    pub visit_id: Option<u32>,
    pub visit_date: Option<Date>,
    pub description: Option<Seq<char>>,
}

impl View for OwnerWithPetsAndTypesAndVisitsQueryResult {
    type V = OwnerRow;

    open spec fn view(&self) -> OwnerRow {
        OwnerRow {
            owner_id: self.owner_id,
            first_name: text_of(self.first_name),
            last_name: text_of(self.last_name),
            address: text_of(self.address),
            city: text_of(self.city),
            telephone: text_of(self.telephone),
            pet_id: self.pet_id,
            pet_name: text_of(self.pet_name),
            birth_date: self.birth_date,
            type_id: self.type_id,
            pet_type_name: text_of(self.pet_type_name),
            visit_id: self.visit_id,
            visit_date: self.visit_date,
            description: text_of(self.description),
        }
    }
}

/// The rows of a result as mathematical values.
pub open spec fn row_views(rows: Seq<OwnerWithPetsAndTypesAndVisitsQueryResult>) -> Seq<OwnerRow> {
    rows.map_values(|r: OwnerWithPetsAndTypesAndVisitsQueryResult| r@)
}

pub struct Visit {
    pub visit_id: u32,
    pub visit_date: Option<Date>,
    pub description: Option<String>,
}

pub struct VisitView {
    pub visit_id: u32,
    pub visit_date: Option<Date>,
    pub description: Option<Seq<char>>,
}

impl View for Visit {
    type V = VisitView;

    open spec fn view(&self) -> VisitView {
        VisitView {
            visit_id: self.visit_id,
            visit_date: self.visit_date,
            description: text_of(self.description),
        }
    }
}

pub struct PetType {
    pub type_id: u32,
    pub pet_type_name: Option<String>,
}

pub struct PetTypeView {
    pub type_id: u32,
    pub pet_type_name: Option<Seq<char>>,
}

impl View for PetType {
    type V = PetTypeView;

    open spec fn view(&self) -> PetTypeView {
        PetTypeView { type_id: self.type_id, pet_type_name: text_of(self.pet_type_name) }
    }
}

pub struct PetWithTypeAndVisits {
    pub pet_id: u32,
    pub pet_name: Option<String>,
    pub birth_date: Option<Date>,
    pub pet_type: PetType,
    pub visits: Vec<Visit>,
}

pub struct PetView {
    pub pet_id: u32,
    pub pet_name: Option<Seq<char>>,
    pub birth_date: Option<Date>,
    pub pet_type: PetTypeView,
    pub visits: Seq<VisitView>,
}

/// The visits of a list as mathematical values.
pub open spec fn visit_views(visits: Seq<Visit>) -> Seq<VisitView> {
    visits.map_values(|v: Visit| v@)
}

impl View for PetWithTypeAndVisits {
    type V = PetView;

    open spec fn view(&self) -> PetView {
        PetView {
            pet_id: self.pet_id,
            pet_name: text_of(self.pet_name),
            birth_date: self.birth_date,
            pet_type: self.pet_type@,
            visits: visit_views(self.visits@),
        }
    }
}

pub struct OwnerWithPetsAndTypesAndVisits {
    pub owner_id: u32,
    pub first_name: Option<String>,
    pub last_name: Option<String>,
    pub address: Option<String>,
    pub city: Option<String>,
    pub telephone: Option<String>,
    pub pets_with_type: Vec<PetWithTypeAndVisits>,
}

pub struct OwnerView {
    pub owner_id: u32,
    pub first_name: Option<Seq<char>>,
    pub last_name: Option<Seq<char>>,
    pub address: Option<Seq<char>>,
    pub city: Option<Seq<char>>,
    pub telephone: Option<Seq<char>>,
    pub pets_with_type: Seq<PetView>,
}

/// The pets of a list as mathematical values.
pub open spec fn pet_views(pets: Seq<PetWithTypeAndVisits>) -> Seq<PetView> {
    pets.map_values(|p: PetWithTypeAndVisits| p@)
}

impl View for OwnerWithPetsAndTypesAndVisits {
    type V = OwnerView;

    open spec fn view(&self) -> OwnerView {
        OwnerView {
            owner_id: self.owner_id,
            first_name: text_of(self.first_name),
            last_name: text_of(self.last_name),
            address: text_of(self.address),
            city: text_of(self.city),
            telephone: text_of(self.telephone),
            pets_with_type: pet_views(self.pets_with_type@),
        }
    }
}

/// Row `i` is the first row of its pet.
pub open spec fn is_first_pet_row(rows: Seq<OwnerRow>, i: int) -> bool {
    &&& rows[i].pet_id is Some
    &&& forall|j: int| 0 <= j < i ==> (#[trigger] rows[j]).pet_id != rows[i].pet_id
}

/// The pet of row `i` is listed ahead of that of row `j`: by name, the
/// nameless first, and pets of one name in the order of their first rows.
pub open spec fn pet_row_before(rows: Seq<OwnerRow>, i: int, j: int) -> bool {
    name_lt(rows[i].pet_name, rows[j].pet_name) || (rows[i].pet_name == rows[j].pet_name && i < j)
}

/// The pets of a result: one for each pet id, taken from the first row that
/// bears it, in order of name.
pub struct PetListing {
    pub rows: Seq<OwnerRow>,
}

impl Listing for PetListing {
    open spec fn count(&self) -> int {
        self.rows.len() as int
    }

    open spec fn picks(&self, i: int) -> bool {
        is_first_pet_row(self.rows, i)
    }

    open spec fn before(&self, i: int, j: int) -> bool {
        pet_row_before(self.rows, i, j)
    }

    proof fn before_is_strict_total(&self, i: int, j: int, k: int) {
        let rows = self.rows;
        name_lt_is_strict_total(rows[i].pet_name, rows[j].pet_name, rows[k].pet_name);
        name_lt_is_strict_total(rows[i].pet_name, rows[i].pet_name, rows[i].pet_name);
        name_lt_is_strict_total(rows[j].pet_name, rows[i].pet_name, rows[k].pet_name);
        name_lt_is_strict_total(rows[j].pet_name, rows[k].pet_name, rows[i].pet_name);
        name_lt_is_strict_total(rows[k].pet_name, rows[k].pet_name, rows[i].pet_name);
    }
}

/// Row `i` is the first row of its visit among the rows of pet `pet_id`.
pub open spec fn is_first_visit_row(rows: Seq<OwnerRow>, pet_id: u32, i: int) -> bool {
    &&& rows[i].pet_id == Some(pet_id)
    &&& rows[i].visit_id is Some
    &&& forall|j: int|
        0 <= j < i ==> !((#[trigger] rows[j]).pet_id == Some(pet_id) && rows[j].visit_id
            == rows[i].visit_id)
}

/// The visit of row `i` is listed ahead of that of row `j`: by date, the
/// undated first, and visits of one day in the order of their first rows.
pub open spec fn visit_row_before(rows: Seq<OwnerRow>, i: int, j: int) -> bool {
    opt_date_lt(rows[i].visit_date, rows[j].visit_date) || (rows[i].visit_date
        == rows[j].visit_date && i < j)
}

/// The visits of one pet: one for each visit id, taken from the first row
/// that bears it, in order of date.
pub struct VisitListing {
    pub rows: Seq<OwnerRow>,
    pub pet_id: u32,
}

impl Listing for VisitListing {
    open spec fn count(&self) -> int {
        self.rows.len() as int
    }

    open spec fn picks(&self, i: int) -> bool {
        is_first_visit_row(self.rows, self.pet_id, i)
    }

    open spec fn before(&self, i: int, j: int) -> bool {
        visit_row_before(self.rows, i, j)
    }

    proof fn before_is_strict_total(&self, i: int, j: int, k: int) {
    }
}

/// The visit that row `i` describes.
pub open spec fn visit_at(rows: Seq<OwnerRow>, i: int) -> VisitView {
    VisitView {
        visit_id: rows[i].visit_id.unwrap(),
        visit_date: rows[i].visit_date,
        description: rows[i].description,
    }
}

/// `visits` are the visits of pet `pet_id`, in order.
pub open spec fn is_visits_of(rows: Seq<OwnerRow>, pet_id: u32, visits: Seq<VisitView>) -> bool {
    exists|order: Seq<int>|
        #[trigger] is_enumeration(&VisitListing { rows, pet_id }, order) && visits
            == order.map_values(|i: int| visit_at(rows, i))
}

/// `pet` is the pet that row `i` describes, with all its visits.
pub open spec fn is_pet_at(rows: Seq<OwnerRow>, i: int, pet: PetView) -> bool {
    &&& rows[i].pet_id == Some(pet.pet_id)
    &&& pet.pet_name == rows[i].pet_name
    &&& pet.birth_date == rows[i].birth_date
    &&& rows[i].type_id == Some(pet.pet_type.type_id)
    &&& pet.pet_type.pet_type_name == rows[i].pet_type_name
    &&& is_visits_of(rows, pet.pet_id, pet.visits)
}

/// `pets` are the pets of the result, in order.
pub open spec fn is_pets_of(rows: Seq<OwnerRow>, pets: Seq<PetView>) -> bool {
    exists|order: Seq<int>|
        #[trigger] is_enumeration(&PetListing { rows }, order) && pets.len() == order.len()
            && forall|k: int| 0 <= k < order.len() ==> is_pet_at(rows, order[k], #[trigger] pets[k])
}

/// `owner` is the owner of the result's first row, with all pets of the
/// result.
pub open spec fn is_owner_of(rows: Seq<OwnerRow>, owner: OwnerView) -> bool {
    &&& rows.len() > 0
    &&& owner.owner_id == rows[0].owner_id
    &&& owner.first_name == rows[0].first_name
    &&& owner.last_name == rows[0].last_name
    &&& owner.address == rows[0].address
    &&& owner.city == rows[0].city
    &&& owner.telephone == rows[0].telephone
    &&& is_pets_of(rows, owner.pets_with_type)
}

/// The first row of every pet bears the pet's type.
pub open spec fn pets_have_types(rows: Seq<OwnerRow>) -> bool {
    forall|i: int|
        0 <= i < rows.len() && #[trigger] is_first_pet_row(rows, i) ==> rows[i].type_id is Some
}

/// Whether an optional id is the given one.
fn is_id(o: &Option<u32>, id: u32) -> (r: bool)
    ensures
        r == (*o == Some(id)),
{
    match o {
        Some(x) => *x == id,
        None => false,
    }
}

/// The pet listing of the rows at hand.
struct PetsOf<'a> {
    rows: &'a Vec<OwnerWithPetsAndTypesAndVisitsQueryResult>,
}

impl<'a> PetsOf<'a> {
    spec fn listing(&self) -> PetListing {
        PetListing { rows: row_views(self.rows@) }
    }
}

impl<'a> Listing for PetsOf<'a> {
    closed spec fn count(&self) -> int {
        self.listing().count()
    }

    closed spec fn picks(&self, i: int) -> bool {
        self.listing().picks(i)
    }

    closed spec fn before(&self, i: int, j: int) -> bool {
        self.listing().before(i, j)
    }

    proof fn before_is_strict_total(&self, i: int, j: int, k: int) {
        self.listing().before_is_strict_total(i, j, k);
    }
}

impl<'a> Selection for PetsOf<'a> {
    fn len(&self) -> (n: usize) {
        self.rows.len()
    }

    fn pick(&self, i: usize) -> (b: bool) {
        let ghost views = row_views(self.rows@);
        match self.rows[i].pet_id {
            None => false,
            Some(id) => {
                let mut j: usize = 0;
                while j < i
                    invariant
                        j <= i < self.rows@.len(),
                        views == row_views(self.rows@),
                        views[i as int].pet_id == Some(id),
                        forall|m: int| 0 <= m < j ==> (#[trigger] views[m]).pet_id != Some(id),
                    decreases i - j,
                {
                    if is_id(&self.rows[j].pet_id, id) {
                        assert(views[j as int].pet_id == Some(id));
                        return false;
                    }
                    j = j + 1;
                }
                true
            },
        }
    }

    fn precedes(&self, i: usize, j: usize) -> (b: bool) {
        let a = &self.rows[i].pet_name;
        let b = &self.rows[j].pet_name;
        name_precedes(a, b) || (same_name(a, b) && i < j)
    }
}

/// The visit listing of one pet in the rows at hand.
struct VisitsOf<'a> {
    rows: &'a Vec<OwnerWithPetsAndTypesAndVisitsQueryResult>,
    pet_id: u32,
}

impl<'a> VisitsOf<'a> {
    spec fn listing(&self) -> VisitListing {
        VisitListing { rows: row_views(self.rows@), pet_id: self.pet_id }
    }
}

impl<'a> Listing for VisitsOf<'a> {
    closed spec fn count(&self) -> int {
        self.listing().count()
    }

    closed spec fn picks(&self, i: int) -> bool {
        self.listing().picks(i)
    }

    closed spec fn before(&self, i: int, j: int) -> bool {
        self.listing().before(i, j)
    }

    proof fn before_is_strict_total(&self, i: int, j: int, k: int) {
        self.listing().before_is_strict_total(i, j, k);
    }
}

impl<'a> Selection for VisitsOf<'a> {
    fn len(&self) -> (n: usize) {
        self.rows.len()
    }

    fn pick(&self, i: usize) -> (b: bool) {
        let ghost views = row_views(self.rows@);
        if !is_id(&self.rows[i].pet_id, self.pet_id) {
            return false;
        }
        match self.rows[i].visit_id {
            None => false,
            Some(id) => {
                let mut j: usize = 0;
                while j < i
                    invariant
                        j <= i < self.rows@.len(),
                        views == row_views(self.rows@),
                        views[i as int].visit_id == Some(id),
                        forall|m: int|
                            0 <= m < j ==> !((#[trigger] views[m]).pet_id == Some(self.pet_id)
                                && views[m].visit_id == Some(id)),
                    decreases i - j,
                {
                    if is_id(&self.rows[j].pet_id, self.pet_id) && is_id(
                        &self.rows[j].visit_id,
                        id,
                    ) {
                        assert(views[j as int].pet_id == Some(self.pet_id));
                        return false;
                    }
                    j = j + 1;
                }
                true
            },
        }
    }

    fn precedes(&self, i: usize, j: usize) -> (b: bool) {
        let a = &self.rows[i].visit_date;
        let b = &self.rows[j].visit_date;
        date_precedes(a, b) || (!date_precedes(b, a) && i < j)
    }
}

/// One owner of a search result, with the names of its pets joined into one
/// text.
pub struct OwnersWithPetNames {
    pub id: u32,
    pub first_name: Option<String>,
    pub last_name: Option<String>,
    pub address: Option<String>,
    pub city: Option<String>,
    pub telephone: Option<String>,
    pub pet_names: Option<String>,
}

/// The failure that reports that no owner bears `owner_id`.
pub open spec fn owner_not_found(owner_id: u32) -> AppErrorView {
    AppErrorView::ResourceNotFound { resource: "owner"@, id: owner_id }
}

impl OwnerService {
    /// The pattern that matches the last names that start with `last_name`.
    pub fn last_name_pattern(last_name: &str) -> (pattern: String)
        ensures
            pattern@ == last_name@ + "%"@,
    {
        String::from_str(last_name).concat("%")
    }

    /// Whether the first row of every pet bears the pet's type, as it must
    /// for the rows to be grouped.
    pub fn rows_have_types(rows: &Vec<OwnerWithPetsAndTypesAndVisitsQueryResult>) -> (r: bool)
        ensures
            r == pets_have_types(row_views(rows@)),
    {
        let ghost views = row_views(rows@);
        let selection = PetsOf { rows };
        let mut i: usize = 0;
        while i < rows.len()
            invariant
                i <= rows@.len(),
                views == row_views(rows@),
                selection.rows == rows,
                forall|k: int|
                    0 <= k < i && #[trigger] is_first_pet_row(views, k) ==> views[k].type_id is Some,
            decreases rows@.len() - i,
        {
            if rows[i].type_id.is_none() && selection.pick(i) {
                assert(is_first_pet_row(views, i as int));
                return false;
            }
            i = i + 1;
        }
        true
    }

    /// Answers a lookup by id with the owner that the query found, or with
    /// the failure that reports it missing.
    pub fn fetch_owner_by_id(found: Option<owners::Model>, owner_id: u32) -> (result: Result<
        owners::Model,
        AppError,
    >)
        ensures
            match found {
                Some(owner) => result == Ok::<owners::Model, AppError>(owner),
                None => result is Err && result->Err_0@ == owner_not_found(owner_id),
            },
    {
        match found {
            Some(owner) => Ok(owner),
            None => Err(AppError::ResourceNotFound { resource: String::from_str("owner"), id: owner_id }),
        }
    }

    /// Answers a lookup by id with the owner that the join rows describe, or
    /// with the failure that reports it missing where the join gave no row.
    pub fn fetch_owner_with_pets_and_types_and_visits_by_owner_id(
        rows: Vec<OwnerWithPetsAndTypesAndVisitsQueryResult>,
        owner_id: u32,
    ) -> (result: Result<OwnerWithPetsAndTypesAndVisits, AppError>)
        requires
            pets_have_types(row_views(rows@)),
        ensures
            rows@.len() == 0 ==> result is Err && result->Err_0@ == owner_not_found(owner_id),
            rows@.len() > 0 ==> result is Ok && is_owner_of(row_views(rows@), result->Ok_0@),
    {
        if rows.len() == 0 {
            return Err(
                AppError::ResourceNotFound { resource: String::from_str("owner"), id: owner_id },
            );
        }
        Ok(Self::transform_query_results(rows))
    }

    /// Builds the owner of a non-empty result with its pets and their
    /// visits.
    pub fn transform_query_results(rows: Vec<OwnerWithPetsAndTypesAndVisitsQueryResult>) -> (owner:
        OwnerWithPetsAndTypesAndVisits)
        requires
            rows@.len() > 0,
            pets_have_types(row_views(rows@)),
        ensures
            is_owner_of(row_views(rows@), owner@),
    {
        let pets_with_type = Self::group_pets_and_visits(&rows);
        let first_row = &rows[0];
        OwnerWithPetsAndTypesAndVisits {
            owner_id: first_row.owner_id,
            first_name: clone_text(&first_row.first_name),
            last_name: clone_text(&first_row.last_name),
            address: clone_text(&first_row.address),
            city: clone_text(&first_row.city),
            telephone: clone_text(&first_row.telephone),
            pets_with_type,
        }
    }

    /// Groups the rows by pet: one pet for each pet id, with the name, birth
    /// date and type of the first row that bears the id and with all visits
    /// of the pet, the pets in order of name.
    pub fn group_pets_and_visits(rows: &Vec<OwnerWithPetsAndTypesAndVisitsQueryResult>) -> (pets:
        Vec<PetWithTypeAndVisits>)
        requires
            pets_have_types(row_views(rows@)),
        ensures
            is_pets_of(row_views(rows@), pet_views(pets@)),
    {
        let ghost views = row_views(rows@);
        let selection = PetsOf { rows };
        let order = enumerate(&selection);
        proof {
            enumeration_carries_over(&selection, &PetListing { rows: views }, indices(order@));
        }
        let mut pets: Vec<PetWithTypeAndVisits> = Vec::new();
        let mut k: usize = 0;
        while k < order.len()
            invariant
                k <= order@.len(),
                views == row_views(rows@),
                pets_have_types(views),
                is_enumeration(&PetListing { rows: views }, indices(order@)),
                pets@.len() == k,
                forall|m: int|
                    0 <= m < k ==> is_pet_at(views, indices(order@)[m], #[trigger] pet_views(pets@)[m]),
            decreases order@.len() - k,
        {
            let first: usize = order[k];
            proof {
                assert(indices(order@)[k as int] == first);
                assert(PetListing { rows: views }.picks(first as int));
                assert(is_first_pet_row(views, first as int));
                assert(views[first as int].pet_id is Some);
                assert(views[first as int].type_id is Some);
            }
            let pet = Self::create_pet_with_type_and_visits(rows, first);
            let ghost before_push = pet_views(pets@);
            pets.push(pet);
            assert(pet_views(pets@) =~= before_push.push(pet@));
            k = k + 1;
        }
        pets
    }

    /// Builds the pet that row `first` describes, with all visits of that
    /// pet in order of date.
    pub fn create_pet_with_type_and_visits(
        rows: &Vec<OwnerWithPetsAndTypesAndVisitsQueryResult>,
        first: usize,
    ) -> (pet: PetWithTypeAndVisits)
        requires
            first < rows@.len(),
            rows@[first as int].pet_id is Some,
            rows@[first as int].type_id is Some,
        ensures
            is_pet_at(row_views(rows@), first as int, pet@),
    {
        let ghost views = row_views(rows@);
        let first_pet_row = &rows[first];
        let pet_id: u32 = first_pet_row.pet_id.unwrap();
        let selection = VisitsOf { rows, pet_id };
        let order = enumerate(&selection);
        proof {
            enumeration_carries_over(
                &selection,
                &VisitListing { rows: views, pet_id },
                indices(order@),
            );
        }
        let mut visits: Vec<Visit> = Vec::new();
        let mut k: usize = 0;
        while k < order.len()
            invariant
                k <= order@.len(),
                views == row_views(rows@),
                is_enumeration(&VisitListing { rows: views, pet_id }, indices(order@)),
                visits@.len() == k,
                forall|m: int|
                    0 <= m < k ==> #[trigger] visit_views(visits@)[m] == visit_at(
                        views,
                        indices(order@)[m],
                    ),
            decreases order@.len() - k,
        {
            let i: usize = order[k];
            proof {
                assert(indices(order@)[k as int] == i);
                assert(VisitListing { rows: views, pet_id }.picks(i as int));
            }
            let row = &rows[i];
            let visit = Visit {
                visit_id: row.visit_id.unwrap(),
                visit_date: row.visit_date,
                description: clone_text(&row.description),
            };
            let ghost before_push = visit_views(visits@);
            visits.push(visit);
            assert(visit_views(visits@) =~= before_push.push(visit@));
            k = k + 1;
        }
        assert(visit_views(visits@) =~= indices(order@).map_values(|i: int| visit_at(views, i)));
        PetWithTypeAndVisits {
            pet_id,
            pet_name: clone_text(&first_pet_row.pet_name),
            birth_date: first_pet_row.birth_date,
            pet_type: PetType {
                type_id: first_pet_row.type_id.unwrap(),
                pet_type_name: clone_text(&first_pet_row.pet_type_name),
            },
            visits,
        }
    }
}

} // verus!
