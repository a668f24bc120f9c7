//! Veterinarians with their specialties, rebuilt from the rows of a left
//! join across vet and specialty.

use crate::ordering::enumerate;
use crate::ordering::enumeration_carries_over;
use crate::ordering::enumeration_is_unique;
use crate::ordering::indices;
use crate::ordering::is_enumeration;
use crate::ordering::Listing;
use crate::ordering::Selection;
use crate::text::clone_text;
use crate::text::text_of;
use vstd::prelude::*;

verus! {

pub struct VetService;

/// One row of the join: the vet's columns, then those of one of its
/// specialties, empty where the vet has none.
pub struct VetWithSpecialtiesQueryResult {
    pub vet_id: u32,
    pub first_name: Option<String>,
    pub last_name: Option<String>,
    pub specialty_id: Option<u32>,
    pub specialty_name: Option<String>,
}

/// A join row as mathematical values.
pub struct VetRow {
    pub vet_id: u32,
    pub first_name: Option<Seq<char>>,
    pub last_name: Option<Seq<char>>,
    pub specialty_id: Option<u32>,
    pub specialty_name: Option<Seq<char>>,
}

impl View for VetWithSpecialtiesQueryResult {
    type V = VetRow;

    open spec fn view(&self) -> VetRow {
        VetRow {
            vet_id: self.vet_id,
            first_name: text_of(self.first_name),
            last_name: text_of(self.last_name),
            specialty_id: self.specialty_id,
            specialty_name: text_of(self.specialty_name),
        }
    }
}

/// The rows of a result as mathematical values.
pub open spec fn row_views(rows: Seq<VetWithSpecialtiesQueryResult>) -> Seq<VetRow> {
    rows.map_values(|r: VetWithSpecialtiesQueryResult| r@)
}

pub struct Specialty {
    pub specialty_id: u32,
    pub specialty_name: Option<String>,
}

pub struct SpecialtyView {
    pub specialty_id: u32,
    pub specialty_name: Option<Seq<char>>,
}

impl View for Specialty {
    type V = SpecialtyView;

    open spec fn view(&self) -> SpecialtyView {
        SpecialtyView {
            specialty_id: self.specialty_id,
            specialty_name: text_of(self.specialty_name),
        }
    }
}

/// The specialties of a list as mathematical values.
pub open spec fn specialty_views(specialties: Seq<Specialty>) -> Seq<SpecialtyView> {
    specialties.map_values(|s: Specialty| s@)
}

pub struct VetWithSpecialties {
    pub vet_id: u32,
    pub first_name: Option<String>,
    pub last_name: Option<String>,
    pub specialties: Vec<Specialty>,
}

pub struct VetView {
    pub vet_id: u32,
    pub first_name: Option<Seq<char>>,
    pub last_name: Option<Seq<char>>,
    pub specialties: Seq<SpecialtyView>,
}

impl View for VetWithSpecialties {
    type V = VetView;

    open spec fn view(&self) -> VetView {
        VetView {
            vet_id: self.vet_id,
            first_name: text_of(self.first_name),
            last_name: text_of(self.last_name),
            specialties: specialty_views(self.specialties@),
        }
    }
}

/// The vets of a list as mathematical values.
pub open spec fn vet_views(vets: Seq<VetWithSpecialties>) -> Seq<VetView> {
    vets.map_values(|v: VetWithSpecialties| v@)
}

/// Row `i` is the first row of its vet.
pub open spec fn is_first_vet_row(rows: Seq<VetRow>, i: int) -> bool {
    forall|j: int| 0 <= j < i ==> (#[trigger] rows[j]).vet_id != rows[i].vet_id
}

/// The vet of row `i` is listed ahead of that of row `j`: by ascending id.
pub open spec fn vet_row_before(rows: Seq<VetRow>, i: int, j: int) -> bool {
    rows[i].vet_id < rows[j].vet_id || (rows[i].vet_id == rows[j].vet_id && i < j)
}

/// The vets of a result: one for each vet id, taken from the first row that
/// bears it, in ascending order of id.
pub struct VetListing {
    pub rows: Seq<VetRow>,
}

impl Listing for VetListing {
    open spec fn count(&self) -> int {
        self.rows.len() as int
    }

    open spec fn picks(&self, i: int) -> bool {
        is_first_vet_row(self.rows, i)
    }

    open spec fn before(&self, i: int, j: int) -> bool {
        vet_row_before(self.rows, i, j)
    }

    proof fn before_is_strict_total(&self, i: int, j: int, k: int) {
    }
}

/// Row `i` is the first row of its specialty among the rows of vet
/// `vet_id`.
pub open spec fn is_first_specialty_row(rows: Seq<VetRow>, vet_id: u32, i: int) -> bool {
    &&& rows[i].vet_id == vet_id
    &&& rows[i].specialty_id is Some
    &&& forall|j: int|
        0 <= j < i ==> !((#[trigger] rows[j]).vet_id == vet_id && rows[j].specialty_id
            == rows[i].specialty_id)
}

/// The specialties of one vet: one for each specialty id, taken from the
/// first row that bears it, in the order of the rows.
pub struct SpecialtyListing {
    pub rows: Seq<VetRow>,
    pub vet_id: u32,
}

impl Listing for SpecialtyListing {
    open spec fn count(&self) -> int {
        self.rows.len() as int
    }

    open spec fn picks(&self, i: int) -> bool {
        is_first_specialty_row(self.rows, self.vet_id, i)
    }

    open spec fn before(&self, i: int, j: int) -> bool {
        i < j
    }

    proof fn before_is_strict_total(&self, i: int, j: int, k: int) {
    }
}

/// The specialty that row `i` describes.
pub open spec fn specialty_at(rows: Seq<VetRow>, i: int) -> SpecialtyView {
    SpecialtyView {
        specialty_id: rows[i].specialty_id.unwrap(),
        specialty_name: rows[i].specialty_name,
    }
}

/// `specialties` are the specialties of vet `vet_id`, in order.
pub open spec fn is_specialties_of(
    rows: Seq<VetRow>,
    vet_id: u32,
    specialties: Seq<SpecialtyView>,
) -> bool {
    exists|order: Seq<int>|
        #[trigger] is_enumeration(&SpecialtyListing { rows, vet_id }, order) && specialties
            == order.map_values(|i: int| specialty_at(rows, i))
}

/// `vet` is the vet that row `i` describes, with all its specialties.
pub open spec fn is_vet_at(rows: Seq<VetRow>, i: int, vet: VetView) -> bool {
    &&& vet.vet_id == rows[i].vet_id
    &&& vet.first_name == rows[i].first_name
    &&& vet.last_name == rows[i].last_name
    &&& is_specialties_of(rows, vet.vet_id, vet.specialties)
}

/// `vets` are the vets of the result, in order.
pub open spec fn is_vets_of(rows: Seq<VetRow>, vets: Seq<VetView>) -> bool {
    exists|order: Seq<int>|
        #[trigger] is_enumeration(&VetListing { rows }, order) && vets.len() == order.len()
            && forall|k: int| 0 <= k < order.len() ==> is_vet_at(rows, order[k], #[trigger] vets[k])
}

/// The rows and the vet determine the list of its specialties.
pub proof fn specialties_are_determined(
    rows: Seq<VetRow>,
    vet_id: u32,
    a: Seq<SpecialtyView>,
    b: Seq<SpecialtyView>,
)
    requires
        is_specialties_of(rows, vet_id, a),
        is_specialties_of(rows, vet_id, b),
    ensures
        a == b,
{
    let listing = SpecialtyListing { rows, vet_id };
    let oa = choose|order: Seq<int>|
        #[trigger] is_enumeration(&listing, order) && a == order.map_values(
            |i: int| specialty_at(rows, i),
        );
    let ob = choose|order: Seq<int>|
        #[trigger] is_enumeration(&listing, order) && b == order.map_values(
            |i: int| specialty_at(rows, i),
        );
    enumeration_is_unique(&listing, oa, ob);
}

/// The rows determine the list of vets.
pub proof fn vets_are_determined(rows: Seq<VetRow>, a: Seq<VetView>, b: Seq<VetView>)
    requires
        is_vets_of(rows, a),
        is_vets_of(rows, b),
    ensures
        a == b,
{
    let listing = VetListing { rows };
    let oa = choose|order: Seq<int>|
        #[trigger] is_enumeration(&listing, order) && a.len() == order.len() && forall|k: int|
            0 <= k < order.len() ==> is_vet_at(rows, order[k], #[trigger] a[k]);
    let ob = choose|order: Seq<int>|
        #[trigger] is_enumeration(&listing, order) && b.len() == order.len() && forall|k: int|
            0 <= k < order.len() ==> is_vet_at(rows, order[k], #[trigger] b[k]);
    enumeration_is_unique(&listing, oa, ob);
    assert forall|k: int| 0 <= k < a.len() implies a[k] == b[k] by {
        assert(is_vet_at(rows, oa[k], a[k]));
        assert(is_vet_at(rows, oa[k], b[k]));
        specialties_are_determined(rows, a[k].vet_id, a[k].specialties, b[k].specialties);
    }
    assert(a =~= b);
}

/// The vets of a grouping stand in strictly ascending order of id.
pub proof fn vets_ascend_by_id(rows: Seq<VetRow>, vets: Seq<VetView>, k: int, l: int)
    requires
        is_vets_of(rows, vets),
        0 <= k < l < vets.len(),
    ensures
        vets[k].vet_id < vets[l].vet_id,
{
    let listing = VetListing { rows };
    let order = choose|order: Seq<int>|
        #[trigger] is_enumeration(&listing, order) && vets.len() == order.len() && forall|k: int|
            0 <= k < order.len() ==> is_vet_at(rows, order[k], #[trigger] vets[k]);
    assert(is_vet_at(rows, order[k], vets[k]));
    assert(is_vet_at(rows, order[l], vets[l]));
    assert(listing.before(order[k], order[l]));
    assert(listing.picks(order[k]) && listing.picks(order[l]));
    if vets[k].vet_id == vets[l].vet_id {
        assert(rows[order[k]].vet_id == rows[order[l]].vet_id);
    }
}

/// A vet none of whose rows bears a specialty has no specialties.
pub proof fn vet_without_specialty_rows_has_none(
    rows: Seq<VetRow>,
    vet_id: u32,
    specialties: Seq<SpecialtyView>,
)
    requires
        is_specialties_of(rows, vet_id, specialties),
        forall|i: int|
            0 <= i < rows.len() && (#[trigger] rows[i]).vet_id == vet_id
                ==> rows[i].specialty_id is None,
    ensures
        specialties.len() == 0,
{
    let listing = SpecialtyListing { rows, vet_id };
    let order = choose|order: Seq<int>|
        #[trigger] is_enumeration(&listing, order) && specialties == order.map_values(
            |i: int| specialty_at(rows, i),
        );
    if order.len() > 0 {
        assert(listing.picks(order[0]));
    }
}

/// Whether an optional id is the given one.
fn is_id(o: &Option<u32>, id: u32) -> (r: bool)
    ensures
        r == (*o == Some(id)),
{
    match o {
        Some(x) => *x == id,
        None => false,
    }
}

/// The vet listing of the rows at hand.
struct VetsOf<'a> {
    rows: &'a Vec<VetWithSpecialtiesQueryResult>,
}

impl<'a> VetsOf<'a> {
    spec fn listing(&self) -> VetListing {
        VetListing { rows: row_views(self.rows@) }
    }
}

impl<'a> Listing for VetsOf<'a> {
    closed spec fn count(&self) -> int {
        self.listing().count()
    }

    closed spec fn picks(&self, i: int) -> bool {
        self.listing().picks(i)
    }

    closed spec fn before(&self, i: int, j: int) -> bool {
        self.listing().before(i, j)
    }

    proof fn before_is_strict_total(&self, i: int, j: int, k: int) {
        self.listing().before_is_strict_total(i, j, k);
    }
}

impl<'a> Selection for VetsOf<'a> {
    fn len(&self) -> (n: usize) {
        self.rows.len()
    }

    fn pick(&self, i: usize) -> (b: bool) {
        let ghost views = row_views(self.rows@);
        let id: u32 = self.rows[i].vet_id;
        let mut j: usize = 0;
        while j < i
            invariant
                j <= i < self.rows@.len(),
                views == row_views(self.rows@),
                views[i as int].vet_id == id,
                forall|m: int| 0 <= m < j ==> (#[trigger] views[m]).vet_id != id,
            decreases i - j,
        {
            if self.rows[j].vet_id == id {
                assert(views[j as int].vet_id == id);
                return false;
            }
            j = j + 1;
        }
        true
    }

    fn precedes(&self, i: usize, j: usize) -> (b: bool) {
        let a: u32 = self.rows[i].vet_id;
        let b: u32 = self.rows[j].vet_id;
        a < b || (a == b && i < j)
    }
}

/// The specialty listing of one vet in the rows at hand.
struct SpecialtiesOf<'a> {
    rows: &'a Vec<VetWithSpecialtiesQueryResult>,
    vet_id: u32,
}

impl<'a> SpecialtiesOf<'a> {
    spec fn listing(&self) -> SpecialtyListing {
        SpecialtyListing { rows: row_views(self.rows@), vet_id: self.vet_id }
    }
}

impl<'a> Listing for SpecialtiesOf<'a> {
    closed spec fn count(&self) -> int {
        self.listing().count()
    }

    closed spec fn picks(&self, i: int) -> bool {
        self.listing().picks(i)
    }

    closed spec fn before(&self, i: int, j: int) -> bool {
        self.listing().before(i, j)
    }

    proof fn before_is_strict_total(&self, i: int, j: int, k: int) {
        self.listing().before_is_strict_total(i, j, k);
    }
}

impl<'a> Selection for SpecialtiesOf<'a> {
    fn len(&self) -> (n: usize) {
        self.rows.len()
    }

    fn pick(&self, i: usize) -> (b: bool) {
        let ghost views = row_views(self.rows@);
        if self.rows[i].vet_id != self.vet_id {
            return false;
        }
        match self.rows[i].specialty_id {
            None => false,
            Some(id) => {
                let mut j: usize = 0;
                while j < i
                    invariant
                        j <= i < self.rows@.len(),
                        views == row_views(self.rows@),
                        views[i as int].specialty_id == Some(id),
                        forall|m: int|
                            0 <= m < j ==> !((#[trigger] views[m]).vet_id == self.vet_id
                                && views[m].specialty_id == Some(id)),
                    decreases i - j,
                {
                    if self.rows[j].vet_id == self.vet_id && is_id(&self.rows[j].specialty_id, id) {
                        assert(views[j as int].vet_id == self.vet_id);
                        return false;
                    }
                    j = j + 1;
                }
                true
            },
        }
    }

    fn precedes(&self, i: usize, j: usize) -> (b: bool) {
        i < j
    }
}

impl VetService {
    /// Groups the rows by vet: one vet for each vet id, with the names of
    /// the first row that bears the id and with its specialties in the order
    /// of the rows, the vets in ascending order of id.
    pub fn group_vets_by_id(vets_with_specialties: Vec<VetWithSpecialtiesQueryResult>) -> (vets:
        Vec<VetWithSpecialties>)
        ensures
            is_vets_of(row_views(vets_with_specialties@), vet_views(vets@)),
    {
        let rows = &vets_with_specialties;
        let ghost views = row_views(rows@);
        let selection = VetsOf { rows };
        let order = enumerate(&selection);
        proof {
            enumeration_carries_over(&selection, &VetListing { rows: views }, indices(order@));
        }
        let mut vets: Vec<VetWithSpecialties> = Vec::new();
        let mut k: usize = 0;
        while k < order.len()
            invariant
                k <= order@.len(),
                views == row_views(rows@),
                is_enumeration(&VetListing { rows: views }, indices(order@)),
                vets@.len() == k,
                forall|m: int|
                    0 <= m < k ==> is_vet_at(views, indices(order@)[m], #[trigger] vet_views(vets@)[m]),
            decreases order@.len() - k,
        {
            let first: usize = order[k];
            assert(indices(order@)[k as int] == first);
            let row = &rows[first];
            let specialties = Self::specialties_of_vet(rows, row.vet_id);
            let vet = VetWithSpecialties {
                vet_id: row.vet_id,
                first_name: clone_text(&row.first_name),
                last_name: clone_text(&row.last_name),
                specialties,
            };
            let ghost before_push = vet_views(vets@);
            vets.push(vet);
            assert(vet_views(vets@) =~= before_push.push(vet@));
            k = k + 1;
        }
        vets
    }

    /// Collects the specialties of one vet in the order of the rows.
    pub fn specialties_of_vet(rows: &Vec<VetWithSpecialtiesQueryResult>, vet_id: u32) -> (specialties:
        Vec<Specialty>)
        ensures
            is_specialties_of(row_views(rows@), vet_id, specialty_views(specialties@)),
    {
        let ghost views = row_views(rows@);
        let selection = SpecialtiesOf { rows, vet_id };
        let order = enumerate(&selection);
        proof {
            enumeration_carries_over(
                &selection,
                &SpecialtyListing { rows: views, vet_id },
                indices(order@),
            );
        }
        let mut specialties: Vec<Specialty> = Vec::new();
        let mut k: usize = 0;
        while k < order.len()
            invariant
                k <= order@.len(),
                views == row_views(rows@),
                is_enumeration(&SpecialtyListing { rows: views, vet_id }, indices(order@)),
                specialties@.len() == k,
                forall|m: int|
                    0 <= m < k ==> #[trigger] specialty_views(specialties@)[m] == specialty_at(
                        views,
                        indices(order@)[m],
                    ),
            decreases order@.len() - k,
        {
            let i: usize = order[k];
            proof {
                assert(indices(order@)[k as int] == i);
                assert(SpecialtyListing { rows: views, vet_id }.picks(i as int));
            }
            let row = &rows[i];
            let specialty = Specialty {
                specialty_id: row.specialty_id.unwrap(),
                specialty_name: clone_text(&row.specialty_name),
            };
            let ghost before_push = specialty_views(specialties@);
            specialties.push(specialty);
            assert(specialty_views(specialties@) =~= before_push.push(specialty@));
            k = k + 1;
        }
        assert(specialty_views(specialties@) =~= indices(order@).map_values(
            |i: int| specialty_at(views, i),
        ));
        specialties
    }
}

} // verus!
