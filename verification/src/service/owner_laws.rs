//! What holds of every grouping of owner rows.

use crate::date::opt_date_lt;
use crate::ordering::enumeration_is_unique;
use crate::ordering::is_enumeration;
use crate::ordering::Listing;
use crate::service::owner_service::is_first_pet_row;
use crate::service::owner_service::is_owner_of;
use crate::service::owner_service::is_pet_at;
use crate::service::owner_service::is_pets_of;
use crate::service::owner_service::is_visits_of;
use crate::service::owner_service::visit_at;
use crate::service::owner_service::OwnerRow;
use crate::service::owner_service::OwnerView;
use crate::service::owner_service::PetListing;
use crate::service::owner_service::PetView;
use crate::service::owner_service::VisitListing;
use crate::service::owner_service::VisitView;
use crate::text::name_lt;
use vstd::prelude::*;

verus! {

/// The rows and the pet determine the list of its visits.
pub proof fn visits_are_determined(
    rows: Seq<OwnerRow>,
    pet_id: u32,
    a: Seq<VisitView>,
    b: Seq<VisitView>,
)
    requires
        is_visits_of(rows, pet_id, a),
        is_visits_of(rows, pet_id, b),
    ensures
        a == b,
{
    let listing = VisitListing { rows, pet_id };
    let oa = choose|order: Seq<int>|
        #[trigger] is_enumeration(&listing, order) && a == order.map_values(
            |i: int| visit_at(rows, i),
        );
    let ob = choose|order: Seq<int>|
        #[trigger] is_enumeration(&listing, order) && b == order.map_values(
            |i: int| visit_at(rows, i),
        );
    enumeration_is_unique(&listing, oa, ob);
}

/// The rows determine the list of pets.
pub proof fn pets_are_determined(rows: Seq<OwnerRow>, a: Seq<PetView>, b: Seq<PetView>)
    requires
        is_pets_of(rows, a),
        is_pets_of(rows, b),
    ensures
        a == b,
{
    let listing = PetListing { rows };
    let oa = choose|order: Seq<int>|
        #[trigger] is_enumeration(&listing, order) && a.len() == order.len() && forall|k: int|
            0 <= k < order.len() ==> is_pet_at(rows, order[k], #[trigger] a[k]);
    let ob = choose|order: Seq<int>|
        #[trigger] is_enumeration(&listing, order) && b.len() == order.len() && forall|k: int|
            0 <= k < order.len() ==> is_pet_at(rows, order[k], #[trigger] b[k]);
    enumeration_is_unique(&listing, oa, ob);
    assert forall|k: int| 0 <= k < a.len() implies a[k] == b[k] by {
        assert(is_pet_at(rows, oa[k], a[k]));
        assert(is_pet_at(rows, oa[k], b[k]));
        visits_are_determined(rows, a[k].pet_id, a[k].visits, b[k].visits);
    }
    assert(a =~= b);
}

/// The rows determine the owner built from them.
pub proof fn owner_is_determined(rows: Seq<OwnerRow>, a: OwnerView, b: OwnerView)
    requires
        is_owner_of(rows, a),
        is_owner_of(rows, b),
    ensures
        a == b,
{
    pets_are_determined(rows, a.pets_with_type, b.pets_with_type);
}

/// No two pets of a grouping bear the same id.
pub proof fn pet_ids_are_distinct(rows: Seq<OwnerRow>, pets: Seq<PetView>, k: int, l: int)
    requires
        is_pets_of(rows, pets),
        0 <= k < l < pets.len(),
    ensures
        pets[k].pet_id != pets[l].pet_id,
{
    let listing = PetListing { rows };
    let order = choose|order: Seq<int>|
        #[trigger] is_enumeration(&listing, order) && pets.len() == order.len() && forall|k: int|
            0 <= k < order.len() ==> is_pet_at(rows, order[k], #[trigger] pets[k]);
    assert(is_pet_at(rows, order[k], pets[k]));
    assert(is_pet_at(rows, order[l], pets[l]));
    assert(listing.before(order[k], order[l]));
    listing.before_is_strict_total(order[k], order[l], order[k]);
    assert(listing.picks(order[k]) && listing.picks(order[l]));
    if pets[k].pet_id == pets[l].pet_id {
        if order[k] < order[l] {
            assert(rows[order[k]].pet_id == rows[order[l]].pet_id);
        } else {
            assert(rows[order[l]].pet_id == rows[order[k]].pet_id);
        }
    }
}

/// Some row at or before `i` is the first to bear the pet id of row `i`.
proof fn first_pet_row_exists(rows: Seq<OwnerRow>, i: int) -> (f: int)
    requires
        0 <= i < rows.len(),
        rows[i].pet_id is Some,
    ensures
        0 <= f <= i,
        rows[f].pet_id == rows[i].pet_id,
        is_first_pet_row(rows, f),
    decreases i,
{
    if exists|j: int| 0 <= j < i && (#[trigger] rows[j]).pet_id == rows[i].pet_id {
        let j = choose|j: int| 0 <= j < i && (#[trigger] rows[j]).pet_id == rows[i].pet_id;
        first_pet_row_exists(rows, j)
    } else {
        i
    }
}

/// Every pet that a row bears is in the grouping.
pub proof fn every_pet_is_listed(rows: Seq<OwnerRow>, pets: Seq<PetView>, i: int)
    requires
        is_pets_of(rows, pets),
        0 <= i < rows.len(),
        rows[i].pet_id is Some,
    ensures
        exists|k: int| 0 <= k < pets.len() && Some((#[trigger] pets[k]).pet_id) == rows[i].pet_id,
{
    let listing = PetListing { rows };
    let order = choose|order: Seq<int>|
        #[trigger] is_enumeration(&listing, order) && pets.len() == order.len() && forall|k: int|
            0 <= k < order.len() ==> is_pet_at(rows, order[k], #[trigger] pets[k]);
    let f = first_pet_row_exists(rows, i);
    assert(listing.picks(f));
    assert(order.contains(f));
    let k = choose|k: int| 0 <= k < order.len() && order[k] == f;
    assert(is_pet_at(rows, order[k], pets[k]));
}

/// Every pet of the grouping is borne by a row, and has the name, birth
/// date and type of the first row that bears it.
pub proof fn every_listed_pet_has_a_first_row(rows: Seq<OwnerRow>, pets: Seq<PetView>, k: int)
    requires
        is_pets_of(rows, pets),
        0 <= k < pets.len(),
    ensures
        exists|i: int|
            0 <= i < rows.len() && #[trigger] is_first_pet_row(rows, i) && is_pet_at(
                rows,
                i,
                pets[k],
            ),
{
    let listing = PetListing { rows };
    let order = choose|order: Seq<int>|
        #[trigger] is_enumeration(&listing, order) && pets.len() == order.len() && forall|k: int|
            0 <= k < order.len() ==> is_pet_at(rows, order[k], #[trigger] pets[k]);
    assert(is_pet_at(rows, order[k], pets[k]));
    assert(listing.picks(order[k]));
}

/// The pets of a grouping stand in order of name.
pub proof fn pets_are_sorted_by_name(rows: Seq<OwnerRow>, pets: Seq<PetView>, k: int, l: int)
    requires
        is_pets_of(rows, pets),
        0 <= k < l < pets.len(),
    ensures
        name_lt(pets[k].pet_name, pets[l].pet_name) || pets[k].pet_name == pets[l].pet_name,
{
    let listing = PetListing { rows };
    let order = choose|order: Seq<int>|
        #[trigger] is_enumeration(&listing, order) && pets.len() == order.len() && forall|k: int|
            0 <= k < order.len() ==> is_pet_at(rows, order[k], #[trigger] pets[k]);
    assert(is_pet_at(rows, order[k], pets[k]));
    assert(is_pet_at(rows, order[l], pets[l]));
    assert(listing.before(order[k], order[l]));
}

/// The visits of a pet stand in order of date, and no two bear the same id.
pub proof fn visits_are_sorted_by_date(
    rows: Seq<OwnerRow>,
    pet_id: u32,
    visits: Seq<VisitView>,
    k: int,
    l: int,
)
    requires
        is_visits_of(rows, pet_id, visits),
        0 <= k < l < visits.len(),
    ensures
        opt_date_lt(visits[k].visit_date, visits[l].visit_date) || visits[k].visit_date
            == visits[l].visit_date,
        visits[k].visit_id != visits[l].visit_id,
{
    let listing = VisitListing { rows, pet_id };
    let order = choose|order: Seq<int>|
        #[trigger] is_enumeration(&listing, order) && visits == order.map_values(
            |i: int| visit_at(rows, i),
        );
    assert(listing.before(order[k], order[l]));
    listing.before_is_strict_total(order[k], order[l], order[k]);
    assert(listing.picks(order[k]) && listing.picks(order[l]));
    if visits[k].visit_id == visits[l].visit_id {
        if order[k] < order[l] {
            assert(rows[order[k]].visit_id == rows[order[l]].visit_id);
        } else {
            assert(rows[order[l]].visit_id == rows[order[k]].visit_id);
        }
    }
}

/// A pet none of whose rows bears a visit has no visits.
pub proof fn pet_without_visit_rows_has_no_visits(
    rows: Seq<OwnerRow>,
    pet_id: u32,
    visits: Seq<VisitView>,
)
    requires
        is_visits_of(rows, pet_id, visits),
        forall|i: int|
            0 <= i < rows.len() && (#[trigger] rows[i]).pet_id == Some(pet_id)
                ==> rows[i].visit_id is None,
    ensures
        visits.len() == 0,
{
    let listing = VisitListing { rows, pet_id };
    let order = choose|order: Seq<int>|
        #[trigger] is_enumeration(&listing, order) && visits == order.map_values(
            |i: int| visit_at(rows, i),
        );
    if order.len() > 0 {
        assert(listing.picks(order[0]));
    }
}

/// A result none of whose rows bears a pet gives no pets.
pub proof fn rows_without_pets_give_no_pets(rows: Seq<OwnerRow>, pets: Seq<PetView>)
    requires
        is_pets_of(rows, pets),
        forall|i: int| 0 <= i < rows.len() ==> (#[trigger] rows[i]).pet_id is None,
    ensures
        pets.len() == 0,
{
    let listing = PetListing { rows };
    let order = choose|order: Seq<int>|
        #[trigger] is_enumeration(&listing, order) && pets.len() == order.len() && forall|k: int|
            0 <= k < order.len() ==> is_pet_at(rows, order[k], #[trigger] pets[k]);
    if order.len() > 0 {
        assert(listing.picks(order[0]));
    }
}

} // verus!
