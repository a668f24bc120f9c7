//! What the vet pages show: the vets as the listing resource names them,
//! and the page of vets that a request asks for.

use crate::service::vet_service;
use crate::service::vet_service::SpecialtyView;
use crate::service::vet_service::VetView;
use crate::service::vet_service::VetWithSpecialties;
use crate::text::text_of;
use vstd::prelude::*;
use vstd::std_specs::convert::FromSpecImpl;

verus! {

/// A specialty as the listing resource names it.
pub struct Specialty {
    pub id: u32,
    pub name: Option<String>,
}

impl FromSpecImpl<vet_service::Specialty> for Specialty {
    open spec fn obeys_from_spec() -> bool {
        true
    }

    open spec fn from_spec(value: vet_service::Specialty) -> Specialty {
        Specialty { id: value.specialty_id, name: value.specialty_name }
    }
}

impl From<vet_service::Specialty> for Specialty {
    fn from(value: vet_service::Specialty) -> (specialty: Specialty) {
        Specialty { id: value.specialty_id, name: value.specialty_name }
    }
}

/// A vet as the listing resource names it. A vet without specialties is
/// listed without the element that holds them.
pub struct Vet {
    pub id: u32,
    pub first_name: Option<String>,
    pub last_name: Option<String>,
    pub specialties: Vec<Specialty>,
}

pub struct ListedSpecialty {
    pub id: u32,
    pub name: Option<Seq<char>>,
}

pub struct ListedVet {
    pub id: u32,
    pub first_name: Option<Seq<char>>,
    pub last_name: Option<Seq<char>>,
    pub specialties: Seq<ListedSpecialty>,
}

impl View for Specialty {
    type V = ListedSpecialty;

    open spec fn view(&self) -> ListedSpecialty {
        ListedSpecialty { id: self.id, name: text_of(self.name) }
    }
}

impl View for Vet {
    type V = ListedVet;

    open spec fn view(&self) -> ListedVet {
        ListedVet {
            id: self.id,
            first_name: text_of(self.first_name),
            last_name: text_of(self.last_name),
            specialties: self.specialties@.map_values(|s: Specialty| s@),
        }
    }
}

/// A specialty under the names of the listing.
pub open spec fn listed_specialty(specialty: SpecialtyView) -> ListedSpecialty {
    ListedSpecialty { id: specialty.specialty_id, name: specialty.specialty_name }
}

/// A vet under the names of the listing, its specialties in order.
pub open spec fn listed_vet(vet: VetView) -> ListedVet {
    ListedVet {
        id: vet.vet_id,
        first_name: vet.first_name,
        last_name: vet.last_name,
        specialties: vet.specialties.map_values(|s: SpecialtyView| listed_specialty(s)),
    }
}

/// What `from` gives of a vet is stated on `from` itself, over the views of
/// the two.
impl FromSpecImpl<VetWithSpecialties> for Vet {
    open spec fn obeys_from_spec() -> bool {
        false
    }

    open spec fn from_spec(value: VetWithSpecialties) -> Vet {
        arbitrary()
    }
}

impl From<VetWithSpecialties> for Vet {
    fn from(value: VetWithSpecialties) -> (vet: Vet)
        ensures
            vet@ == listed_vet(value@),
    {
        let ghost given = value@;
        let VetWithSpecialties { vet_id, first_name, last_name, specialties: given_specialties } = value;
        let mut given_specialties = given_specialties;
        let mut specialties: Vec<Specialty> = Vec::new();
        let ghost all = given_specialties@.map_values(|s: vet_service::Specialty| s@);
        assert(all == given.specialties);
        let ghost n = given_specialties@.len();
        while given_specialties.len() > 0
            invariant
                n == all.len(),
                given_specialties@.len() <= n,
                specialties@.len() == n - given_specialties@.len(),
                forall|k: int|
                    0 <= k < given_specialties@.len() ==> (#[trigger] given_specialties@[k])@
                        == all[specialties@.len() + k],
                forall|k: int|
                    0 <= k < specialties@.len() ==> (#[trigger] specialties@[k])@ == listed_specialty(
                        all[k],
                    ),
            decreases given_specialties@.len(),
        {
            let specialty = given_specialties.remove(0);
            specialties.push(Specialty::from(specialty));
        }
        let vet = Vet { id: vet_id, first_name, last_name, specialties };
        assert(vet@.specialties =~= listed_vet(given).specialties);
        vet
    }
}

/// The body of the listing resource: all vets.
pub struct ShowResourcesVetListResponse {
    pub vet_list: Vec<Vet>,
}

/// The vets of a list as mathematical values.
pub open spec fn listed_views(vets: Seq<Vet>) -> Seq<ListedVet> {
    vets.map_values(|v: Vet| v@)
}

/// Lists the vets under the names of the listing resource, in their order.
pub fn show_resources_vet_list(vet_list: Vec<VetWithSpecialties>) -> (response:
    ShowResourcesVetListResponse)
    ensures
        listed_views(response.vet_list@) == vet_service::vet_views(vet_list@).map_values(
            |v: VetView| listed_vet(v),
        ),
{
    let ghost all = vet_service::vet_views(vet_list@);
    let ghost n = vet_list@.len();
    let mut given = vet_list;
    let mut listed: Vec<Vet> = Vec::new();
    while given.len() > 0
        invariant
            n == all.len(),
            given@.len() <= n,
            listed@.len() == n - given@.len(),
            forall|k: int| 0 <= k < given@.len() ==> (#[trigger] given@[k])@ == all[listed@.len() + k],
            forall|k: int| 0 <= k < listed@.len() ==> (#[trigger] listed@[k])@ == listed_vet(all[k]),
        decreases given@.len(),
    {
        let vet = given.remove(0);
        listed.push(Vet::from(vet));
    }
    let response = ShowResourcesVetListResponse { vet_list: listed };
    assert(listed_views(response.vet_list@) =~= all.map_values(|v: VetView| listed_vet(v)));
    response
}

/// The parameters of the page of vets, as the request gives them.
pub struct ShowVetListQuery {
    pub page: Option<u64>,
    pub size: Option<u64>,
}

impl ShowVetListQuery {
    /// The page to show: the first, unless the request says otherwise.
    pub fn cur_page(&self) -> (page: u64)
        ensures
            page == match self.page {
                Some(p) => p,
                None => 1,
            },
    {
        match self.page {
            Some(p) => p,
            None => 1,
        }
    }

    /// The number of vets on a page: five, unless the request says
    /// otherwise.
    pub fn page_size(&self) -> (size: u64)
        ensures
            size == match self.size {
                Some(s) => s,
                None => 5,
            },
    {
        match self.size {
            Some(s) => s,
            None => 5,
        }
    }
}

/// Whether there are vets to fetch for the page.
pub fn has_vets(vet_total_count: u64) -> (r: bool)
    ensures
        r == (vet_total_count > 0),
{
    vet_total_count > 0
}

} // verus!
