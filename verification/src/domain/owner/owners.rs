//! The `owners` table.

use crate::text::text_of;
use vstd::prelude::*;

verus! {

pub struct Model {
    pub id: u32,
    pub first_name: Option<String>,
    pub last_name: Option<String>,
    pub address: Option<String>,
    pub city: Option<String>,
    pub telephone: Option<String>,
}

/// An owner as mathematical values.
pub struct ModelView {
    pub id: u32,
    pub first_name: Option<Seq<char>>,
    pub last_name: Option<Seq<char>>,
    pub address: Option<Seq<char>>,
    pub city: Option<Seq<char>>,
    pub telephone: Option<Seq<char>>,
}

impl View for Model {
    type V = ModelView;

    open spec fn view(&self) -> ModelView {
        ModelView {
            id: self.id,
            first_name: text_of(self.first_name),
            last_name: text_of(self.last_name),
            address: text_of(self.address),
            city: text_of(self.city),
            telephone: text_of(self.telephone),
        }
    }
}

} // verus!
