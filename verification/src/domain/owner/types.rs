//! The `types` table: the kinds of pet the clinic treats.

use crate::text::text_of;
use vstd::prelude::*;

verus! {

pub struct Model {
    pub id: u32,
    pub name: Option<String>,
}

/// A pet type as mathematical values.
pub struct ModelView {
    pub id: u32,
    pub name: Option<Seq<char>>,
}

impl View for Model {
    type V = ModelView;

    open spec fn view(&self) -> ModelView {
        ModelView { id: self.id, name: text_of(self.name) }
    }
}

} // verus!
