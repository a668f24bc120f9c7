//! JSON documents, as far as translation files use them: objects and texts.

use vstd::prelude::*;

verus! {

/// A JSON value: an object with its members in the order in which they are
/// visited, a text, or anything else.
pub enum Json {
    Object(Vec<Member>),
    Text(String),
    Other,
}

/// A member of a JSON object.
pub struct Member {
    pub key: String,
    pub value: Json,
}

/// A JSON value as a mathematical value.
pub enum JsonView {
    Object(Seq<MemberView>),
    Text(Seq<char>),
    Other,
}

pub struct MemberView {
    pub key: Seq<char>,
    pub value: JsonView,
}

impl View for Json {
    type V = JsonView;

    open spec fn view(&self) -> JsonView
        decreases self,
    {
        match self {
            Json::Object(members) => JsonView::Object(
                Seq::new(
                    members@.len(),
                    |i: int|
                        if 0 <= i < members@.len() {
                            MemberView { key: members@[i].key@, value: members@[i].value.view() }
                        } else {
                            arbitrary()
                        },
                ),
            ),
            Json::Text(text) => JsonView::Text(text@),
            Json::Other => JsonView::Other,
        }
    }
}

impl View for Member {
    type V = MemberView;

    open spec fn view(&self) -> MemberView {
        MemberView { key: self.key@, value: self.value@ }
    }
}

} // verus!
