use crate::text::option_text;
use vstd::prelude::*;

verus! {

/// The changes to make to a resourcelink.
#[derive(Clone, Debug, PartialEq, Eq)]
pub struct Modifier {
    pub name: Option<String>,
    pub description: Option<String>,
    pub class_id: Option<u16>,
}

/// What a change of a resourcelink holds, as plain values.
pub struct ModifierView {
    pub name: Option<Seq<char>>,
    pub description: Option<Seq<char>>,
    pub class_id: Option<u16>,
}

impl View for Modifier {
    type V = ModifierView;

    open spec fn view(&self) -> ModifierView {
        ModifierView {
            name: option_text(self.name),
            description: option_text(self.description),
            class_id: self.class_id,
        }
    }
}

impl Modifier {
    /// Whether no field is set: applying the record changes nothing.
    pub open spec fn is_unset(&self) -> bool {
        &&& self.name is None
        &&& self.description is None
        &&& self.class_id is None
    }

    /// A record with no field set.
    pub fn new() -> (r: Self)
        ensures
            r.is_unset(),
    {
        Self { name: None, description: None, class_id: None }
    }

    /// Whether no field is set.
    pub fn is_empty(&self) -> (r: bool)
        ensures
            r == self.is_unset(),
    {
        self.name.is_none()
            && self.description.is_none()
            && self.class_id.is_none()
    }

    /// Renames the resourcelink.
    pub fn name(self, value: &str) -> (r: Self)
        ensures
            r@ == (ModifierView { name: Some(value@), ..self@ }),
            !r.is_unset(),
    {
        Self { name: Some(value.to_owned()), ..self }
    }

    /// Sets the description.
    pub fn description(self, value: &str) -> (r: Self)
        ensures
            r@ == (ModifierView { description: Some(value@), ..self@ }),
            !r.is_unset(),
    {
        Self { description: Some(value.to_owned()), ..self }
    }

    /// Sets the class of the resourcelink.
    pub fn class_id(self, value: u16) -> (r: Self)
        ensures
            r@ == (ModifierView { class_id: Some(value), ..self@ }),
            !r.is_unset(),
    {
        Self { class_id: Some(value), ..self }
    }
}

/// What a new resourcelink is made of.
#[derive(Clone, Debug, PartialEq, Eq)]
pub struct Creator {
    pub name: String,
    pub class_id: u16,
    pub description: Option<String>,
    pub owner: Option<String>,
    pub recycle: Option<bool>,
}

/// What the description of a new resourcelink holds, as plain values.
pub struct CreatorView {
    pub name: Seq<char>,
    pub class_id: u16,
    pub description: Option<Seq<char>>,
    pub owner: Option<Seq<char>>,
    pub recycle: Option<bool>,
}

impl View for Creator {
    type V = CreatorView;

    open spec fn view(&self) -> CreatorView {
        CreatorView {
            name: self.name@,
            class_id: self.class_id,
            description: option_text(self.description),
            owner: option_text(self.owner),
            recycle: self.recycle,
        }
    }
}

impl Creator {
    /// A resourcelink with a name and a class.
    pub fn new(name: &str, class_id: u16) -> (r: Self)
        ensures
            r@ == (CreatorView {
                name: name@,
                class_id: class_id,
                description: None,
                owner: None,
                recycle: None,
            }),
    {
        Self { name: name.to_owned(), class_id, description: None, owner: None, recycle: None }
    }

    /// Sets the description.
    pub fn description(self, value: &str) -> (r: Self)
        ensures
            r@ == (CreatorView { description: Some(value@), ..self@ }),
    {
        Self { description: Some(value.to_owned()), ..self }
    }

    /// Sets the owner.
    pub fn owner(self, value: &str) -> (r: Self)
        ensures
            r@ == (CreatorView { owner: Some(value@), ..self@ }),
    {
        Self { owner: Some(value.to_owned()), ..self }
    }

    /// Sets whether the resourcelink is removed once nothing refers to it.
    pub fn recycle(self, value: bool) -> (r: Self)
        ensures
            r@ == (CreatorView { recycle: Some(value), ..self@ }),
    {
        Self { recycle: Some(value), ..self }
    }
}

} // verus!
