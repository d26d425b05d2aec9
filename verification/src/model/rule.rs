use crate::text::option_text;
use vstd::prelude::*;

verus! {

/// The changes to make to a rule.
#[derive(Clone, Debug, PartialEq, Eq)]
pub struct Modifier {
    pub name: Option<String>,
}

/// What a change of a rule holds, as plain values.
pub struct ModifierView {
    pub name: Option<Seq<char>>,
}

impl View for Modifier {
    type V = ModifierView;

    open spec fn view(&self) -> ModifierView {
        ModifierView {
            name: option_text(self.name),
        }
    }
}

impl Modifier {
    /// Whether no field is set: applying the record changes nothing.
    pub open spec fn is_unset(&self) -> bool {
        &&& self.name is None
    }

    /// A record with no field set.
    pub fn new() -> (r: Self)
        ensures
            r.is_unset(),
    {
        Self { name: None }
    }

    /// Whether no field is set.
    pub fn is_empty(&self) -> (r: bool)
        ensures
            r == self.is_unset(),
    {
        self.name.is_none()
    }

    /// Renames the rule.
    pub fn name(self, value: &str) -> (r: Self)
        ensures
            r@ == (ModifierView { name: Some(value@), ..self@ }),
            !r.is_unset(),
    {
        Self { name: Some(value.to_owned()), ..self }
    }
}

/// What a new rule is made of: its name, with no condition and no action yet.
#[derive(Clone, Debug, PartialEq, Eq)]
pub struct Creator {
    pub name: String,
}

/// What the description of a new rule holds, as plain values.
pub struct CreatorView {
    pub name: Seq<char>,
}

impl View for Creator {
    type V = CreatorView;

    open spec fn view(&self) -> CreatorView {
        CreatorView {
            name: self.name@,
        }
    }
}

impl Creator {
    /// A rule with a name.
    pub fn new(name: &str) -> (r: Self)
        ensures
            r@ == (CreatorView {
                name: name@,
            }),
    {
        Self { name: name.to_owned() }
    }
}

} // verus!
