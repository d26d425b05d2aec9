pub use crate::model::light::StateModifier;
use crate::text::{option_text, option_texts, texts};
use vstd::prelude::*;

verus! {

/// The kinds of group that can be created.
#[derive(Clone, Copy, Debug, PartialEq, Eq, Structural)]
pub enum CreatableKind {
    LightGroup,
    Room,
    Entertainment,
    Zone,
}

/// The class of a room.
#[derive(Clone, Copy, Debug, PartialEq, Eq, Structural)]
pub enum Class {
    Attic,
    Balcony,
    Barbecue,
    Bathroom,
    Bedroom,
    Carport,
    Closet,
    Computer,
    Dining,
    Downstairs,
    Driveway,
    FrontDoor,
    Garage,
    Garden,
    GuestRoom,
    Gym,
    Hallway,
    Home,
    KidsBedroom,
    Kitchen,
    LaundryRoom,
    LivingRoom,
    Lounge,
    ManCave,
    Music,
    Nursery,
    Office,
    Other,
    Pool,
    Porch,
    Reading,
    Recreation,
    Staircase,
    Storage,
    Studio,
    TV,
    Terrace,
    Toilet,
    TopFloor,
    Upstairs,
}

/// The changes to make to the attributes of a group.
#[derive(Clone, Debug, PartialEq, Eq)]
pub struct AttributeModifier {
    pub name: Option<String>,
    pub lights: Option<Vec<String>>,
    pub class: Option<Class>,
}

/// What a change of the attributes of a group holds, as plain values.
pub struct AttributeModifierView {
    pub name: Option<Seq<char>>,
    pub lights: Option<Seq<Seq<char>>>,
    pub class: Option<Class>,
}

impl View for AttributeModifier {
    type V = AttributeModifierView;

    open spec fn view(&self) -> AttributeModifierView {
        AttributeModifierView {
            name: option_text(self.name),
            lights: option_texts(self.lights),
            class: self.class,
        }
    }
}

impl AttributeModifier {
    /// Whether no field is set: applying the record changes nothing.
    pub open spec fn is_unset(&self) -> bool {
        &&& self.name is None
        &&& self.lights is None
        &&& self.class is None
    }

    /// A record with no field set.
    pub fn new() -> (r: Self)
        ensures
            r.is_unset(),
    {
        Self { name: None, lights: None, class: None }
    }

    /// Whether no field is set.
    pub fn is_empty(&self) -> (r: bool)
        ensures
            r == self.is_unset(),
    {
        self.name.is_none()
            && self.lights.is_none()
            && self.class.is_none()
    }

    /// Renames the group.
    pub fn name(self, value: &str) -> (r: Self)
        ensures
            r@ == (AttributeModifierView { name: Some(value@), ..self@ }),
            !r.is_unset(),
    {
        Self { name: Some(value.to_owned()), ..self }
    }

    /// Sets the lights that are in the group.
    pub fn lights(self, value: Vec<String>) -> (r: Self)
        ensures
            r@ == (AttributeModifierView { lights: Some(texts(value)), ..self@ }),
            !r.is_unset(),
    {
        Self { lights: Some(value), ..self }
    }

    /// Sets the class of the group.
    pub fn class(self, value: Class) -> (r: Self)
        ensures
            r@ == (AttributeModifierView { class: Some(value), ..self@ }),
            !r.is_unset(),
    {
        Self { class: Some(value), ..self }
    }
}

/// What a new group is made of.
#[derive(Clone, Debug, PartialEq, Eq)]
pub struct Creator {
    pub name: String,
    pub lights: Vec<String>,
    pub kind: Option<CreatableKind>,
    pub class: Option<Class>,
}

/// What the description of a new group holds, as plain values.
pub struct CreatorView {
    pub name: Seq<char>,
    pub lights: Seq<Seq<char>>,
    pub kind: Option<CreatableKind>,
    pub class: Option<Class>,
}

impl View for Creator {
    type V = CreatorView;

    open spec fn view(&self) -> CreatorView {
        CreatorView {
            name: self.name@,
            lights: texts(self.lights),
            kind: self.kind,
            class: self.class,
        }
    }
}

impl Creator {
    /// A group with a name and the lights in it.
    pub fn new(name: &str, lights: Vec<String>) -> (r: Self)
        ensures
            r@ == (CreatorView {
                name: name@,
                lights: texts(lights),
                kind: None,
                class: None,
            }),
    {
        Self { name: name.to_owned(), lights, kind: None, class: None }
    }

    /// Sets the kind of the group.
    pub fn kind(self, value: CreatableKind) -> (r: Self)
        ensures
            r@ == (CreatorView { kind: Some(value), ..self@ }),
    {
        Self { kind: Some(value), ..self }
    }

    /// Sets the class of the group.
    pub fn class(self, value: Class) -> (r: Self)
        ensures
            r@ == (CreatorView { class: Some(value), ..self@ }),
    {
        Self { class: Some(value), ..self }
    }
}

} // verus!
