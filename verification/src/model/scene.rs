use crate::text::{option_text, option_texts, texts};
use vstd::prelude::*;

verus! {

/// The kind of a scene.
#[derive(Clone, Copy, Debug, PartialEq, Eq, Structural)]
pub enum Kind {
    LightScene,
    GroupScene,
}

/// The changes to make to a scene.
#[derive(Clone, Debug, PartialEq, Eq)]
pub struct Modifier {
    pub name: Option<String>,
    pub lights: Option<Vec<String>>,
    pub store_light_state: Option<bool>,
}

/// What a change of a scene holds, as plain values.
pub struct ModifierView {
    pub name: Option<Seq<char>>,
    pub lights: Option<Seq<Seq<char>>>,
    pub store_light_state: Option<bool>,
}

impl View for Modifier {
    type V = ModifierView;

    open spec fn view(&self) -> ModifierView {
        ModifierView {
            name: option_text(self.name),
            lights: option_texts(self.lights),
            store_light_state: self.store_light_state,
        }
    }
}

impl Modifier {
    /// Whether no field is set: applying the record changes nothing.
    pub open spec fn is_unset(&self) -> bool {
        &&& self.name is None
        &&& self.lights is None
        &&& self.store_light_state is None
    }

    /// A record with no field set.
    pub fn new() -> (r: Self)
        ensures
            r.is_unset(),
    {
        Self { name: None, lights: None, store_light_state: None }
    }

    /// Whether no field is set.
    pub fn is_empty(&self) -> (r: bool)
        ensures
            r == self.is_unset(),
    {
        self.name.is_none()
            && self.lights.is_none()
            && self.store_light_state.is_none()
    }

    /// Renames the scene.
    pub fn name(self, value: &str) -> (r: Self)
        ensures
            r@ == (ModifierView { name: Some(value@), ..self@ }),
            !r.is_unset(),
    {
        Self { name: Some(value.to_owned()), ..self }
    }

    /// Sets the lights of the scene.
    pub fn lights(self, value: Vec<String>) -> (r: Self)
        ensures
            r@ == (ModifierView { lights: Some(texts(value)), ..self@ }),
            !r.is_unset(),
    {
        Self { lights: Some(value), ..self }
    }

    /// Sets whether the scene takes over the current state of its lights.
    pub fn store_light_state(self, value: bool) -> (r: Self)
        ensures
            r@ == (ModifierView { store_light_state: Some(value), ..self@ }),
            !r.is_unset(),
    {
        Self { store_light_state: Some(value), ..self }
    }
}

/// What a new scene is made of.
#[derive(Clone, Debug, PartialEq, Eq)]
pub struct Creator {
    pub name: String,
    pub lights: Vec<String>,
    pub kind: Option<Kind>,
    pub app_version: Option<i8>,
    pub app_data: Option<String>,
}

/// What the description of a new scene holds, as plain values.
pub struct CreatorView {
    pub name: Seq<char>,
    pub lights: Seq<Seq<char>>,
    pub kind: Option<Kind>,
    pub app_version: Option<i8>,
    pub app_data: Option<Seq<char>>,
}

impl View for Creator {
    type V = CreatorView;

    open spec fn view(&self) -> CreatorView {
        CreatorView {
            name: self.name@,
            lights: texts(self.lights),
            kind: self.kind,
            app_version: self.app_version,
            app_data: option_text(self.app_data),
        }
    }
}

impl Creator {
    /// A scene with a name and the lights in it.
    pub fn new(name: &str, lights: Vec<String>) -> (r: Self)
        ensures
            r@ == (CreatorView {
                name: name@,
                lights: texts(lights),
                kind: None,
                app_version: None,
                app_data: None,
            }),
    {
        Self { name: name.to_owned(), lights, kind: None, app_version: None, app_data: None }
    }

    /// Sets the kind of the scene.
    pub fn kind(self, value: Kind) -> (r: Self)
        ensures
            r@ == (CreatorView { kind: Some(value), ..self@ }),
    {
        Self { kind: Some(value), ..self }
    }

    /// Sets the version of the application data.
    pub fn app_version(self, value: i8) -> (r: Self)
        ensures
            r@ == (CreatorView { app_version: Some(value), ..self@ }),
    {
        Self { app_version: Some(value), ..self }
    }

    /// Sets the application data.
    pub fn app_data(self, value: &str) -> (r: Self)
        ensures
            r@ == (CreatorView { app_data: Some(value@), ..self@ }),
    {
        Self { app_data: Some(value.to_owned()), ..self }
    }
}

} // verus!
