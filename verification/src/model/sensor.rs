use crate::text::option_text;
use vstd::prelude::*;

verus! {

/// The changes to make to the state of a sensor.
#[derive(Clone, Copy, Debug, PartialEq, Eq)]
pub struct StateModifier {
    pub presence: Option<bool>,
}

impl StateModifier {
    /// Whether no field is set: applying the record changes nothing.
    pub open spec fn is_unset(&self) -> bool {
        &&& self.presence is None
    }

    /// The record with no field set.
    pub open spec fn unset() -> Self {
        Self { presence: None }
    }

    /// A record with no field set.
    pub fn new() -> (r: Self)
        ensures
            r.is_unset(),
            r == Self::unset(),
    {
        Self { presence: None }
    }

    /// Whether no field is set.
    pub fn is_empty(&self) -> (r: bool)
        ensures
            r == self.is_unset(),
    {
        self.presence.is_none()
    }

    /// Sets whether the sensor reports a presence.
    pub fn presence(self, value: bool) -> (r: Self)
        ensures
            r == (StateModifier { presence: Some(value), ..self }),
            !r.is_unset(),
    {
        Self { presence: Some(value), ..self }
    }
}

/// The changes to make to the attributes of a sensor.
#[derive(Clone, Debug, PartialEq, Eq)]
pub struct AttributeModifier {
    pub name: Option<String>,
}

/// What a change of the attributes of a sensor holds, as plain values.
pub struct AttributeModifierView {
    pub name: Option<Seq<char>>,
}

impl View for AttributeModifier {
    type V = AttributeModifierView;

    open spec fn view(&self) -> AttributeModifierView {
        AttributeModifierView {
            name: option_text(self.name),
        }
    }
}

impl AttributeModifier {
    /// Whether no field is set: applying the record changes nothing.
    pub open spec fn is_unset(&self) -> bool {
        &&& self.name is None
    }

    /// A record with no field set.
    pub fn new() -> (r: Self)
        ensures
            r.is_unset(),
    {
        Self { name: None }
    }

    /// Whether no field is set.
    pub fn is_empty(&self) -> (r: bool)
        ensures
            r == self.is_unset(),
    {
        self.name.is_none()
    }

    /// Renames the sensor.
    pub fn name(self, value: &str) -> (r: Self)
        ensures
            r@ == (AttributeModifierView { name: Some(value@), ..self@ }),
            !r.is_unset(),
    {
        Self { name: Some(value.to_owned()), ..self }
    }
}

/// The changes to make to the configuration of a sensor.
#[derive(Clone, Copy, Debug, PartialEq, Eq)]
pub struct ConfigModifier {
    pub on: Option<bool>,
}

impl ConfigModifier {
    /// Whether no field is set: applying the record changes nothing.
    pub open spec fn is_unset(&self) -> bool {
        &&& self.on is None
    }

    /// The record with no field set.
    pub open spec fn unset() -> Self {
        Self { on: None }
    }

    /// A record with no field set.
    pub fn new() -> (r: Self)
        ensures
            r.is_unset(),
            r == Self::unset(),
    {
        Self { on: None }
    }

    /// Whether no field is set.
    pub fn is_empty(&self) -> (r: bool)
        ensures
            r == self.is_unset(),
    {
        self.on.is_none()
    }

    /// Turns the sensor on or off.
    pub fn on(self, value: bool) -> (r: Self)
        ensures
            r == (ConfigModifier { on: Some(value), ..self }),
            !r.is_unset(),
    {
        Self { on: Some(value), ..self }
    }
}

} // verus!
