use crate::model::{Adjust, Alert, Color, Effect, ModifierType};
use crate::text::option_text;
use vstd::prelude::*;

verus! {

/// The changes to make to the state of a light, or of the lights of a group.
#[derive(Clone, Copy, Debug, PartialEq, Eq)]
pub struct StateModifier {
    pub on: Option<bool>,
    pub brightness: Option<Adjust<u8>>,
    pub hue: Option<Adjust<u16>>,
    pub saturation: Option<Adjust<u8>>,
    pub color: Option<Color>,
    pub color_temperature: Option<Adjust<u16>>,
    pub alert: Option<Alert>,
    pub effect: Option<Effect>,
    pub transition_time: Option<u16>,
}

impl StateModifier {
    /// Whether no field is set: applying the record changes nothing.
    pub open spec fn is_unset(&self) -> bool {
        &&& self.on is None
        &&& self.brightness is None
        &&& self.hue is None
        &&& self.saturation is None
        &&& self.color is None
        &&& self.color_temperature is None
        &&& self.alert is None
        &&& self.effect is None
        &&& self.transition_time is None
    }

    /// The record with no field set.
    pub open spec fn unset() -> Self {
        Self {
            on: None,
            brightness: None,
            hue: None,
            saturation: None,
            color: None,
            color_temperature: None,
            alert: None,
            effect: None,
            transition_time: None,
        }
    }

    /// A record with no field set.
    pub fn new() -> (r: Self)
        ensures
            r.is_unset(),
            r == Self::unset(),
    {
        Self {
            on: None,
            brightness: None,
            hue: None,
            saturation: None,
            color: None,
            color_temperature: None,
            alert: None,
            effect: None,
            transition_time: None,
        }
    }

    /// Whether no field is set.
    pub fn is_empty(&self) -> (r: bool)
        ensures
            r == self.is_unset(),
    {
        self.on.is_none()
            && self.brightness.is_none()
            && self.hue.is_none()
            && self.saturation.is_none()
            && self.color.is_none()
            && self.color_temperature.is_none()
            && self.alert.is_none()
            && self.effect.is_none()
            && self.transition_time.is_none()
    }

    /// Turns the lights on or off.
    pub fn on(self, value: bool) -> (r: Self)
        ensures
            r == (StateModifier { on: Some(value), ..self }),
            !r.is_unset(),
    {
        Self { on: Some(value), ..self }
    }

    /// Sets the brightness.
    pub fn brightness(self, modifier_type: ModifierType, value: u8) -> (r: Self)
        ensures
            r == (StateModifier { brightness: Some(Adjust { modifier_type, value }), ..self }),
            !r.is_unset(),
    {
        Self { brightness: Some(Adjust { modifier_type, value }), ..self }
    }

    /// Sets the hue.
    pub fn hue(self, modifier_type: ModifierType, value: u16) -> (r: Self)
        ensures
            r == (StateModifier { hue: Some(Adjust { modifier_type, value }), ..self }),
            !r.is_unset(),
    {
        Self { hue: Some(Adjust { modifier_type, value }), ..self }
    }

    /// Sets the saturation.
    pub fn saturation(self, modifier_type: ModifierType, value: u8) -> (r: Self)
        ensures
            r == (StateModifier { saturation: Some(Adjust { modifier_type, value }), ..self }),
            !r.is_unset(),
    {
        Self { saturation: Some(Adjust { modifier_type, value }), ..self }
    }

    /// Sets the colour. A later colour replaces an earlier one.
    pub fn color(self, value: Color) -> (r: Self)
        ensures
            r == (StateModifier { color: Some(value), ..self }),
            !r.is_unset(),
    {
        Self { color: Some(value), ..self }
    }

    /// Sets the colour temperature.
    pub fn color_temperature(self, modifier_type: ModifierType, value: u16) -> (r: Self)
        ensures
            r == (StateModifier {
                color_temperature: Some(Adjust { modifier_type, value }),
                ..self
            }),
            !r.is_unset(),
    {
        Self { color_temperature: Some(Adjust { modifier_type, value }), ..self }
    }

    /// Sets the alert effect.
    pub fn alert(self, value: Alert) -> (r: Self)
        ensures
            r == (StateModifier { alert: Some(value), ..self }),
            !r.is_unset(),
    {
        Self { alert: Some(value), ..self }
    }

    /// Sets the dynamic effect.
    pub fn effect(self, value: Effect) -> (r: Self)
        ensures
            r == (StateModifier { effect: Some(value), ..self }),
            !r.is_unset(),
    {
        Self { effect: Some(value), ..self }
    }

    /// Sets the duration of the change, in tenths of a second.
    pub fn transition_time(self, value: u16) -> (r: Self)
        ensures
            r == (StateModifier { transition_time: Some(value), ..self }),
            !r.is_unset(),
    {
        Self { transition_time: Some(value), ..self }
    }
}

/// The changes to make to the attributes of a light.
#[derive(Clone, Debug, PartialEq, Eq)]
pub struct AttributeModifier {
    pub name: Option<String>,
}

/// What a change of the attributes of a light holds, as plain values.
pub struct AttributeModifierView {
    pub name: Option<Seq<char>>,
}

impl View for AttributeModifier {
    type V = AttributeModifierView;

    open spec fn view(&self) -> AttributeModifierView {
        AttributeModifierView {
            name: option_text(self.name),
        }
    }
}

impl AttributeModifier {
    /// Whether no field is set: applying the record changes nothing.
    pub open spec fn is_unset(&self) -> bool {
        &&& self.name is None
    }

    /// A record with no field set.
    pub fn new() -> (r: Self)
        ensures
            r.is_unset(),
    {
        Self { name: None }
    }

    /// Whether no field is set.
    pub fn is_empty(&self) -> (r: bool)
        ensures
            r == self.is_unset(),
    {
        self.name.is_none()
    }

    /// Renames the light.
    pub fn name(self, value: &str) -> (r: Self)
        ensures
            r@ == (AttributeModifierView { name: Some(value@), ..self@ }),
            !r.is_unset(),
    {
        Self { name: Some(value.to_owned()), ..self }
    }
}

} // verus!
