use crate::arg::value;
use crate::model::group::{
    AttributeModifier, AttributeModifierView, Creator, CreatorView, StateModifier,
};
use crate::model::{modifications_view, Adjust, Color, Modification, ModificationView, Rgb};
use crate::text::{clone_texts, option_text, option_texts, texts};
use vstd::prelude::*;

verus! {

/// What can be asked about groups.
#[derive(Clone, Debug, PartialEq, Eq)]
pub enum Arg {
    /// Modifies the state and attributes of a group.
    Modify(SetGroup),
    /// Prints the state and attributes of a group.
    Get(Get),
    /// Creates a group.
    Create(Create),
    /// Deletes a group.
    Delete(Delete),
}

/// The changes to make to a group.
#[derive(Clone, Debug, PartialEq, Eq)]
pub struct SetGroup {
    /// Identifier of the group.
    pub id: String,
    /// Turns the lights on.
    pub on: bool,
    /// Turns the lights off.
    pub off: bool,
    /// Sets the brightness of the lights in percentage.
    pub brightness: Option<value::Brightness>,
    /// Sets the hue of the lights.
    pub hue: Option<value::Hue>,
    /// Sets the saturation of the lights in percentage.
    pub saturation: Option<value::Saturation>,
    /// Sets the color temperature of the lights.
    pub color_temperature: Option<value::ColorTemperature>,
    /// Sets the x and y coordinates in the color space of the lights.
    pub color_space_coordinates: Option<value::ColorSpaceCoordinates>,
    /// Sets the color of the lights with red, green, and blue values.
    pub color_rgb: Option<Rgb>,
    /// Sets the color of the lights with a hex value.
    pub color_hex: Option<value::ColorHex>,
    /// Sets the alert effect of the lights.
    pub alert: Option<value::Alert>,
    /// Sets the dynamic effect of the lights.
    pub effect: Option<value::Effect>,
    /// Sets the transition time of the lights.
    pub transition_time: Option<u16>,
    /// Renames the group.
    pub name: Option<String>,
    /// Sets the lights that are in the group.
    pub lights: Option<Vec<String>>,
    /// Sets the class of the group.
    pub class: Option<value::GroupClass>,
}

impl SetGroup {
    /// The changes to the state that the arguments ask for. Of `on` and
    /// `off`, `on` counts where both are given. Of the colours, the
    /// hexadecimal one counts before the one in channels, and that before the
    /// coordinates.
    pub open spec fn requested_state(&self) -> StateModifier {
        StateModifier {
            on: if self.on {
                Some(true)
            } else if self.off {
                Some(false)
            } else {
                None
            },
            brightness: match self.brightness {
                Some(v) => Some(Adjust { modifier_type: v.modifier_type, value: v.value }),
                None => None,
            },
            hue: match self.hue {
                Some(v) => Some(Adjust { modifier_type: v.modifier_type, value: v.value }),
                None => None,
            },
            saturation: match self.saturation {
                Some(v) => Some(Adjust { modifier_type: v.modifier_type, value: v.value }),
                None => None,
            },
            color: match (self.color_hex, self.color_rgb, self.color_space_coordinates) {
                (Some(v), _, _) => Some(Color::Rgb(v.value)),
                (None, Some(v), _) => Some(Color::Rgb(v)),
                (None, None, Some(v)) => Some(
                    Color::SpaceCoordinates { modifier_type: v.modifier_type, x: v.x, y: v.y },
                ),
                (None, None, None) => None,
            },
            color_temperature: match self.color_temperature {
                Some(v) => Some(Adjust { modifier_type: v.modifier_type, value: v.value }),
                None => None,
            },
            alert: match self.alert {
                Some(v) => Some(v.value),
                None => None,
            },
            effect: match self.effect {
                Some(v) => Some(v.value),
                None => None,
            },
            transition_time: self.transition_time,
        }
    }

    /// The changes to the attributes that the arguments ask for.
    pub open spec fn requested_attributes(&self) -> AttributeModifierView {
        AttributeModifierView {
            name: option_text(self.name),
            lights: option_texts(self.lights),
            class: match self.class {
                Some(v) => Some(v.value),
                None => None,
            },
        }
    }

    /// Whether the arguments ask for no change.
    pub open spec fn asks_nothing(&self) -> bool {
        &&& !self.on && !self.off
        &&& self.brightness is None
        &&& self.hue is None
        &&& self.saturation is None
        &&& self.color_temperature is None
        &&& self.color_space_coordinates is None
        &&& self.color_rgb is None
        &&& self.color_hex is None
        &&& self.alert is None
        &&& self.effect is None
        &&& self.transition_time is None
        &&& self.name is None
        &&& self.lights is None
        &&& self.class is None
    }

    /// Whether the arguments ask for no change of the attributes.
    pub open spec fn keeps_attributes(&self) -> bool {
        self.name is None && self.lights is None && self.class is None
    }

    /// The submissions that the arguments ask for, in the order in which
    /// they are made: the state, then the attributes, each only if it
    /// changes anything.
    pub open spec fn requested_modifications(&self) -> Seq<ModificationView> {
        let state = if self.requested_state().is_unset() {
            seq![]
        } else {
            seq![ModificationView::GroupState(self.requested_state())]
        };
        let attributes = if self.keeps_attributes() {
            seq![]
        } else {
            seq![ModificationView::GroupAttribute(self.requested_attributes())]
        };
        state + attributes
    }

    /// The changes to the state of the lights of the group.
    pub fn to_state_modifier(&self) -> (r: StateModifier)
        ensures
            r == self.requested_state(),
    {
        let ghost want = self.requested_state();
        let mut modifier = StateModifier::new();
        if self.on {
            modifier = modifier.on(true);
        } else if self.off {
            modifier = modifier.on(false);
        }
        assert(modifier == StateModifier { on: want.on, ..StateModifier::unset() });
        if let Some(v) = &self.brightness {
            modifier = modifier.brightness(v.modifier_type, v.value);
        }
        assert(modifier == StateModifier {
            on: want.on,
            brightness: want.brightness,
            ..StateModifier::unset()
        });
        if let Some(v) = &self.hue {
            modifier = modifier.hue(v.modifier_type, v.value);
        }
        assert(modifier == StateModifier {
            on: want.on,
            brightness: want.brightness,
            hue: want.hue,
            ..StateModifier::unset()
        });
        if let Some(v) = &self.saturation {
            modifier = modifier.saturation(v.modifier_type, v.value);
        }
        assert(modifier == StateModifier {
            on: want.on,
            brightness: want.brightness,
            hue: want.hue,
            saturation: want.saturation,
            ..StateModifier::unset()
        });
        let ghost before = modifier;
        if let Some(v) = &self.color_space_coordinates {
            modifier = modifier.color(
                Color::SpaceCoordinates { modifier_type: v.modifier_type, x: v.x, y: v.y },
            );
        }
        assert(modifier == StateModifier {
            color: match self.color_space_coordinates {
                Some(v) => Some(
                    Color::SpaceCoordinates { modifier_type: v.modifier_type, x: v.x, y: v.y },
                ),
                None => None,
            },
            ..before
        });
        if let Some(v) = &self.color_rgb {
            modifier = modifier.color(Color::Rgb(*v));
        }
        assert(modifier == StateModifier {
            color: match (self.color_rgb, self.color_space_coordinates) {
                (Some(v), _) => Some(Color::Rgb(v)),
                (None, Some(v)) => Some(
                    Color::SpaceCoordinates { modifier_type: v.modifier_type, x: v.x, y: v.y },
                ),
                (None, None) => None,
            },
            ..before
        });
        if let Some(v) = &self.color_hex {
            modifier = modifier.color(Color::Rgb(v.value));
        }
        assert(modifier == StateModifier { color: want.color, ..before });
        if let Some(v) = &self.color_temperature {
            modifier = modifier.color_temperature(v.modifier_type, v.value);
        }
        assert(modifier == StateModifier {
            color: want.color,
            color_temperature: want.color_temperature,
            ..before
        });
        if let Some(v) = &self.alert {
            modifier = modifier.alert(v.value);
        }
        assert(modifier == StateModifier { effect: None, transition_time: None, ..want });
        if let Some(v) = &self.effect {
            modifier = modifier.effect(v.value);
        }
        assert(modifier == StateModifier { transition_time: None, ..want });
        if let Some(v) = self.transition_time {
            modifier = modifier.transition_time(v);
        }
        modifier
    }

    /// The changes to the attributes of the group.
    pub fn to_attribute_modifier(&self) -> (r: AttributeModifier)
        ensures
            r@ == self.requested_attributes(),
            r.is_unset() == self.keeps_attributes(),
    {
        let mut modifier = AttributeModifier::new();
        if let Some(v) = &self.name {
            modifier = modifier.name(v.as_str());
        }
        if let Some(v) = &self.lights {
            modifier = modifier.lights(clone_texts(v));
        }
        if let Some(v) = &self.class {
            modifier = modifier.class(v.value);
        }
        modifier
    }
}

/// The submissions to make for a group, in order. A side of the group that
/// nothing changes is not submitted.
pub fn set(arg: &SetGroup) -> (r: Vec<Modification>)
    ensures
        modifications_view(r@) == arg.requested_modifications(),
{
    let mut modifications: Vec<Modification> = Vec::new();
    let state_modifier = arg.to_state_modifier();
    if !state_modifier.is_empty() {
        modifications.push(Modification::GroupState(state_modifier));
    }
    let attribute_modifier = arg.to_attribute_modifier();
    if !attribute_modifier.is_empty() {
        modifications.push(Modification::GroupAttribute(attribute_modifier));
    }
    assert(modifications_view(modifications@) =~= arg.requested_modifications());
    modifications
}

/// Nothing is submitted exactly when the arguments ask for no change.
pub proof fn lemma_submits_nothing_when_nothing_is_asked(arg: SetGroup)
    ensures
        arg.requested_modifications().len() == 0 <==> arg.asks_nothing(),
{
}

/// Which groups to print.
#[derive(Clone, Debug, PartialEq, Eq)]
pub struct Get {
    /// Identifier of the group, if omitted all groups are selected.
    pub id: Option<String>,
}

/// The group to create.
#[derive(Clone, Debug, PartialEq, Eq)]
pub struct Create {
    /// The name of the new group.
    pub name: String,
    /// Sets the indentifiers of the lights that will be in this group.
    pub lights: Vec<String>,
    /// Sets the type of the group.
    pub kind: Option<value::GroupTypeCreator>,
    /// Sets the class of the group.
    pub class: Option<value::GroupClass>,
}

impl Create {
    /// The description of the group that the arguments ask for.
    pub open spec fn requested_group(&self) -> CreatorView {
        CreatorView {
            name: self.name@,
            lights: texts(self.lights),
            kind: match self.kind {
                Some(v) => Some(v.value),
                None => None,
            },
            class: match self.class {
                Some(v) => Some(v.value),
                None => None,
            },
        }
    }

    /// The description of the group to create.
    pub fn to_creator(&self) -> (r: Creator)
        ensures
            r@ == self.requested_group(),
    {
        let mut creator = Creator::new(self.name.as_str(), clone_texts(&self.lights));
        if let Some(v) = &self.kind {
            creator = creator.kind(v.value);
        }
        if let Some(v) = &self.class {
            creator = creator.class(v.value);
        }
        creator
    }
}

/// Which group to delete.
#[derive(Clone, Debug, PartialEq, Eq)]
pub struct Delete {
    /// Identifier of the group.
    pub id: String,
}

} // verus!
