pub mod config;
pub mod group;
pub mod light;
pub mod resourcelink;
pub mod rule;
pub mod scene;
pub mod schedule;
pub mod sensor;

use vstd::prelude::*;

verus! {

/// How a number is applied to the attribute that it is given for.
#[derive(Clone, Copy, Debug, PartialEq, Eq, Structural)]
pub enum ModifierType {
    /// The number replaces the current value.
    Override,
    /// The number is added to the current value.
    Increment,
    /// The number is subtracted from the current value.
    Decrement,
}

/// How a pair of coordinates is applied to the current pair.
#[derive(Clone, Copy, Debug, PartialEq, Eq, Structural)]
pub enum CoordinateModifierType {
    /// Both coordinates replace the current ones.
    Override,
    /// Both coordinates are added to the current ones.
    Increment,
    /// Both coordinates are subtracted from the current ones.
    Decrement,
    /// The first coordinate is added, the second subtracted.
    IncrementThenDecrement,
    /// The first coordinate is subtracted, the second added.
    DecrementThenIncrement,
}

/// Alert effect of a light.
#[derive(Clone, Copy, Debug, PartialEq, Eq, Structural)]
pub enum Alert {
    /// One breathe cycle.
    Select,
    /// Breathe cycles for fifteen seconds.
    LSelect,
    /// No alert.
    Off,
}

/// Dynamic effect of a light.
#[derive(Clone, Copy, Debug, PartialEq, Eq, Structural)]
pub enum Effect {
    /// Cycles through all hues.
    Colorloop,
    /// No effect.
    Off,
}

/// The request method of a scheduled command.
#[derive(Clone, Copy, Debug, PartialEq, Eq, Structural)]
pub enum ActionRequestType {
    Put,
    Post,
    Delete,
}

/// A coordinate in the colour space, or a step along one: a number between
/// 0 and 1, held in billionths.
#[derive(Clone, Copy, Debug, PartialEq, Eq, Structural)]
pub struct Coordinate {
    pub billionths: u32,
}

/// A colour by its red, green and blue channels.
#[derive(Clone, Copy, Debug, PartialEq, Eq, Structural)]
pub struct Rgb {
    pub red: u8,
    pub green: u8,
    pub blue: u8,
}

/// A number and the way of applying it.
#[derive(Clone, Copy, Debug, PartialEq, Eq)]
pub struct Adjust<T> {
    pub modifier_type: ModifierType,
    pub value: T,
}

/// The colour to give to a light.
#[derive(Clone, Copy, Debug, PartialEq, Eq, Structural)]
pub enum Color {
    /// A position in the colour space, or a step away from the current one.
    SpaceCoordinates { modifier_type: CoordinateModifierType, x: Coordinate, y: Coordinate },
    /// Red, green and blue. The brightness of the light follows from them.
    Rgb(Rgb),
}

/// One change to submit: the changes to one side of one resource. A resource
/// with several sides takes one submission for each.
#[derive(Clone, Debug, PartialEq, Eq)]
pub enum Modification {
    Config(config::Modifier),
    LightState(light::StateModifier),
    LightAttribute(light::AttributeModifier),
    GroupState(group::StateModifier),
    GroupAttribute(group::AttributeModifier),
    Scene(scene::Modifier),
    Schedule(schedule::Modifier),
    SensorState(sensor::StateModifier),
    SensorAttribute(sensor::AttributeModifier),
    SensorConfig(sensor::ConfigModifier),
    Rule(rule::Modifier),
    Resourcelink(resourcelink::Modifier),
}

/// What a change to submit holds, as plain values.
pub enum ModificationView {
    Config(config::ModifierView),
    LightState(light::StateModifier),
    LightAttribute(light::AttributeModifierView),
    GroupState(group::StateModifier),
    GroupAttribute(group::AttributeModifierView),
    Scene(scene::ModifierView),
    Schedule(schedule::ModifierView),
    SensorState(sensor::StateModifier),
    SensorAttribute(sensor::AttributeModifierView),
    SensorConfig(sensor::ConfigModifier),
    Rule(rule::ModifierView),
    Resourcelink(resourcelink::ModifierView),
}

impl View for Modification {
    type V = ModificationView;

    open spec fn view(&self) -> ModificationView {
        match *self {
            Modification::Config(m) => ModificationView::Config(m@),
            Modification::LightState(m) => ModificationView::LightState(m),
            Modification::LightAttribute(m) => ModificationView::LightAttribute(m@),
            Modification::GroupState(m) => ModificationView::GroupState(m),
            Modification::GroupAttribute(m) => ModificationView::GroupAttribute(m@),
            Modification::Scene(m) => ModificationView::Scene(m@),
            Modification::Schedule(m) => ModificationView::Schedule(m@),
            Modification::SensorState(m) => ModificationView::SensorState(m),
            Modification::SensorAttribute(m) => ModificationView::SensorAttribute(m@),
            Modification::SensorConfig(m) => ModificationView::SensorConfig(m),
            Modification::Rule(m) => ModificationView::Rule(m@),
            Modification::Resourcelink(m) => ModificationView::Resourcelink(m@),
        }
    }
}

impl ModificationView {
    /// What is said of the submission where the bridge refuses it.
    pub open spec fn failure_description(self) -> Seq<char> {
        match self {
            ModificationView::Config(_) => "Failed to set config"@,
            ModificationView::LightState(_) =>
                "Error occured while modifying the state of the light"@,
            ModificationView::LightAttribute(_) =>
                "Error occured while modifying attributes of the light"@,
            ModificationView::GroupState(_) =>
                "Error occured while modifying the state of the lights"@,
            ModificationView::GroupAttribute(_) =>
                "Error occured while modifying attributes of the lights"@,
            ModificationView::Scene(_) => "Failed to set scene"@,
            ModificationView::Schedule(_) => "Failed to set schedule"@,
            ModificationView::SensorState(_) =>
                "Error occured while modifying the state of the sensor"@,
            ModificationView::SensorAttribute(_) =>
                "Error occured while modifying attributes of the sensor"@,
            ModificationView::SensorConfig(_) =>
                "Error occured while modifying the config of the sensor"@,
            ModificationView::Rule(_) => "Failed to set rule"@,
            ModificationView::Resourcelink(_) => "Failed to set resourcelink"@,
        }
    }
}

impl Modification {
    /// What is said of the submission where the bridge refuses it.
    pub fn failure_description(&self) -> (r: &'static str)
        ensures
            r@ == self@.failure_description(),
    {
        match self {
            Modification::Config(_) => "Failed to set config",
            Modification::LightState(_) => "Error occured while modifying the state of the light",
            Modification::LightAttribute(_) =>
                "Error occured while modifying attributes of the light",
            Modification::GroupState(_) =>
                "Error occured while modifying the state of the lights",
            Modification::GroupAttribute(_) =>
                "Error occured while modifying attributes of the lights",
            Modification::Scene(_) => "Failed to set scene",
            Modification::Schedule(_) => "Failed to set schedule",
            Modification::SensorState(_) =>
                "Error occured while modifying the state of the sensor",
            Modification::SensorAttribute(_) =>
                "Error occured while modifying attributes of the sensor",
            Modification::SensorConfig(_) =>
                "Error occured while modifying the config of the sensor",
            Modification::Rule(_) => "Failed to set rule",
            Modification::Resourcelink(_) => "Failed to set resourcelink",
        }
    }
}

/// The changes of a list, as plain values and in order.
pub open spec fn modifications_view(list: Seq<Modification>) -> Seq<ModificationView> {
    Seq::new(list.len(), |i: int| list[i]@)
}

} // verus!
