use crate::model::sensor::{
    AttributeModifier, AttributeModifierView, ConfigModifier, StateModifier,
};
use crate::model::{modifications_view, Modification, ModificationView};
use crate::text::option_text;
use vstd::prelude::*;

verus! {

/// What can be asked about sensors.
#[derive(Clone, Debug, PartialEq, Eq)]
pub enum Arg {
    /// Modifies the state and attributes of a sensor.
    Modify(SetSensor),
    /// Prints the state and attributes of a sensor.
    Get(Get),
    /// Searches for new sensors.
    Search(Search),
    /// Deletes a sensor.
    Delete(Delete),
}

/// The changes to make to a sensor.
#[derive(Clone, Debug, PartialEq, Eq)]
pub struct SetSensor {
    /// Identifier of the sensor.
    pub id: String,
    /// Turns the sensor on.
    pub on: bool,
    /// Turns the sensor off.
    pub off: bool,
    /// Sets the name of the sensor.
    pub name: Option<String>,
    /// Enables presence.
    pub presence: bool,
    /// Disables presence.
    pub no_presence: bool,
}

impl SetSensor {
    /// The changes to the state that the arguments ask for. Of `presence`
    /// and `no_presence`, the first counts where both are given.
    pub open spec fn requested_state(&self) -> StateModifier {
        StateModifier {
            presence: if self.presence {
                Some(true)
            } else if self.no_presence {
                Some(false)
            } else {
                None
            },
        }
    }

    /// The changes to the attributes that the arguments ask for.
    pub open spec fn requested_attributes(&self) -> AttributeModifierView {
        AttributeModifierView { name: option_text(self.name) }
    }

    /// The changes to the configuration that the arguments ask for. Of `on`
    /// and `off`, `on` counts where both are given.
    pub open spec fn requested_config(&self) -> ConfigModifier {
        ConfigModifier {
            on: if self.on {
                Some(true)
            } else if self.off {
                Some(false)
            } else {
                None
            },
        }
    }

    /// Whether the arguments ask for no change.
    pub open spec fn asks_nothing(&self) -> bool {
        &&& !self.on && !self.off
        &&& self.name is None
        &&& !self.presence && !self.no_presence
    }

    /// The submissions that the arguments ask for, in the order in which
    /// they are made: the state, then the attributes, then the
    /// configuration, each only if it changes anything.
    pub open spec fn requested_modifications(&self) -> Seq<ModificationView> {
        let state = if self.requested_state().is_unset() {
            seq![]
        } else {
            seq![ModificationView::SensorState(self.requested_state())]
        };
        let attributes = if self.name is None {
            seq![]
        } else {
            seq![ModificationView::SensorAttribute(self.requested_attributes())]
        };
        let config = if self.requested_config().is_unset() {
            seq![]
        } else {
            seq![ModificationView::SensorConfig(self.requested_config())]
        };
        state + attributes + config
    }

    /// The changes to the state of the sensor.
    pub fn to_state_modifier(&self) -> (r: StateModifier)
        ensures
            r == self.requested_state(),
    {
        let mut modifier = StateModifier::new();
        if self.presence {
            modifier = modifier.presence(true);
        } else if self.no_presence {
            modifier = modifier.presence(false);
        }
        modifier
    }

    /// The changes to the attributes of the sensor.
    pub fn to_attribute_modifier(&self) -> (r: AttributeModifier)
        ensures
            r@ == self.requested_attributes(),
            r.is_unset() == (self.name is None),
    {
        let mut modifier = AttributeModifier::new();
        if let Some(v) = &self.name {
            modifier = modifier.name(v.as_str());
        }
        modifier
    }

    /// The changes to the configuration of the sensor.
    pub fn to_config_modifier(&self) -> (r: ConfigModifier)
        ensures
            r == self.requested_config(),
    {
        let mut modifier = ConfigModifier::new();
        if self.on {
            modifier = modifier.on(true);
        } else if self.off {
            modifier = modifier.on(false);
        }
        modifier
    }
}

/// The submissions to make for a sensor, in order. A side of the sensor that
/// nothing changes is not submitted.
pub fn set(arg: &SetSensor) -> (r: Vec<Modification>)
    ensures
        modifications_view(r@) == arg.requested_modifications(),
{
    let mut modifications: Vec<Modification> = Vec::new();
    let state_modifier = arg.to_state_modifier();
    if !state_modifier.is_empty() {
        modifications.push(Modification::SensorState(state_modifier));
    }
    let attribute_modifier = arg.to_attribute_modifier();
    if !attribute_modifier.is_empty() {
        modifications.push(Modification::SensorAttribute(attribute_modifier));
    }
    let config_modifier = arg.to_config_modifier();
    if !config_modifier.is_empty() {
        modifications.push(Modification::SensorConfig(config_modifier));
    }
    assert(modifications_view(modifications@) =~= arg.requested_modifications());
    modifications
}

/// Nothing is submitted exactly when the arguments ask for no change.
pub proof fn lemma_submits_nothing_when_nothing_is_asked(arg: SetSensor)
    ensures
        arg.requested_modifications().len() == 0 <==> arg.asks_nothing(),
{
}

/// Which sensors to print.
#[derive(Clone, Debug, PartialEq, Eq)]
pub struct Get {
    /// Identifier of the sensor, if omitted all sensors are selected.
    pub id: Option<String>,
}

/// Whether to search for new sensors or to print those that were found.
#[derive(Clone, Copy, Debug, PartialEq, Eq)]
pub struct Search {
    /// Prints the sensors that were discovered by the last search.
    pub get: bool,
}

/// Which sensor to delete.
#[derive(Clone, Debug, PartialEq, Eq)]
pub struct Delete {
    /// Identifier of the sensor.
    pub id: String,
}

} // verus!
