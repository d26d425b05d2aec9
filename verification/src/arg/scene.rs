use crate::arg::value;
use crate::model::scene::{Creator, CreatorView, Modifier, ModifierView};
use crate::model::{modifications_view, Modification, ModificationView};
use crate::text::{clone_texts, option_text, option_texts, texts};
use vstd::prelude::*;

verus! {

/// What can be asked about scenes.
#[derive(Clone, Debug, PartialEq, Eq)]
pub enum Arg {
    /// Modifies the state and attributes of a scene.
    Modify(SetScene),
    /// Prints the state and attributes of a scene.
    Get(Get),
    /// Creates a scene.
    Create(Create),
    /// Deletes a scene.
    Delete(Delete),
}

/// The changes to make to a scene.
#[derive(Clone, Debug, PartialEq, Eq)]
pub struct SetScene {
    /// Identifier of the scene.
    pub id: String,
    /// Renames the scene.
    pub name: Option<String>,
    /// Sets the identifiers of the lights in this scene.
    pub lights: Option<Vec<String>>,
    /// Stores the light state.
    pub store_light_state: bool,
    /// Does not store the light state.
    pub no_store_light_state: bool,
}

impl SetScene {
    /// The changes that the arguments ask for. Of `store_light_state` and
    /// `no_store_light_state`, the first counts where both are given.
    pub open spec fn requested_changes(&self) -> ModifierView {
        ModifierView {
            name: option_text(self.name),
            lights: option_texts(self.lights),
            store_light_state: if self.store_light_state {
                Some(true)
            } else if self.no_store_light_state {
                Some(false)
            } else {
                None
            },
        }
    }

    /// Whether the arguments ask for no change.
    pub open spec fn asks_nothing(&self) -> bool {
        self.name is None && self.lights is None && !self.store_light_state
            && !self.no_store_light_state
    }

    /// The submissions that the arguments ask for: the changes, if there are
    /// any.
    pub open spec fn requested_modifications(&self) -> Seq<ModificationView> {
        if self.asks_nothing() {
            seq![]
        } else {
            seq![ModificationView::Scene(self.requested_changes())]
        }
    }

    /// The changes to the scene.
    pub fn to_modifier(&self) -> (r: Modifier)
        ensures
            r@ == self.requested_changes(),
            r.is_unset() == self.asks_nothing(),
    {
        let mut modifier = Modifier::new();
        if let Some(v) = &self.name {
            modifier = modifier.name(v.as_str());
        }
        if let Some(v) = &self.lights {
            modifier = modifier.lights(clone_texts(v));
        }
        if self.store_light_state {
            modifier = modifier.store_light_state(true);
        } else if self.no_store_light_state {
            modifier = modifier.store_light_state(false);
        }
        modifier
    }
}

/// The submissions to make for a scene: none if nothing changes.
pub fn set(arg: &SetScene) -> (r: Vec<Modification>)
    ensures
        modifications_view(r@) == arg.requested_modifications(),
{
    let mut modifications: Vec<Modification> = Vec::new();
    let modifier = arg.to_modifier();
    if !modifier.is_empty() {
        modifications.push(Modification::Scene(modifier));
    }
    assert(modifications_view(modifications@) =~= arg.requested_modifications());
    modifications
}

/// Nothing is submitted exactly when the arguments ask for no change.
pub proof fn lemma_submits_nothing_when_nothing_is_asked(arg: SetScene)
    ensures
        arg.requested_modifications().len() == 0 <==> arg.asks_nothing(),
{
}

/// Which scenes to print.
#[derive(Clone, Debug, PartialEq, Eq)]
pub struct Get {
    /// Identifier of the scene, if omitted all scenes are selected.
    pub id: Option<String>,
}

/// The scene to create.
#[derive(Clone, Debug, PartialEq, Eq)]
pub struct Create {
    /// The name of the new scene.
    pub name: String,
    /// Sets the identifiers of the lights that will be in this scene.
    pub lights: Vec<String>,
    /// Sets the type of the scene.
    pub kind: Option<value::SceneType>,
    /// Sets the app version of the scene.
    pub app_version: Option<i8>,
    /// Sets the app data of the scene.
    pub app_data: Option<String>,
}

impl Create {
    /// The description of the scene that the arguments ask for.
    pub open spec fn requested_scene(&self) -> CreatorView {
        CreatorView {
            name: self.name@,
            lights: texts(self.lights),
            kind: match self.kind {
                Some(v) => Some(v.value),
                None => None,
            },
            app_version: self.app_version,
            app_data: option_text(self.app_data),
        }
    }

    /// The description of the scene to create.
    pub fn to_creator(&self) -> (r: Creator)
        ensures
            r@ == self.requested_scene(),
    {
        let mut creator = Creator::new(self.name.as_str(), clone_texts(&self.lights));
        if let Some(v) = &self.kind {
            creator = creator.kind(v.value);
        }
        if let Some(v) = self.app_version {
            creator = creator.app_version(v);
        }
        if let Some(v) = &self.app_data {
            creator = creator.app_data(v.as_str());
        }
        creator
    }
}

/// Which scene to delete.
#[derive(Clone, Debug, PartialEq, Eq)]
pub struct Delete {
    /// Identifier of the scene.
    pub id: String,
}

} // verus!
