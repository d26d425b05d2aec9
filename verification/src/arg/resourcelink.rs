use crate::arg::schedule::requested_switch;
use crate::model::resourcelink::{Creator, CreatorView, Modifier, ModifierView};
use crate::model::{modifications_view, Modification, ModificationView};
use crate::text::option_text;
use vstd::prelude::*;

verus! {

/// What can be asked about resourcelinks.
#[derive(Clone, Debug, PartialEq, Eq)]
pub enum Arg {
    /// Modifies attributes of a resourcelink.
    Modify(SetResourcelink),
    /// Prints the attributes of a resourcelink.
    Get(Get),
    /// Creates a resourcelink.
    Create(Create),
    /// Deletes a resourcelink.
    Delete(Delete),
}

/// The changes to make to a resourcelink.
#[derive(Clone, Debug, PartialEq, Eq)]
pub struct SetResourcelink {
    /// Identifier of the resourcelink.
    pub id: String,
    /// Sets the name of the resourcelink.
    pub name: Option<String>,
    /// Sets the description of the resourcelink.
    pub description: Option<String>,
    /// Sets the class id of the resourcelink.
    pub class_id: Option<u16>,
}

impl SetResourcelink {
    /// The changes that the arguments ask for.
    pub open spec fn requested_changes(&self) -> ModifierView {
        ModifierView {
            name: option_text(self.name),
            description: option_text(self.description),
            class_id: self.class_id,
        }
    }

    /// Whether the arguments ask for no change.
    pub open spec fn asks_nothing(&self) -> bool {
        self.name is None && self.description is None && self.class_id is None
    }

    /// The submissions that the arguments ask for: the changes, if there are
    /// any.
    pub open spec fn requested_modifications(&self) -> Seq<ModificationView> {
        if self.asks_nothing() {
            seq![]
        } else {
            seq![ModificationView::Resourcelink(self.requested_changes())]
        }
    }

    /// The changes to the resourcelink.
    pub fn to_modifier(&self) -> (r: Modifier)
        ensures
            r@ == self.requested_changes(),
            r.is_unset() == self.asks_nothing(),
    {
        let mut modifier = Modifier::new();
        if let Some(v) = &self.name {
            modifier = modifier.name(v.as_str());
        }
        if let Some(v) = &self.description {
            modifier = modifier.description(v.as_str());
        }
        if let Some(v) = self.class_id {
            modifier = modifier.class_id(v);
        }
        modifier
    }
}

/// The submissions to make for a resourcelink: none if nothing changes.
pub fn set(arg: &SetResourcelink) -> (r: Vec<Modification>)
    ensures
        modifications_view(r@) == arg.requested_modifications(),
{
    let mut modifications: Vec<Modification> = Vec::new();
    let modifier = arg.to_modifier();
    if !modifier.is_empty() {
        modifications.push(Modification::Resourcelink(modifier));
    }
    assert(modifications_view(modifications@) =~= arg.requested_modifications());
    modifications
}

/// Nothing is submitted exactly when the arguments ask for no change.
pub proof fn lemma_submits_nothing_when_nothing_is_asked(arg: SetResourcelink)
    ensures
        arg.requested_modifications().len() == 0 <==> arg.asks_nothing(),
{
}

/// Which resourcelinks to print.
#[derive(Clone, Debug, PartialEq, Eq)]
pub struct Get {
    /// Identifier of the resourcelink, if ommited all resourcelinks are
    /// selected.
    pub id: Option<String>,
}

/// The resourcelink to create.
#[derive(Clone, Debug, PartialEq, Eq)]
pub struct Create {
    /// The name of the new resourcelink.
    pub name: String,
    /// The class id of the new resourcelink.
    pub class_id: u16,
    /// Sets the description of the resourcelink.
    pub description: Option<String>,
    /// Sets the owner of the resourcelink.
    pub owner: Option<String>,
    /// Enables automatic removal of the resourcelink if not referenced
    /// anymore.
    pub recycle: bool,
    /// Disables automatic removal of the resourcelink if not referenced
    /// anymore.
    pub no_recycle: bool,
}

impl Create {
    /// The description of the resourcelink that the arguments ask for.
    pub open spec fn requested_resourcelink(&self) -> CreatorView {
        CreatorView {
            name: self.name@,
            class_id: self.class_id,
            description: option_text(self.description),
            owner: option_text(self.owner),
            recycle: requested_switch(self.recycle, self.no_recycle),
        }
    }

    /// The description of the resourcelink to create.
    pub fn to_creator(&self) -> (r: Creator)
        ensures
            r@ == self.requested_resourcelink(),
    {
        let mut creator = Creator::new(self.name.as_str(), self.class_id);
        if let Some(v) = &self.description {
            creator = creator.description(v.as_str());
        }
        if let Some(v) = &self.owner {
            creator = creator.owner(v.as_str());
        }
        if self.recycle {
            creator = creator.recycle(true);
        } else if self.no_recycle {
            creator = creator.recycle(false);
        }
        creator
    }
}

/// Which resourcelink to delete.
#[derive(Clone, Debug, PartialEq, Eq)]
pub struct Delete {
    /// Identifier of the resourcelink.
    pub id: String,
}

} // verus!
