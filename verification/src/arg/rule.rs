use crate::model::rule::{Creator, CreatorView, Modifier, ModifierView};
use crate::model::{modifications_view, Modification, ModificationView};
use crate::text::option_text;
use vstd::prelude::*;

verus! {

/// What can be asked about rules.
#[derive(Clone, Debug, PartialEq, Eq)]
pub enum Arg {
    /// Modifies attributes of a rule.
    Modify(SetRule),
    /// Prints attributes of a rule.
    Get(Get),
    /// Creates a rule.
    Create(Create),
    /// Deletes a rule.
    Delete(Delete),
}

/// The changes to make to a rule.
#[derive(Clone, Debug, PartialEq, Eq)]
pub struct SetRule {
    /// Identifier of the rule.
    pub id: String,
    /// Sets the name of the rule.
    pub name: Option<String>,
}

impl SetRule {
    /// The changes that the arguments ask for.
    pub open spec fn requested_changes(&self) -> ModifierView {
        ModifierView { name: option_text(self.name) }
    }

    /// Whether the arguments ask for no change.
    pub open spec fn asks_nothing(&self) -> bool {
        self.name is None
    }

    /// The submissions that the arguments ask for: the changes, if there are
    /// any.
    pub open spec fn requested_modifications(&self) -> Seq<ModificationView> {
        if self.asks_nothing() {
            seq![]
        } else {
            seq![ModificationView::Rule(self.requested_changes())]
        }
    }

    /// The changes to the rule.
    pub fn to_modifier(&self) -> (r: Modifier)
        ensures
            r@ == self.requested_changes(),
            r.is_unset() == self.asks_nothing(),
    {
        let mut modifier = Modifier::new();
        if let Some(v) = &self.name {
            modifier = modifier.name(v.as_str());
        }
        modifier
    }
}

/// The submissions to make for a rule: none if nothing changes.
pub fn set(arg: &SetRule) -> (r: Vec<Modification>)
    ensures
        modifications_view(r@) == arg.requested_modifications(),
{
    let mut modifications: Vec<Modification> = Vec::new();
    let modifier = arg.to_modifier();
    if !modifier.is_empty() {
        modifications.push(Modification::Rule(modifier));
    }
    assert(modifications_view(modifications@) =~= arg.requested_modifications());
    modifications
}

/// Nothing is submitted exactly when the arguments ask for no change.
pub proof fn lemma_submits_nothing_when_nothing_is_asked(arg: SetRule)
    ensures
        arg.requested_modifications().len() == 0 <==> arg.asks_nothing(),
{
}

/// Which rules to print.
#[derive(Clone, Debug, PartialEq, Eq)]
pub struct Get {
    /// Identifier of the rule, if omitted all rules are selected.
    pub id: Option<String>,
}

/// The rule to create.
#[derive(Clone, Debug, PartialEq, Eq)]
pub struct Create {
    /// The name of the new rule.
    pub name: String,
}

impl Create {
    /// The description of the rule that the arguments ask for.
    pub open spec fn requested_rule(&self) -> CreatorView {
        CreatorView { name: self.name@ }
    }

    /// The description of the rule to create.
    pub fn to_creator(&self) -> (r: Creator)
        ensures
            r@ == self.requested_rule(),
    {
        Creator::new(self.name.as_str())
    }
}

/// Which rule to delete.
#[derive(Clone, Debug, PartialEq, Eq)]
pub struct Delete {
    /// Identifier of the rule.
    pub id: String,
}

} // verus!
