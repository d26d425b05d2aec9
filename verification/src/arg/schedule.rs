use crate::arg::value;
use crate::model::schedule::{
    Action, ActionView, Creator, CreatorView, Modifier, ModifierView, Status,
};
use crate::model::{modifications_view, Modification, ModificationView};
use crate::text::option_text;
use vstd::prelude::*;

verus! {

/// What can be asked about schedules.
#[derive(Clone, Debug, PartialEq, Eq)]
pub enum Arg {
    /// Modifies attributes of a schedule.
    Modify(SetSchedule),
    /// Prints attributes of a schedule.
    Get(Get),
    /// Creates a schedule.
    Create(Create),
    /// Deletes a schedule.
    Delete(Delete),
}

/// The status that a pair of switches asks for: the first switch enables,
/// the second disables, and the first counts where both are given.
pub open spec fn requested_status(on: bool, off: bool) -> Option<Status> {
    if on {
        Some(Status::Enabled)
    } else if off {
        Some(Status::Disabled)
    } else {
        None
    }
}

/// The setting that a pair of switches asks for: the first switch sets, the
/// second clears, and the first counts where both are given.
pub open spec fn requested_switch(yes: bool, no: bool) -> Option<bool> {
    if yes {
        Some(true)
    } else if no {
        Some(false)
    } else {
        None
    }
}

/// The changes to make to a schedule.
#[derive(Clone, Debug, PartialEq, Eq)]
pub struct SetSchedule {
    /// Identifier of the schedule.
    pub id: String,
    /// Enables the schedule.
    pub on: bool,
    /// Disables the schedule.
    pub off: bool,
    /// Renames the schedule.
    pub name: Option<String>,
    /// Sets the description of the schedule.
    pub description: Option<String>,
    /// Sets the time when the command will be executed.
    pub time: Option<String>,
    /// Enables automatic removal of the schedule if expired.
    pub auto_delete: bool,
    /// Disables automatic removal of the schedule if expired.
    pub no_auto_delete: bool,
}

impl SetSchedule {
    /// The changes that the arguments ask for.
    pub open spec fn requested_changes(&self) -> ModifierView {
        ModifierView {
            status: requested_status(self.on, self.off),
            name: option_text(self.name),
            description: option_text(self.description),
            localtime: option_text(self.time),
            auto_delete: requested_switch(self.auto_delete, self.no_auto_delete),
        }
    }

    /// Whether the arguments ask for no change.
    pub open spec fn asks_nothing(&self) -> bool {
        &&& !self.on && !self.off
        &&& self.name is None
        &&& self.description is None
        &&& self.time is None
        &&& !self.auto_delete && !self.no_auto_delete
    }

    /// The submissions that the arguments ask for: the changes, if there are
    /// any.
    pub open spec fn requested_modifications(&self) -> Seq<ModificationView> {
        if self.asks_nothing() {
            seq![]
        } else {
            seq![ModificationView::Schedule(self.requested_changes())]
        }
    }

    /// The changes to the schedule.
    pub fn to_modifier(&self) -> (r: Modifier)
        ensures
            r@ == self.requested_changes(),
            r.is_unset() == self.asks_nothing(),
    {
        let mut modifier = Modifier::new();
        if self.on {
            modifier = modifier.status(Status::Enabled);
        } else if self.off {
            modifier = modifier.status(Status::Disabled);
        }
        if let Some(v) = &self.name {
            modifier = modifier.name(v.as_str());
        }
        if let Some(v) = &self.description {
            modifier = modifier.description(v.as_str());
        }
        if let Some(v) = &self.time {
            modifier = modifier.localtime(v.as_str());
        }
        if self.auto_delete {
            modifier = modifier.auto_delete(true);
        } else if self.no_auto_delete {
            modifier = modifier.auto_delete(false);
        }
        modifier
    }
}

/// The submissions to make for a schedule: none if nothing changes.
pub fn set(arg: &SetSchedule) -> (r: Vec<Modification>)
    ensures
        modifications_view(r@) == arg.requested_modifications(),
{
    let mut modifications: Vec<Modification> = Vec::new();
    let modifier = arg.to_modifier();
    if !modifier.is_empty() {
        modifications.push(Modification::Schedule(modifier));
    }
    assert(modifications_view(modifications@) =~= arg.requested_modifications());
    modifications
}

/// Nothing is submitted exactly when the arguments ask for no change.
pub proof fn lemma_submits_nothing_when_nothing_is_asked(arg: SetSchedule)
    ensures
        arg.requested_modifications().len() == 0 <==> arg.asks_nothing(),
{
}

/// Which schedules to print.
#[derive(Clone, Debug, PartialEq, Eq)]
pub struct Get {
    /// Identifier of the schedule, if omitted all schedules are selected.
    pub id: Option<String>,
}

/// The schedule to create.
#[derive(Clone, Debug, PartialEq, Eq)]
pub struct Create {
    /// The name of the schedule.
    pub name: Option<String>,
    /// Sets the address of the command.
    pub address: String,
    /// Sets the request type of the command.
    pub request_type: value::ScheduleRequestType,
    /// Sets the time when the command will be executed.
    pub time: String,
    /// Sets the description of the schedule.
    pub description: Option<String>,
    /// Enables the schedule.
    pub on: bool,
    /// Disables the schedule.
    pub off: bool,
    /// Enables automatic removal of the schedule if expired.
    pub auto_delete: bool,
    /// Disables automatic removal of the schedule if expired.
    pub no_auto_delete: bool,
    /// Enables automatic removal of the schedule if not referenced anymore.
    pub recycle: bool,
    /// Disables automatic removal of the schedule if not referenced anymore.
    pub no_recycle: bool,
}

impl Create {
    /// The description of the schedule that the arguments ask for.
    pub open spec fn requested_schedule(&self) -> CreatorView {
        CreatorView {
            action: ActionView { address: self.address@, request_type: self.request_type.value },
            localtime: self.time@,
            name: option_text(self.name),
            description: option_text(self.description),
            status: requested_status(self.on, self.off),
            auto_delete: requested_switch(self.auto_delete, self.no_auto_delete),
            recycle: requested_switch(self.recycle, self.no_recycle),
        }
    }

    /// The description of the schedule to create.
    pub fn to_creator(&self) -> (r: Creator)
        ensures
            r@ == self.requested_schedule(),
    {
        let mut creator = Creator::new(
            Action { address: self.address.clone(), request_type: self.request_type.value },
            self.time.clone(),
        );
        if let Some(v) = &self.name {
            creator = creator.name(v.as_str());
        }
        if let Some(v) = &self.description {
            creator = creator.description(v.as_str());
        }
        if self.on {
            creator = creator.status(Status::Enabled);
        } else if self.off {
            creator = creator.status(Status::Disabled);
        }
        if self.auto_delete {
            creator = creator.auto_delete(true);
        } else if self.no_auto_delete {
            creator = creator.auto_delete(false);
        }
        if self.recycle {
            creator = creator.recycle(true);
        } else if self.no_recycle {
            creator = creator.recycle(false);
        }
        creator
    }
}

/// Which schedule to delete.
#[derive(Clone, Debug, PartialEq, Eq)]
pub struct Delete {
    /// Identifier of the schedule.
    pub id: String,
}

} // verus!
