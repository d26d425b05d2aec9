use crate::model::ActionRequestType;
use crate::text::option_text;
use vstd::prelude::*;

verus! {

/// Whether a schedule is in force.
#[derive(Clone, Copy, Debug, PartialEq, Eq, Structural)]
pub enum Status {
    Enabled,
    Disabled,
}

/// The command that a schedule runs: the address that it is sent to and the
/// request method. It is sent with an empty body.
#[derive(Clone, Debug, PartialEq, Eq)]
pub struct Action {
    pub address: String,
    pub request_type: ActionRequestType,
}

/// What a command holds, as plain values.
pub struct ActionView {
    pub address: Seq<char>,
    pub request_type: ActionRequestType,
}

impl View for Action {
    type V = ActionView;

    open spec fn view(&self) -> ActionView {
        ActionView { address: self.address@, request_type: self.request_type }
    }
}

/// The changes to make to a schedule.
#[derive(Clone, Debug, PartialEq, Eq)]
pub struct Modifier {
    pub status: Option<Status>,
    pub name: Option<String>,
    pub description: Option<String>,
    pub localtime: Option<String>,
    pub auto_delete: Option<bool>,
}

/// What a change of a schedule holds, as plain values.
pub struct ModifierView {
    pub status: Option<Status>,
    pub name: Option<Seq<char>>,
    pub description: Option<Seq<char>>,
    pub localtime: Option<Seq<char>>,
    pub auto_delete: Option<bool>,
}

impl View for Modifier {
    type V = ModifierView;

    open spec fn view(&self) -> ModifierView {
        ModifierView {
            status: self.status,
            name: option_text(self.name),
            description: option_text(self.description),
            localtime: option_text(self.localtime),
            auto_delete: self.auto_delete,
        }
    }
}

impl Modifier {
    /// Whether no field is set: applying the record changes nothing.
    pub open spec fn is_unset(&self) -> bool {
        &&& self.status is None
        &&& self.name is None
        &&& self.description is None
        &&& self.localtime is None
        &&& self.auto_delete is None
    }

    /// A record with no field set.
    pub fn new() -> (r: Self)
        ensures
            r.is_unset(),
    {
        Self { status: None, name: None, description: None, localtime: None, auto_delete: None }
    }

    /// Whether no field is set.
    pub fn is_empty(&self) -> (r: bool)
        ensures
            r == self.is_unset(),
    {
        self.status.is_none()
            && self.name.is_none()
            && self.description.is_none()
            && self.localtime.is_none()
            && self.auto_delete.is_none()
    }

    /// Enables or disables the schedule.
    pub fn status(self, value: Status) -> (r: Self)
        ensures
            r@ == (ModifierView { status: Some(value), ..self@ }),
            !r.is_unset(),
    {
        Self { status: Some(value), ..self }
    }

    /// Renames the schedule.
    pub fn name(self, value: &str) -> (r: Self)
        ensures
            r@ == (ModifierView { name: Some(value@), ..self@ }),
            !r.is_unset(),
    {
        Self { name: Some(value.to_owned()), ..self }
    }

    /// Sets the description.
    pub fn description(self, value: &str) -> (r: Self)
        ensures
            r@ == (ModifierView { description: Some(value@), ..self@ }),
            !r.is_unset(),
    {
        Self { description: Some(value.to_owned()), ..self }
    }

    /// Sets the time at which the command runs.
    pub fn localtime(self, value: &str) -> (r: Self)
        ensures
            r@ == (ModifierView { localtime: Some(value@), ..self@ }),
            !r.is_unset(),
    {
        Self { localtime: Some(value.to_owned()), ..self }
    }

    /// Sets whether the schedule is removed once it has expired.
    pub fn auto_delete(self, value: bool) -> (r: Self)
        ensures
            r@ == (ModifierView { auto_delete: Some(value), ..self@ }),
            !r.is_unset(),
    {
        Self { auto_delete: Some(value), ..self }
    }
}

/// What a new schedule is made of.
#[derive(Clone, Debug, PartialEq, Eq)]
pub struct Creator {
    pub action: Action,
    pub localtime: String,
    pub name: Option<String>,
    pub description: Option<String>,
    pub status: Option<Status>,
    pub auto_delete: Option<bool>,
    pub recycle: Option<bool>,
}

/// What the description of a new schedule holds, as plain values.
pub struct CreatorView {
    pub action: ActionView,
    pub localtime: Seq<char>,
    pub name: Option<Seq<char>>,
    pub description: Option<Seq<char>>,
    pub status: Option<Status>,
    pub auto_delete: Option<bool>,
    pub recycle: Option<bool>,
}

impl View for Creator {
    type V = CreatorView;

    open spec fn view(&self) -> CreatorView {
        CreatorView {
            action: self.action@,
            localtime: self.localtime@,
            name: option_text(self.name),
            description: option_text(self.description),
            status: self.status,
            auto_delete: self.auto_delete,
            recycle: self.recycle,
        }
    }
}

impl Creator {
    /// A schedule that runs a command at a time.
    pub fn new(action: Action, localtime: String) -> (r: Self)
        ensures
            r@ == (CreatorView {
                action: action@,
                localtime: localtime@,
                name: None,
                description: None,
                status: None,
                auto_delete: None,
                recycle: None,
            }),
    {
        Self {
            action,
            localtime,
            name: None,
            description: None,
            status: None,
            auto_delete: None,
            recycle: None,
        }
    }

    /// Names the schedule.
    pub fn name(self, value: &str) -> (r: Self)
        ensures
            r@ == (CreatorView { name: Some(value@), ..self@ }),
    {
        Self { name: Some(value.to_owned()), ..self }
    }

    /// Sets the description.
    pub fn description(self, value: &str) -> (r: Self)
        ensures
            r@ == (CreatorView { description: Some(value@), ..self@ }),
    {
        Self { description: Some(value.to_owned()), ..self }
    }

    /// Enables or disables the schedule.
    pub fn status(self, value: Status) -> (r: Self)
        ensures
            r@ == (CreatorView { status: Some(value), ..self@ }),
    {
        Self { status: Some(value), ..self }
    }

    /// Sets whether the schedule is removed once it has expired.
    pub fn auto_delete(self, value: bool) -> (r: Self)
        ensures
            r@ == (CreatorView { auto_delete: Some(value), ..self@ }),
    {
        Self { auto_delete: Some(value), ..self }
    }

    /// Sets whether the schedule is removed once nothing refers to it.
    pub fn recycle(self, value: bool) -> (r: Self)
        ensures
            r@ == (CreatorView { recycle: Some(value), ..self@ }),
    {
        Self { recycle: Some(value), ..self }
    }
}

} // verus!
