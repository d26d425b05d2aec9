pub mod capabilities;
pub mod config;
pub mod group;
pub mod light;
pub mod resourcelink;
pub mod rule;
pub mod scene;
pub mod schedule;
pub mod sensor;
pub mod value;

use crate::model::{modifications_view, Modification};
use crate::numeral::{decimal_digits, render_decimal};
use vstd::prelude::*;
use vstd::string::*;

verus! {

/// What a rejected value is answered with: a description of what the value
/// should have been.
#[derive(Clone, Debug)]
pub struct ParseError {
    description: String,
}

impl View for ParseError {
    type V = Seq<char>;

    closed spec fn view(&self) -> Seq<char> {
        self.description@
    }
}

/// The description that tells of an integer between 0 and `max_value` with
/// an optional sign before it.
pub open spec fn integer_value_message(max_value: nat) -> Seq<char> {
    "The value must be an integer between 0 and "@ + decimal_digits(max_value)
        + " and can have '-' or '+' as prefix."@
}

impl ParseError {
    /// An error with the given description.
    pub fn new(description: &str) -> (e: Self)
        ensures
            e@ == description@,
    {
        Self { description: description.to_owned() }
    }

    /// The error for a value that is no integer between 0 and `max_value`.
    pub fn from_integer_value(max_value: u64) -> (e: Self)
        ensures
            e@ == integer_value_message(max_value as nat),
    {
        let mut description = "The value must be an integer between 0 and ".to_owned();
        let digits = render_decimal(max_value);
        description.append(digits.as_str());
        description.append(" and can have '-' or '+' as prefix.");
        Self { description }
    }

    /// The description that the error carries.
    pub fn description(&self) -> (r: &str)
        ensures
            r@ == self@,
    {
        self.description.as_str()
    }

    /// The description as an owned string.
    pub fn to_string(&self) -> (r: String)
        ensures
            r@ == self@,
    {
        self.description.clone()
    }
}

/// The arguments of one run.
#[derive(Clone, Debug, PartialEq, Eq)]
pub struct Args {
    pub subcommand: Subcommand,
}

/// What one run is asked to do.
#[derive(Clone, Debug, PartialEq, Eq)]
pub enum Subcommand {
    /// Discovers bridges in the local network.
    Discover(Discover),
    /// Registers a new user on a bridge.
    Register(Register),
    /// Modifies or prints the bridge configuration.
    Config(config::Arg),
    /// Modifies, prints, searches or deletes lights.
    Light(light::Arg),
    /// Modifies, prints, creates or deletes groups.
    Group(group::Arg),
    /// Modifies, prints, creates or deletes scenes.
    Scene(scene::Arg),
    /// Prints capabilities of resources.
    Capabilities(capabilities::Arg),
    /// Modifies, prints, creates or deletes schedules.
    Schedule(schedule::Arg),
    /// Modifies, prints, searches or deletes sensors.
    Sensor(sensor::Arg),
    /// Modifies, prints, creates or deletes rules.
    Rule(rule::Arg),
    /// Modifies, prints, creates or deletes resourcelinks.
    Resourcelink(resourcelink::Arg),
}

/// Discovers bridges in the local network.
#[derive(Clone, Copy, Debug, PartialEq, Eq)]
pub struct Discover {}

/// Registers a new user on a bridge.
#[derive(Clone, Debug, PartialEq, Eq)]
pub struct Register {
    /// IP address of the bridge as it is written; if omitted the user is
    /// registered on the first discovered bridge.
    pub ip_address: Option<String>,
    /// Sets environment variables for the current session.
    pub set_env: bool,
}

/// The kinds of resource that a bridge holds.
#[derive(Clone, Copy, Debug, PartialEq, Eq, Structural)]
pub enum Resource {
    Config,
    Light,
    Group,
    Scene,
    Capabilities,
    Schedule,
    Sensor,
    Rule,
    Resourcelink,
}

/// The description of a resource to create.
#[derive(Clone, Debug, PartialEq, Eq)]
pub enum Creation {
    Group(crate::model::group::Creator),
    Scene(crate::model::scene::Creator),
    Schedule(crate::model::schedule::Creator),
    Rule(crate::model::rule::Creator),
    Resourcelink(crate::model::resourcelink::Creator),
}

/// What is asked of the bridge in one run.
#[derive(Clone, Debug, PartialEq, Eq)]
pub enum Operation {
    /// Look for bridges in the local network.
    Discover,
    /// Register a new user on a bridge.
    Register(Register),
    /// Fetch one resource of a kind, or all of them where `id` is `None`.
    Get { resource: Resource, id: Option<String> },
    /// Start a search for new resources of a kind.
    Search { resource: Resource },
    /// Fetch the resources that the last search found.
    GetNew { resource: Resource },
    /// Create a resource.
    Create(Creation),
    /// Delete one resource of a kind.
    Delete { resource: Resource, id: String },
    /// Make the submissions of the list, in order, to the resource with the
    /// identifier `id`. The configuration of the bridge has no identifier.
    Modify { id: Option<String>, modifications: Vec<Modification> },
}

/// Whether getting a resource of the kind `resource`, or all of them where
/// `id` is `None`, is what `operation` asks for.
pub open spec fn gets(operation: Operation, resource: Resource, id: Option<String>) -> bool {
    operation == (Operation::Get { resource, id })
}

/// Whether deleting the resource `id` of the kind `resource` is what
/// `operation` asks for.
pub open spec fn deletes(operation: Operation, resource: Resource, id: String) -> bool {
    operation == (Operation::Delete { resource, id })
}

/// Whether `operation` asks to start a search for resources of the kind
/// `resource`, or for what the last search found where `get` is set.
pub open spec fn searches(operation: Operation, resource: Resource, get: bool) -> bool {
    operation == if get {
        Operation::GetNew { resource }
    } else {
        Operation::Search { resource }
    }
}

/// Whether `operation` asks to make the submissions `modifications` to the
/// resource `id`.
pub open spec fn modifies(
    operation: Operation,
    id: Option<String>,
    modifications: Seq<crate::model::ModificationView>,
) -> bool {
    match operation {
        Operation::Modify { id: to, modifications: list } => to == id && modifications_view(
            list@,
        ) == modifications,
        _ => false,
    }
}

/// Whether `operation` is what the arguments `args` ask for.
pub open spec fn performs(args: Args, operation: Operation) -> bool {
    match args.subcommand {
        Subcommand::Discover(_) => operation == Operation::Discover,
        Subcommand::Register(v) => operation == Operation::Register(v),
        Subcommand::Config(v) => match v {
            config::Arg::Modify(v) => modifies(operation, None, v.requested_modifications()),
            config::Arg::Get => gets(operation, Resource::Config, None),
        },
        Subcommand::Light(v) => match v {
            light::Arg::Modify(v) => modifies(operation, Some(v.id), v.requested_modifications()),
            light::Arg::Get(v) => gets(operation, Resource::Light, v.id),
            light::Arg::Search(v) => searches(operation, Resource::Light, v.get),
            light::Arg::Delete(v) => deletes(operation, Resource::Light, v.id),
        },
        Subcommand::Group(v) => match v {
            group::Arg::Modify(v) => modifies(operation, Some(v.id), v.requested_modifications()),
            group::Arg::Get(v) => gets(operation, Resource::Group, v.id),
            group::Arg::Create(v) => operation matches Operation::Create(Creation::Group(c))
                && c@ == v.requested_group(),
            group::Arg::Delete(v) => deletes(operation, Resource::Group, v.id),
        },
        Subcommand::Scene(v) => match v {
            scene::Arg::Modify(v) => modifies(operation, Some(v.id), v.requested_modifications()),
            scene::Arg::Get(v) => gets(operation, Resource::Scene, v.id),
            scene::Arg::Create(v) => operation matches Operation::Create(Creation::Scene(c))
                && c@ == v.requested_scene(),
            scene::Arg::Delete(v) => deletes(operation, Resource::Scene, v.id),
        },
        Subcommand::Capabilities(v) => gets(operation, Resource::Capabilities, None),
        Subcommand::Schedule(v) => match v {
            schedule::Arg::Modify(v) => modifies(
                operation,
                Some(v.id),
                v.requested_modifications(),
            ),
            schedule::Arg::Get(v) => gets(operation, Resource::Schedule, v.id),
            schedule::Arg::Create(v) => operation matches Operation::Create(Creation::Schedule(c))
                && c@ == v.requested_schedule(),
            schedule::Arg::Delete(v) => deletes(operation, Resource::Schedule, v.id),
        },
        Subcommand::Sensor(v) => match v {
            sensor::Arg::Modify(v) => modifies(operation, Some(v.id), v.requested_modifications()),
            sensor::Arg::Get(v) => gets(operation, Resource::Sensor, v.id),
            sensor::Arg::Search(v) => searches(operation, Resource::Sensor, v.get),
            sensor::Arg::Delete(v) => deletes(operation, Resource::Sensor, v.id),
        },
        Subcommand::Rule(v) => match v {
            rule::Arg::Modify(v) => modifies(operation, Some(v.id), v.requested_modifications()),
            rule::Arg::Get(v) => gets(operation, Resource::Rule, v.id),
            rule::Arg::Create(v) => operation matches Operation::Create(Creation::Rule(c)) && c@
                == v.requested_rule(),
            rule::Arg::Delete(v) => deletes(operation, Resource::Rule, v.id),
        },
        Subcommand::Resourcelink(v) => match v {
            resourcelink::Arg::Modify(v) => modifies(
                operation,
                Some(v.id),
                v.requested_modifications(),
            ),
            resourcelink::Arg::Get(v) => gets(operation, Resource::Resourcelink, v.id),
            resourcelink::Arg::Create(v) => operation matches Operation::Create(
                Creation::Resourcelink(c),
            ) && c@ == v.requested_resourcelink(),
            resourcelink::Arg::Delete(v) => deletes(operation, Resource::Resourcelink, v.id),
        },
    }
}

fn search_operation(resource: Resource, get: bool) -> (r: Operation)
    ensures
        searches(r, resource, get),
{
    if get {
        Operation::GetNew { resource }
    } else {
        Operation::Search { resource }
    }
}

/// What to ask of the bridge for the arguments of a run. Changes are turned
/// into the submissions to make; where the arguments ask for no change, the
/// list of submissions is empty and nothing is to be sent.
pub fn exec(args: Args) -> (r: Operation)
    ensures
        performs(args, r),
{
    match args.subcommand {
        Subcommand::Discover(_) => Operation::Discover,
        Subcommand::Register(v) => Operation::Register(v),
        Subcommand::Config(v) => match v {
            config::Arg::Modify(v) => {
                let modifications = config::set(&v);
                Operation::Modify { id: None, modifications }
            },
            config::Arg::Get => Operation::Get { resource: Resource::Config, id: None },
        },
        Subcommand::Light(v) => match v {
            light::Arg::Modify(v) => {
                let modifications = light::set(&v);
                Operation::Modify { id: Some(v.id), modifications }
            },
            light::Arg::Get(v) => Operation::Get { resource: Resource::Light, id: v.id },
            light::Arg::Search(v) => search_operation(Resource::Light, v.get),
            light::Arg::Delete(v) => Operation::Delete { resource: Resource::Light, id: v.id },
        },
        Subcommand::Group(v) => match v {
            group::Arg::Modify(v) => {
                let modifications = group::set(&v);
                Operation::Modify { id: Some(v.id), modifications }
            },
            group::Arg::Get(v) => Operation::Get { resource: Resource::Group, id: v.id },
            group::Arg::Create(v) => Operation::Create(Creation::Group(v.to_creator())),
            group::Arg::Delete(v) => Operation::Delete { resource: Resource::Group, id: v.id },
        },
        Subcommand::Scene(v) => match v {
            scene::Arg::Modify(v) => {
                let modifications = scene::set(&v);
                Operation::Modify { id: Some(v.id), modifications }
            },
            scene::Arg::Get(v) => Operation::Get { resource: Resource::Scene, id: v.id },
            scene::Arg::Create(v) => Operation::Create(Creation::Scene(v.to_creator())),
            scene::Arg::Delete(v) => Operation::Delete { resource: Resource::Scene, id: v.id },
        },
        Subcommand::Capabilities(_) => Operation::Get {
            resource: Resource::Capabilities,
            id: None,
        },
        Subcommand::Schedule(v) => match v {
            schedule::Arg::Modify(v) => {
                let modifications = schedule::set(&v);
                Operation::Modify { id: Some(v.id), modifications }
            },
            schedule::Arg::Get(v) => Operation::Get { resource: Resource::Schedule, id: v.id },
            schedule::Arg::Create(v) => Operation::Create(Creation::Schedule(v.to_creator())),
            schedule::Arg::Delete(v) => Operation::Delete {
                resource: Resource::Schedule,
                id: v.id,
            },
        },
        Subcommand::Sensor(v) => match v {
            sensor::Arg::Modify(v) => {
                let modifications = sensor::set(&v);
                Operation::Modify { id: Some(v.id), modifications }
            },
            sensor::Arg::Get(v) => Operation::Get { resource: Resource::Sensor, id: v.id },
            sensor::Arg::Search(v) => search_operation(Resource::Sensor, v.get),
            sensor::Arg::Delete(v) => Operation::Delete { resource: Resource::Sensor, id: v.id },
        },
        Subcommand::Rule(v) => match v {
            rule::Arg::Modify(v) => {
                let modifications = rule::set(&v);
                Operation::Modify { id: Some(v.id), modifications }
            },
            rule::Arg::Get(v) => Operation::Get { resource: Resource::Rule, id: v.id },
            rule::Arg::Create(v) => Operation::Create(Creation::Rule(v.to_creator())),
            rule::Arg::Delete(v) => Operation::Delete { resource: Resource::Rule, id: v.id },
        },
        Subcommand::Resourcelink(v) => match v {
            resourcelink::Arg::Modify(v) => {
                let modifications = resourcelink::set(&v);
                Operation::Modify { id: Some(v.id), modifications }
            },
            resourcelink::Arg::Get(v) => Operation::Get {
                resource: Resource::Resourcelink,
                id: v.id,
            },
            resourcelink::Arg::Create(v) => Operation::Create(
                Creation::Resourcelink(v.to_creator()),
            ),
            resourcelink::Arg::Delete(v) => Operation::Delete {
                resource: Resource::Resourcelink,
                id: v.id,
            },
        },
    }
}

} // verus!
