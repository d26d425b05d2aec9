use huectl::arg::{
    capabilities, config, exec, group, light, resourcelink, rule, scene, schedule, sensor, Args,
    Creation, Discover, Operation, Register, Resource, Subcommand,
};
use huectl::arg::value::ScheduleRequestType;
use huectl::model;
use huectl::model::Modification;
use huectl::submission::{Failure, Session};

fn run(subcommand: Subcommand) -> Operation {
    exec(Args { subcommand })
}

fn no_light_change(id: &str) -> light::SetLight {
    light::SetLight {
        id: id.to_string(),
        on: false,
        off: false,
        brightness: None,
        hue: None,
        saturation: None,
        color_temperature: None,
        color_space_coordinates: None,
        color_rgb: None,
        color_hex: None,
        alert: None,
        effect: None,
        transition_time: None,
        name: None,
    }
}

#[test]
fn discover_and_register() {
    assert_eq!(run(Subcommand::Discover(Discover {})), Operation::Discover);
    let register = Register { ip_address: Some("10.0.0.2".to_string()), set_env: true };
    assert_eq!(run(Subcommand::Register(register.clone())), Operation::Register(register));
}

#[test]
fn getting_one_or_all() {
    assert_eq!(
        run(Subcommand::Light(light::Arg::Get(light::Get { id: Some("1".to_string()) }))),
        Operation::Get { resource: Resource::Light, id: Some("1".to_string()) }
    );
    assert_eq!(
        run(Subcommand::Group(group::Arg::Get(group::Get { id: None }))),
        Operation::Get { resource: Resource::Group, id: None }
    );
    assert_eq!(
        run(Subcommand::Scene(scene::Arg::Get(scene::Get { id: None }))),
        Operation::Get { resource: Resource::Scene, id: None }
    );
    assert_eq!(
        run(Subcommand::Schedule(schedule::Arg::Get(schedule::Get { id: Some("2".to_string()) }))),
        Operation::Get { resource: Resource::Schedule, id: Some("2".to_string()) }
    );
    assert_eq!(
        run(Subcommand::Sensor(sensor::Arg::Get(sensor::Get { id: None }))),
        Operation::Get { resource: Resource::Sensor, id: None }
    );
    assert_eq!(
        run(Subcommand::Rule(rule::Arg::Get(rule::Get { id: None }))),
        Operation::Get { resource: Resource::Rule, id: None }
    );
    assert_eq!(
        run(Subcommand::Resourcelink(resourcelink::Arg::Get(resourcelink::Get { id: None }))),
        Operation::Get { resource: Resource::Resourcelink, id: None }
    );
    assert_eq!(
        run(Subcommand::Config(config::Arg::Get)),
        Operation::Get { resource: Resource::Config, id: None }
    );
    assert_eq!(
        run(Subcommand::Capabilities(capabilities::Arg::Get)),
        Operation::Get { resource: Resource::Capabilities, id: None }
    );
}

#[test]
fn searching_and_deleting() {
    assert_eq!(
        run(Subcommand::Light(light::Arg::Search(light::Search { get: false }))),
        Operation::Search { resource: Resource::Light }
    );
    assert_eq!(
        run(Subcommand::Light(light::Arg::Search(light::Search { get: true }))),
        Operation::GetNew { resource: Resource::Light }
    );
    assert_eq!(
        run(Subcommand::Sensor(sensor::Arg::Search(sensor::Search { get: false }))),
        Operation::Search { resource: Resource::Sensor }
    );
    assert_eq!(
        run(Subcommand::Sensor(sensor::Arg::Search(sensor::Search { get: true }))),
        Operation::GetNew { resource: Resource::Sensor }
    );
    assert_eq!(
        run(Subcommand::Light(light::Arg::Delete(light::Delete { id: "1".to_string() }))),
        Operation::Delete { resource: Resource::Light, id: "1".to_string() }
    );
    assert_eq!(
        run(Subcommand::Group(group::Arg::Delete(group::Delete { id: "2".to_string() }))),
        Operation::Delete { resource: Resource::Group, id: "2".to_string() }
    );
    assert_eq!(
        run(Subcommand::Scene(scene::Arg::Delete(scene::Delete { id: "3".to_string() }))),
        Operation::Delete { resource: Resource::Scene, id: "3".to_string() }
    );
    assert_eq!(
        run(Subcommand::Schedule(schedule::Arg::Delete(schedule::Delete { id: "4".to_string() }))),
        Operation::Delete { resource: Resource::Schedule, id: "4".to_string() }
    );
    assert_eq!(
        run(Subcommand::Sensor(sensor::Arg::Delete(sensor::Delete { id: "5".to_string() }))),
        Operation::Delete { resource: Resource::Sensor, id: "5".to_string() }
    );
    assert_eq!(
        run(Subcommand::Rule(rule::Arg::Delete(rule::Delete { id: "6".to_string() }))),
        Operation::Delete { resource: Resource::Rule, id: "6".to_string() }
    );
    assert_eq!(
        run(Subcommand::Resourcelink(resourcelink::Arg::Delete(resourcelink::Delete {
            id: "7".to_string()
        }))),
        Operation::Delete { resource: Resource::Resourcelink, id: "7".to_string() }
    );
}

#[test]
fn creating() {
    let create = group::Create {
        name: "den".to_string(),
        lights: vec!["1".to_string()],
        kind: None,
        class: None,
    };
    assert_eq!(
        run(Subcommand::Group(group::Arg::Create(create))),
        Operation::Create(Creation::Group(model::group::Creator::new("den", vec!["1".to_string()])))
    );
    let create = scene::Create {
        name: "dusk".to_string(),
        lights: Vec::new(),
        kind: None,
        app_version: None,
        app_data: None,
    };
    assert_eq!(
        run(Subcommand::Scene(scene::Arg::Create(create))),
        Operation::Create(Creation::Scene(model::scene::Creator::new("dusk", Vec::new())))
    );
    let create = schedule::Create {
        name: None,
        address: "/a".to_string(),
        request_type: ScheduleRequestType::from_str("delete").unwrap(),
        time: "T".to_string(),
        description: None,
        on: false,
        off: false,
        auto_delete: false,
        no_auto_delete: false,
        recycle: false,
        no_recycle: false,
    };
    let action = model::schedule::Action {
        address: "/a".to_string(),
        request_type: model::ActionRequestType::Delete,
    };
    assert_eq!(
        run(Subcommand::Schedule(schedule::Arg::Create(create))),
        Operation::Create(Creation::Schedule(model::schedule::Creator::new(
            action,
            "T".to_string()
        )))
    );
    assert_eq!(
        run(Subcommand::Rule(rule::Arg::Create(rule::Create { name: "r".to_string() }))),
        Operation::Create(Creation::Rule(model::rule::Creator::new("r")))
    );
    let create = resourcelink::Create {
        name: "l".to_string(),
        class_id: 1,
        description: None,
        owner: None,
        recycle: false,
        no_recycle: false,
    };
    assert_eq!(
        run(Subcommand::Resourcelink(resourcelink::Arg::Create(create))),
        Operation::Create(Creation::Resourcelink(model::resourcelink::Creator::new("l", 1)))
    );
}

#[test]
fn modifying_without_a_flag_submits_nothing() {
    let operation = run(Subcommand::Light(light::Arg::Modify(no_light_change("1"))));
    assert_eq!(operation, Operation::Modify { id: Some("1".to_string()), modifications: vec![] });
    let session = Session::new(Vec::new());
    assert!(session.pending().is_none());
    assert!(session.responses.is_empty());
    assert!(session.failure.is_none());

    let arg = rule::SetRule { id: "2".to_string(), name: None };
    assert_eq!(
        run(Subcommand::Rule(rule::Arg::Modify(arg))),
        Operation::Modify { id: Some("2".to_string()), modifications: vec![] }
    );
    let arg = config::SetConfig {
        name: None,
        ip_address: None,
        netmask: None,
        gateway: None,
        dhcp: false,
        no_dhcp: false,
        proxy_port: None,
        proxy_address: None,
        no_proxy: false,
        touchlink: false,
        zigbee_channel: None,
        current_time: None,
        timezone: None,
    };
    assert_eq!(
        run(Subcommand::Config(config::Arg::Modify(arg))),
        Operation::Modify { id: None, modifications: vec![] }
    );
}

#[test]
fn modifying_gives_the_submissions_in_order() {
    let arg = light::SetLight { on: true, name: Some("desk".to_string()), ..no_light_change("8") };
    let operation = run(Subcommand::Light(light::Arg::Modify(arg)));
    let state = Modification::LightState(model::light::StateModifier::new().on(true));
    let attribute =
        Modification::LightAttribute(model::light::AttributeModifier::new().name("desk"));
    assert_eq!(
        operation,
        Operation::Modify {
            id: Some("8".to_string()),
            modifications: vec![state.clone(), attribute.clone()],
        }
    );
}

#[test]
fn acknowledgements_are_gathered_in_order() {
    let state = Modification::LightState(model::light::StateModifier::new().on(true));
    let attribute =
        Modification::LightAttribute(model::light::AttributeModifier::new().name("desk"));
    let mut session = Session::new(vec![state.clone(), attribute.clone()]);
    assert_eq!(session.pending(), Some(&state));
    session.record(Ok(vec!["on: true".to_string()]));
    assert_eq!(session.pending(), Some(&attribute));
    assert_eq!(session.position, 1);
    session.record(Ok(vec!["name: desk".to_string(), "more".to_string()]));
    assert_eq!(session.pending(), None);
    assert_eq!(session.position, 2);
    assert_eq!(session.responses, vec!["on: true", "name: desk", "more"]);
    assert_eq!(session.failure, None);
    let before = session.clone();
    session.record(Ok(vec!["late".to_string()]));
    assert_eq!(session, before);
    session.record(Err("late".to_string()));
    assert_eq!(session, before);
}

#[test]
fn the_first_failure_ends_the_run_and_keeps_what_was_acknowledged() {
    let state = Modification::SensorState(model::sensor::StateModifier::new().presence(true));
    let attribute =
        Modification::SensorAttribute(model::sensor::AttributeModifier::new().name("door"));
    let config = Modification::SensorConfig(model::sensor::ConfigModifier::new().on(true));
    let mut session = Session::new(vec![state, attribute, config]);
    session.record(Ok(vec!["presence".to_string()]));
    session.record(Err("unreachable bridge".to_string()));
    assert_eq!(session.pending(), None);
    assert_eq!(session.position, 1);
    assert_eq!(session.responses, vec!["presence"]);
    assert_eq!(
        session.failure,
        Some(Failure {
            description: "Error occured while modifying attributes of the sensor".to_string(),
            error: "unreachable bridge".to_string(),
        })
    );
    let before = session.clone();
    session.record(Ok(vec!["config".to_string()]));
    assert_eq!(session, before);
}

#[test]
fn a_failure_of_the_first_submission_leaves_no_acknowledgement() {
    let state = Modification::GroupState(model::group::StateModifier::new().on(false));
    let mut session = Session::new(vec![state]);
    session.record(Err("no".to_string()));
    assert!(session.responses.is_empty());
    assert_eq!(session.position, 0);
    assert_eq!(
        session.failure,
        Some(Failure {
            description: "Error occured while modifying the state of the lights".to_string(),
            error: "no".to_string(),
        })
    );
    assert_eq!(session.pending(), None);
}
