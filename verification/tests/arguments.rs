use huectl::arg::value::{
    Alert, Brightness, ColorHex, ColorSpaceCoordinates, ColorTemperature, Effect, GroupClass,
    GroupTypeCreator, Hue, Saturation, SceneType, ScheduleRequestType,
};
use huectl::arg::{config, group, light, resourcelink, rule, scene, schedule, sensor};
use huectl::model;
use huectl::model::schedule::Status;
use huectl::model::{
    Adjust, Color, Coordinate, CoordinateModifierType, Modification, ModifierType, Rgb,
};

fn strings(items: &[&str]) -> Vec<String> {
    items.iter().map(|s| s.to_string()).collect()
}

fn no_light_change(id: &str) -> light::SetLight {
    light::SetLight {
        id: id.to_string(),
        on: false,
        off: false,
        brightness: None,
        hue: None,
        saturation: None,
        color_temperature: None,
        color_space_coordinates: None,
        color_rgb: None,
        color_hex: None,
        alert: None,
        effect: None,
        transition_time: None,
        name: None,
    }
}

fn no_group_change(id: &str) -> group::SetGroup {
    group::SetGroup {
        id: id.to_string(),
        on: false,
        off: false,
        brightness: None,
        hue: None,
        saturation: None,
        color_temperature: None,
        color_space_coordinates: None,
        color_rgb: None,
        color_hex: None,
        alert: None,
        effect: None,
        transition_time: None,
        name: None,
        lights: None,
        class: None,
    }
}

fn no_config_change() -> config::SetConfig {
    config::SetConfig {
        name: None,
        ip_address: None,
        netmask: None,
        gateway: None,
        dhcp: false,
        no_dhcp: false,
        proxy_port: None,
        proxy_address: None,
        no_proxy: false,
        touchlink: false,
        zigbee_channel: None,
        current_time: None,
        timezone: None,
    }
}

fn no_schedule_change(id: &str) -> schedule::SetSchedule {
    schedule::SetSchedule {
        id: id.to_string(),
        on: false,
        off: false,
        name: None,
        description: None,
        time: None,
        auto_delete: false,
        no_auto_delete: false,
    }
}

fn no_sensor_change(id: &str) -> sensor::SetSensor {
    sensor::SetSensor {
        id: id.to_string(),
        on: false,
        off: false,
        name: None,
        presence: false,
        no_presence: false,
    }
}

#[test]
fn no_flag_gives_empty_modifiers_and_no_submission() {
    let arg = no_light_change("1");
    assert!(arg.to_state_modifier().is_empty());
    assert!(arg.to_attribute_modifier().is_empty());
    assert!(light::set(&arg).is_empty());

    let arg = no_group_change("1");
    assert!(arg.to_state_modifier().is_empty());
    assert!(arg.to_attribute_modifier().is_empty());
    assert!(group::set(&arg).is_empty());

    let arg = scene::SetScene {
        id: "1".to_string(),
        name: None,
        lights: None,
        store_light_state: false,
        no_store_light_state: false,
    };
    assert!(arg.to_modifier().is_empty());
    assert!(scene::set(&arg).is_empty());

    let arg = no_schedule_change("1");
    assert!(arg.to_modifier().is_empty());
    assert!(schedule::set(&arg).is_empty());

    let arg = no_config_change();
    assert!(arg.to_modifier().is_empty());
    assert!(config::set(&arg).is_empty());

    let arg = no_sensor_change("1");
    assert!(arg.to_state_modifier().is_empty());
    assert!(arg.to_attribute_modifier().is_empty());
    assert!(arg.to_config_modifier().is_empty());
    assert!(sensor::set(&arg).is_empty());

    let arg = rule::SetRule { id: "1".to_string(), name: None };
    assert!(arg.to_modifier().is_empty());
    assert!(rule::set(&arg).is_empty());

    let arg = resourcelink::SetResourcelink {
        id: "1".to_string(),
        name: None,
        description: None,
        class_id: None,
    };
    assert!(arg.to_modifier().is_empty());
    assert!(resourcelink::set(&arg).is_empty());
}

#[test]
fn light_state_takes_every_argument() {
    let arg = light::SetLight {
        on: true,
        brightness: Some(Brightness::from_str("50").unwrap()),
        hue: Some(Hue::from_str("+1000").unwrap()),
        saturation: Some(Saturation::from_str("-10").unwrap()),
        color_temperature: Some(ColorTemperature::from_str("300").unwrap()),
        color_space_coordinates: Some(ColorSpaceCoordinates::from_str("+0.1,-0.2").unwrap()),
        alert: Some(Alert::from_str("select").unwrap()),
        effect: Some(Effect::from_str("colorloop").unwrap()),
        transition_time: Some(4),
        ..no_light_change("7")
    };
    assert_eq!(
        arg.to_state_modifier(),
        model::light::StateModifier {
            on: Some(true),
            brightness: Some(Adjust { modifier_type: ModifierType::Override, value: 128 }),
            hue: Some(Adjust { modifier_type: ModifierType::Increment, value: 1000 }),
            saturation: Some(Adjust { modifier_type: ModifierType::Decrement, value: 26 }),
            color: Some(Color::SpaceCoordinates {
                modifier_type: CoordinateModifierType::IncrementThenDecrement,
                x: Coordinate { billionths: 100_000_000 },
                y: Coordinate { billionths: 200_000_000 },
            }),
            color_temperature: Some(Adjust { modifier_type: ModifierType::Override, value: 300 }),
            alert: Some(model::Alert::Select),
            effect: Some(model::Effect::Colorloop),
            transition_time: Some(4),
        }
    );
    assert!(arg.to_attribute_modifier().is_empty());
    assert_eq!(light::set(&arg), vec![Modification::LightState(arg.to_state_modifier())]);
}

#[test]
fn on_counts_before_off() {
    let arg = light::SetLight { on: true, off: true, ..no_light_change("1") };
    assert_eq!(arg.to_state_modifier().on, Some(true));
    let arg = light::SetLight { off: true, ..no_light_change("1") };
    assert_eq!(arg.to_state_modifier().on, Some(false));
    let arg = group::SetGroup { on: true, off: true, ..no_group_change("1") };
    assert_eq!(arg.to_state_modifier().on, Some(true));
    let arg = group::SetGroup { off: true, ..no_group_change("1") };
    assert_eq!(arg.to_state_modifier().on, Some(false));
}

#[test]
fn of_the_colours_the_hexadecimal_counts_first() {
    let coordinates = ColorSpaceCoordinates::from_str("0.2,0.3").unwrap();
    let rgb = Rgb { red: 1, green: 2, blue: 3 };
    let hex = ColorHex::from_str("#0a0b0c").unwrap();
    let arg = light::SetLight {
        color_space_coordinates: Some(coordinates),
        color_rgb: Some(rgb),
        color_hex: Some(hex),
        ..no_light_change("1")
    };
    assert_eq!(
        arg.to_state_modifier().color,
        Some(Color::Rgb(Rgb { red: 10, green: 11, blue: 12 }))
    );
    let arg = light::SetLight {
        color_space_coordinates: Some(coordinates),
        color_rgb: Some(rgb),
        ..no_light_change("1")
    };
    assert_eq!(arg.to_state_modifier().color, Some(Color::Rgb(rgb)));
    let arg = group::SetGroup {
        color_space_coordinates: Some(coordinates),
        ..no_group_change("1")
    };
    assert_eq!(
        arg.to_state_modifier().color,
        Some(Color::SpaceCoordinates {
            modifier_type: CoordinateModifierType::Override,
            x: Coordinate { billionths: 200_000_000 },
            y: Coordinate { billionths: 300_000_000 },
        })
    );
}

#[test]
fn state_is_submitted_before_attributes() {
    let arg = light::SetLight { off: true, name: Some("desk".to_string()), ..no_light_change("3") };
    let plan = light::set(&arg);
    assert_eq!(
        plan,
        vec![
            Modification::LightState(model::light::StateModifier::new().on(false)),
            Modification::LightAttribute(model::light::AttributeModifier::new().name("desk")),
        ]
    );
    let arg = light::SetLight { name: Some("desk".to_string()), ..no_light_change("3") };
    assert_eq!(
        light::set(&arg),
        vec![Modification::LightAttribute(model::light::AttributeModifier::new().name("desk"))]
    );

    let arg = group::SetGroup {
        transition_time: Some(0),
        lights: Some(strings(&["1", "2"])),
        class: Some(GroupClass::from_str("Kitchen").unwrap()),
        ..no_group_change("3")
    };
    assert_eq!(
        group::set(&arg),
        vec![
            Modification::GroupState(model::group::StateModifier::new().transition_time(0)),
            Modification::GroupAttribute(
                model::group::AttributeModifier::new()
                    .lights(strings(&["1", "2"]))
                    .class(model::group::Class::Kitchen)
            ),
        ]
    );
}

#[test]
fn a_sensor_has_three_sides() {
    let arg = sensor::SetSensor {
        id: "9".to_string(),
        on: true,
        off: true,
        name: Some("door".to_string()),
        presence: false,
        no_presence: true,
    };
    assert_eq!(
        sensor::set(&arg),
        vec![
            Modification::SensorState(model::sensor::StateModifier::new().presence(false)),
            Modification::SensorAttribute(model::sensor::AttributeModifier::new().name("door")),
            Modification::SensorConfig(model::sensor::ConfigModifier::new().on(true)),
        ]
    );
    let arg = sensor::SetSensor { off: true, ..no_sensor_change("9") };
    assert_eq!(
        sensor::set(&arg),
        vec![Modification::SensorConfig(model::sensor::ConfigModifier::new().on(false))]
    );
    let arg = sensor::SetSensor { presence: true, no_presence: true, ..no_sensor_change("9") };
    assert_eq!(arg.to_state_modifier().presence, Some(true));
}

#[test]
fn scene_arguments() {
    let arg = scene::SetScene {
        id: "s".to_string(),
        name: Some("dusk".to_string()),
        lights: Some(strings(&["4"])),
        store_light_state: true,
        no_store_light_state: true,
    };
    let expected =
        model::scene::Modifier::new().name("dusk").lights(strings(&["4"])).store_light_state(true);
    assert_eq!(arg.to_modifier(), expected);
    assert_eq!(scene::set(&arg), vec![Modification::Scene(expected)]);
    let arg = scene::SetScene {
        id: "s".to_string(),
        name: None,
        lights: None,
        store_light_state: false,
        no_store_light_state: true,
    };
    assert_eq!(arg.to_modifier().store_light_state, Some(false));

    let create = scene::Create {
        name: "dusk".to_string(),
        lights: strings(&["1", "2"]),
        kind: Some(SceneType::from_str("groupscene").unwrap()),
        app_version: Some(-1),
        app_data: Some("data".to_string()),
    };
    assert_eq!(
        create.to_creator(),
        model::scene::Creator {
            name: "dusk".to_string(),
            lights: strings(&["1", "2"]),
            kind: Some(model::scene::Kind::GroupScene),
            app_version: Some(-1),
            app_data: Some("data".to_string()),
        }
    );
}

#[test]
fn schedule_arguments() {
    let arg = schedule::SetSchedule {
        on: true,
        off: true,
        name: Some("n".to_string()),
        description: Some("d".to_string()),
        time: Some("T07:00:00".to_string()),
        no_auto_delete: true,
        ..no_schedule_change("5")
    };
    assert_eq!(
        arg.to_modifier(),
        model::schedule::Modifier {
            status: Some(Status::Enabled),
            name: Some("n".to_string()),
            description: Some("d".to_string()),
            localtime: Some("T07:00:00".to_string()),
            auto_delete: Some(false),
        }
    );
    let arg = schedule::SetSchedule { off: true, ..no_schedule_change("5") };
    assert_eq!(
        schedule::set(&arg),
        vec![Modification::Schedule(model::schedule::Modifier::new().status(Status::Disabled))]
    );

    let create = schedule::Create {
        name: None,
        address: "/groups/0/action".to_string(),
        request_type: ScheduleRequestType::from_str("post").unwrap(),
        time: "T07:00:00".to_string(),
        description: None,
        on: false,
        off: true,
        auto_delete: true,
        no_auto_delete: true,
        recycle: false,
        no_recycle: true,
    };
    assert_eq!(
        create.to_creator(),
        model::schedule::Creator {
            action: model::schedule::Action {
                address: "/groups/0/action".to_string(),
                request_type: model::ActionRequestType::Post,
            },
            localtime: "T07:00:00".to_string(),
            name: None,
            description: None,
            status: Some(Status::Disabled),
            auto_delete: Some(true),
            recycle: Some(false),
        }
    );
}

#[test]
fn config_arguments() {
    let arg = config::SetConfig {
        name: Some("bridge".to_string()),
        ip_address: Some("10.0.0.2".to_string()),
        netmask: Some("255.255.255.0".to_string()),
        gateway: Some("10.0.0.1".to_string()),
        dhcp: true,
        no_dhcp: true,
        proxy_port: Some(8080),
        proxy_address: Some("10.0.0.9".to_string()),
        no_proxy: false,
        touchlink: true,
        zigbee_channel: Some(15),
        current_time: Some("2020-01-01T00:00:00".to_string()),
        timezone: Some("Europe/Berlin".to_string()),
    };
    assert_eq!(
        arg.to_modifier(),
        model::config::Modifier {
            name: Some("bridge".to_string()),
            ip_address: Some("10.0.0.2".to_string()),
            netmask: Some("255.255.255.0".to_string()),
            gateway: Some("10.0.0.1".to_string()),
            dhcp: Some(true),
            proxy_port: Some(8080),
            proxy_address: Some(Some("10.0.0.9".to_string())),
            touchlink: Some(true),
            zigbee_channel: Some(15),
            current_time: Some("2020-01-01T00:00:00".to_string()),
            timezone: Some("Europe/Berlin".to_string()),
        }
    );
}

#[test]
fn no_proxy_switches_the_proxy_off_whatever_else_is_given() {
    let arg = config::SetConfig {
        proxy_port: Some(8080),
        proxy_address: Some("10.0.0.9".to_string()),
        no_proxy: true,
        ..no_config_change()
    };
    let m = arg.to_modifier();
    assert_eq!(m.proxy_address, Some(None));
    assert_eq!(m.proxy_port, Some(0));
    let arg = config::SetConfig { no_proxy: true, ..no_config_change() };
    assert_eq!(
        config::set(&arg),
        vec![Modification::Config(model::config::Modifier::new().proxy_address(None).proxy_port(0))]
    );
    let arg = config::SetConfig { no_dhcp: true, ..no_config_change() };
    assert_eq!(arg.to_modifier().dhcp, Some(false));
    let arg = config::SetConfig { touchlink: true, ..no_config_change() };
    assert_eq!(arg.to_modifier(), model::config::Modifier::new().touchlink());
}

#[test]
fn group_creation() {
    let create = group::Create {
        name: "den".to_string(),
        lights: strings(&["1", "2"]),
        kind: Some(GroupTypeCreator::from_str("room").unwrap()),
        class: Some(GroupClass::from_str("tv").unwrap()),
    };
    assert_eq!(
        create.to_creator(),
        model::group::Creator {
            name: "den".to_string(),
            lights: strings(&["1", "2"]),
            kind: Some(model::group::CreatableKind::Room),
            class: Some(model::group::Class::TV),
        }
    );
    let create =
        group::Create { name: "den".to_string(), lights: Vec::new(), kind: None, class: None };
    assert_eq!(create.to_creator(), model::group::Creator::new("den", Vec::new()));
}

#[test]
fn rule_and_resourcelink_arguments() {
    let arg = rule::SetRule { id: "1".to_string(), name: Some("r".to_string()) };
    assert_eq!(rule::set(&arg), vec![Modification::Rule(model::rule::Modifier::new().name("r"))]);
    let create = rule::Create { name: "r".to_string() };
    assert_eq!(create.to_creator(), model::rule::Creator::new("r"));

    let arg = resourcelink::SetResourcelink {
        id: "1".to_string(),
        name: Some("l".to_string()),
        description: Some("d".to_string()),
        class_id: Some(3),
    };
    assert_eq!(
        resourcelink::set(&arg),
        vec![Modification::Resourcelink(
            model::resourcelink::Modifier::new().name("l").description("d").class_id(3)
        )]
    );
    let create = resourcelink::Create {
        name: "l".to_string(),
        class_id: 3,
        description: Some("d".to_string()),
        owner: None,
        recycle: true,
        no_recycle: true,
    };
    assert_eq!(
        create.to_creator(),
        model::resourcelink::Creator {
            name: "l".to_string(),
            class_id: 3,
            description: Some("d".to_string()),
            owner: None,
            recycle: Some(true),
        }
    );
    let create = resourcelink::Create {
        name: "l".to_string(),
        class_id: 3,
        description: None,
        owner: Some("o".to_string()),
        recycle: false,
        no_recycle: true,
    };
    let creator = create.to_creator();
    assert_eq!(creator.owner, Some("o".to_string()));
    assert_eq!(creator.recycle, Some(false));
}
