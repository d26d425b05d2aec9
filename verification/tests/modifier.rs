use huectl::model::group::{Class, CreatableKind};
use huectl::model::schedule::{Action, Status};
use huectl::model::{
    config, group, light, resourcelink, rule, scene, schedule, sensor, ActionRequestType, Adjust,
    Alert, Color, Coordinate, CoordinateModifierType, Effect, Modification, ModifierType, Rgb,
};

fn strings(items: &[&str]) -> Vec<String> {
    items.iter().map(|s| s.to_string()).collect()
}

#[test]
fn a_new_modifier_is_empty() {
    assert!(light::StateModifier::new().is_empty());
    assert!(light::AttributeModifier::new().is_empty());
    assert!(group::StateModifier::new().is_empty());
    assert!(group::AttributeModifier::new().is_empty());
    assert!(scene::Modifier::new().is_empty());
    assert!(schedule::Modifier::new().is_empty());
    assert!(config::Modifier::new().is_empty());
    assert!(sensor::StateModifier::new().is_empty());
    assert!(sensor::AttributeModifier::new().is_empty());
    assert!(sensor::ConfigModifier::new().is_empty());
    assert!(rule::Modifier::new().is_empty());
    assert!(resourcelink::Modifier::new().is_empty());
}

#[test]
fn one_field_of_a_light_state_makes_it_non_empty() {
    let new = light::StateModifier::new;
    assert!(!new().on(true).is_empty());
    assert!(!new().on(false).is_empty());
    assert!(!new().brightness(ModifierType::Override, 0).is_empty());
    assert!(!new().hue(ModifierType::Increment, 0).is_empty());
    assert!(!new().saturation(ModifierType::Decrement, 0).is_empty());
    assert!(!new().color(Color::Rgb(Rgb { red: 0, green: 0, blue: 0 })).is_empty());
    assert!(!new().color_temperature(ModifierType::Override, 0).is_empty());
    assert!(!new().alert(Alert::Off).is_empty());
    assert!(!new().effect(Effect::Off).is_empty());
    assert!(!new().transition_time(0).is_empty());
}

#[test]
fn one_field_of_any_other_modifier_makes_it_non_empty() {
    assert!(!light::AttributeModifier::new().name("").is_empty());
    assert!(!group::AttributeModifier::new().name("a").is_empty());
    assert!(!group::AttributeModifier::new().lights(Vec::new()).is_empty());
    assert!(!group::AttributeModifier::new().class(Class::Attic).is_empty());
    assert!(!scene::Modifier::new().name("a").is_empty());
    assert!(!scene::Modifier::new().lights(strings(&["1"])).is_empty());
    assert!(!scene::Modifier::new().store_light_state(false).is_empty());
    assert!(!schedule::Modifier::new().status(Status::Disabled).is_empty());
    assert!(!schedule::Modifier::new().name("a").is_empty());
    assert!(!schedule::Modifier::new().description("a").is_empty());
    assert!(!schedule::Modifier::new().localtime("a").is_empty());
    assert!(!schedule::Modifier::new().auto_delete(false).is_empty());
    assert!(!config::Modifier::new().name("a").is_empty());
    assert!(!config::Modifier::new().ip_address("10.0.0.2").is_empty());
    assert!(!config::Modifier::new().netmask("255.255.255.0").is_empty());
    assert!(!config::Modifier::new().gateway("10.0.0.1").is_empty());
    assert!(!config::Modifier::new().dhcp(false).is_empty());
    assert!(!config::Modifier::new().proxy_port(0).is_empty());
    assert!(!config::Modifier::new().proxy_address(None).is_empty());
    assert!(!config::Modifier::new().touchlink().is_empty());
    assert!(!config::Modifier::new().zigbee_channel(11).is_empty());
    assert!(!config::Modifier::new().current_time("2020-01-01T00:00:00").is_empty());
    assert!(!config::Modifier::new().timezone("Europe/Berlin").is_empty());
    assert!(!sensor::StateModifier::new().presence(false).is_empty());
    assert!(!sensor::AttributeModifier::new().name("a").is_empty());
    assert!(!sensor::ConfigModifier::new().on(false).is_empty());
    assert!(!rule::Modifier::new().name("a").is_empty());
    assert!(!resourcelink::Modifier::new().name("a").is_empty());
    assert!(!resourcelink::Modifier::new().description("a").is_empty());
    assert!(!resourcelink::Modifier::new().class_id(0).is_empty());
}

#[test]
fn setters_fill_their_own_field_and_no_other() {
    let m = light::StateModifier::new().brightness(ModifierType::Increment, 26).on(true);
    assert_eq!(
        m,
        light::StateModifier {
            on: Some(true),
            brightness: Some(Adjust { modifier_type: ModifierType::Increment, value: 26 }),
            hue: None,
            saturation: None,
            color: None,
            color_temperature: None,
            alert: None,
            effect: None,
            transition_time: None,
        }
    );
    let m = group::AttributeModifier::new().lights(strings(&["1", "2"])).name("den");
    assert_eq!(
        m,
        group::AttributeModifier {
            name: Some("den".to_string()),
            lights: Some(strings(&["1", "2"])),
            class: None,
        }
    );
    let m = config::Modifier::new().proxy_address(Some("10.0.0.9".to_string())).touchlink();
    assert_eq!(m.proxy_address, Some(Some("10.0.0.9".to_string())));
    assert_eq!(m.touchlink, Some(true));
    assert_eq!(m.proxy_port, None);
    assert_eq!(m.name, None);
}

#[test]
fn the_last_write_to_a_field_wins() {
    let m = light::StateModifier::new().on(true).on(false);
    assert_eq!(m.on, Some(false));
    let m = light::StateModifier::new()
        .hue(ModifierType::Override, 1)
        .hue(ModifierType::Decrement, 2);
    assert_eq!(m.hue, Some(Adjust { modifier_type: ModifierType::Decrement, value: 2 }));
    let m = light::StateModifier::new()
        .color(Color::Rgb(Rgb { red: 1, green: 2, blue: 3 }))
        .color(Color::SpaceCoordinates {
            modifier_type: CoordinateModifierType::Override,
            x: Coordinate { billionths: 1 },
            y: Coordinate { billionths: 2 },
        });
    assert_eq!(
        m.color,
        Some(Color::SpaceCoordinates {
            modifier_type: CoordinateModifierType::Override,
            x: Coordinate { billionths: 1 },
            y: Coordinate { billionths: 2 },
        })
    );
    let m = rule::Modifier::new().name("a").name("b");
    assert_eq!(m.name, Some("b".to_string()));
}

#[test]
fn creators_start_with_what_they_need() {
    let c = group::Creator::new("den", strings(&["1", "2"]));
    assert_eq!(
        c,
        group::Creator {
            name: "den".to_string(),
            lights: strings(&["1", "2"]),
            kind: None,
            class: None,
        }
    );
    let c = c.kind(CreatableKind::Room).class(Class::Office);
    assert_eq!(c.kind, Some(CreatableKind::Room));
    assert_eq!(c.class, Some(Class::Office));
    assert_eq!(c.name, "den");

    let c = scene::Creator::new("dusk", strings(&["3"])).app_version(1).app_data("x");
    assert_eq!(c.name, "dusk");
    assert_eq!(c.lights, strings(&["3"]));
    assert_eq!(c.kind, None);
    assert_eq!(c.app_version, Some(1));
    assert_eq!(c.app_data, Some("x".to_string()));

    let action = Action { address: "/lights/1/state".to_string(), request_type: ActionRequestType::Put };
    let c = schedule::Creator::new(action.clone(), "W127/T07:00:00".to_string());
    assert_eq!(c.action, action);
    assert_eq!(c.localtime, "W127/T07:00:00");
    assert_eq!(c.name, None);
    assert_eq!(c.status, None);
    let c = c.name("wake").description("d").status(Status::Enabled).auto_delete(true).recycle(false);
    assert_eq!(c.name, Some("wake".to_string()));
    assert_eq!(c.description, Some("d".to_string()));
    assert_eq!(c.status, Some(Status::Enabled));
    assert_eq!(c.auto_delete, Some(true));
    assert_eq!(c.recycle, Some(false));

    assert_eq!(rule::Creator::new("r"), rule::Creator { name: "r".to_string() });

    let c = resourcelink::Creator::new("l", 7);
    assert_eq!(c.name, "l");
    assert_eq!(c.class_id, 7);
    assert_eq!(c.description, None);
    let c = c.description("d").owner("o").recycle(true);
    assert_eq!(c.description, Some("d".to_string()));
    assert_eq!(c.owner, Some("o".to_string()));
    assert_eq!(c.recycle, Some(true));
}

#[test]
fn each_submission_has_its_failure_description() {
    let cases = [
        (Modification::Config(config::Modifier::new()), "Failed to set config"),
        (
            Modification::LightState(light::StateModifier::new()),
            "Error occured while modifying the state of the light",
        ),
        (
            Modification::LightAttribute(light::AttributeModifier::new()),
            "Error occured while modifying attributes of the light",
        ),
        (
            Modification::GroupState(group::StateModifier::new()),
            "Error occured while modifying the state of the lights",
        ),
        (
            Modification::GroupAttribute(group::AttributeModifier::new()),
            "Error occured while modifying attributes of the lights",
        ),
        (Modification::Scene(scene::Modifier::new()), "Failed to set scene"),
        (Modification::Schedule(schedule::Modifier::new()), "Failed to set schedule"),
        (
            Modification::SensorState(sensor::StateModifier::new()),
            "Error occured while modifying the state of the sensor",
        ),
        (
            Modification::SensorAttribute(sensor::AttributeModifier::new()),
            "Error occured while modifying attributes of the sensor",
        ),
        (
            Modification::SensorConfig(sensor::ConfigModifier::new()),
            "Error occured while modifying the config of the sensor",
        ),
        (Modification::Rule(rule::Modifier::new()), "Failed to set rule"),
        (Modification::Resourcelink(resourcelink::Modifier::new()), "Failed to set resourcelink"),
    ];
    for (modification, description) in cases {
        assert_eq!(modification.failure_description(), description);
    }
}
