use huectl::arg::value::{
    Alert, Effect, GroupClass, GroupTypeCreator, SceneType, ScheduleRequestType,
};
use huectl::model;
use huectl::model::group::{Class, CreatableKind};
use huectl::model::ActionRequestType;

#[test]
fn alert_words() {
    assert_eq!(Alert::variants(), &["select", "lselect", "none"]);
    assert_eq!(Alert::from_str("select").unwrap().value, model::Alert::Select);
    assert_eq!(Alert::from_str("lselect").unwrap().value, model::Alert::LSelect);
    assert_eq!(Alert::from_str("none").unwrap().value, model::Alert::Off);
    assert_eq!(Alert::from_str("bogus").unwrap_err().description(), "Invalid value for alert");
    assert_eq!(Alert::from_str("").unwrap_err().description(), "Invalid value for alert");
    assert_eq!(Alert::from_str("select ").unwrap_err().description(), "Invalid value for alert");
}

#[test]
fn words_are_read_in_any_case() {
    assert_eq!(Alert::from_str("SELECT").unwrap().value, model::Alert::Select);
    assert_eq!(Alert::from_str("LSelect").unwrap().value, model::Alert::LSelect);
    assert_eq!(Effect::from_str("ColorLoop").unwrap().value, model::Effect::Colorloop);
    assert_eq!(GroupClass::from_str("TV").unwrap().value, model::group::Class::TV);
    assert_eq!(GroupClass::from_str("Tv").unwrap().value, model::group::Class::TV);
    assert_eq!(GroupClass::from_str("KITCHEN").unwrap().value, model::group::Class::Kitchen);
    assert_eq!(SceneType::from_str("LightScene").unwrap().value, model::scene::Kind::LightScene);
    assert_eq!(
        ScheduleRequestType::from_str("PUT").unwrap().value,
        model::ActionRequestType::Put
    );
}

#[test]
fn a_word_names_a_value_only_in_lowercase_when_taken_as_written() {
    assert!(Alert::from_lowercase("select").is_some());
    assert!(Alert::from_lowercase("SELECT").is_none());
    assert!(Alert::from_lowercase("Select").is_none());
    assert!(GroupClass::from_lowercase("tv").is_some());
    assert!(GroupClass::from_lowercase("TV").is_none());
    assert!(Effect::from_lowercase("").is_none());
}

#[test]
fn effect_words() {
    assert_eq!(Effect::variants(), &["colorloop", "none"]);
    assert_eq!(Effect::from_str("colorloop").unwrap().value, model::Effect::Colorloop);
    assert_eq!(Effect::from_str("none").unwrap().value, model::Effect::Off);
    assert_eq!(Effect::from_str("select").unwrap_err().description(), "Invalid value for effect");
}

#[test]
fn group_kind_words() {
    assert_eq!(GroupTypeCreator::variants(), &["lightgroup", "room", "entertainment", "zone"]);
    assert_eq!(GroupTypeCreator::from_str("lightgroup").unwrap().value, CreatableKind::LightGroup);
    assert_eq!(GroupTypeCreator::from_str("room").unwrap().value, CreatableKind::Room);
    assert_eq!(
        GroupTypeCreator::from_str("entertainment").unwrap().value,
        CreatableKind::Entertainment
    );
    assert_eq!(GroupTypeCreator::from_str("zone").unwrap().value, CreatableKind::Zone);
    assert_eq!(
        GroupTypeCreator::from_str("luminaire").unwrap_err().description(),
        "Invalid value for kind"
    );
}

#[test]
fn scene_kind_words() {
    assert_eq!(SceneType::variants(), &["lightscene", "groupscene"]);
    assert_eq!(SceneType::from_str("lightscene").unwrap().value, model::scene::Kind::LightScene);
    assert_eq!(SceneType::from_str("groupscene").unwrap().value, model::scene::Kind::GroupScene);
    assert_eq!(SceneType::from_str("scene").unwrap_err().description(), "Invalid value for kind");
}

#[test]
fn request_type_words() {
    assert_eq!(ScheduleRequestType::variants(), &["put", "post", "delete"]);
    assert_eq!(ScheduleRequestType::from_str("put").unwrap().value, ActionRequestType::Put);
    assert_eq!(ScheduleRequestType::from_str("post").unwrap().value, ActionRequestType::Post);
    assert_eq!(ScheduleRequestType::from_str("delete").unwrap().value, ActionRequestType::Delete);
    assert_eq!(
        ScheduleRequestType::from_str("get").unwrap_err().description(),
        "Invalid value for request type"
    );
}

#[test]
fn group_class_words() {
    let expected = [
        ("attic", Class::Attic),
        ("balcony", Class::Balcony),
        ("barbecue", Class::Barbecue),
        ("bathroom", Class::Bathroom),
        ("bedroom", Class::Bedroom),
        ("carport", Class::Carport),
        ("closet", Class::Closet),
        ("computer", Class::Computer),
        ("dining", Class::Dining),
        ("downstairs", Class::Downstairs),
        ("driveway", Class::Driveway),
        ("frontdoor", Class::FrontDoor),
        ("garage", Class::Garage),
        ("garden", Class::Garden),
        ("guestroom", Class::GuestRoom),
        ("gym", Class::Gym),
        ("hallway", Class::Hallway),
        ("home", Class::Home),
        ("kidsbedroom", Class::KidsBedroom),
        ("kitchen", Class::Kitchen),
        ("laundryroom", Class::LaundryRoom),
        ("livingroom", Class::LivingRoom),
        ("lounge", Class::Lounge),
        ("mancave", Class::ManCave),
        ("music", Class::Music),
        ("nursery", Class::Nursery),
        ("office", Class::Office),
        ("other", Class::Other),
        ("pool", Class::Pool),
        ("porch", Class::Porch),
        ("reading", Class::Reading),
        ("recreation", Class::Recreation),
        ("staircase", Class::Staircase),
        ("storage", Class::Storage),
        ("studio", Class::Studio),
        ("tv", Class::TV),
        ("terrace", Class::Terrace),
        ("toilet", Class::Toilet),
        ("topfloor", Class::TopFloor),
        ("upstairs", Class::Upstairs),
    ];
    let variants = GroupClass::variants();
    assert_eq!(variants.len(), expected.len());
    for (i, (word, class)) in expected.iter().enumerate() {
        assert_eq!(variants[i], *word);
        assert_eq!(GroupClass::from_str(word).unwrap().value, *class);
        assert_eq!(GroupClass::from_str(&word.to_uppercase()).unwrap().value, *class);
    }
    assert_eq!(
        GroupClass::from_str("front door").unwrap_err().description(),
        "Invalid value for class"
    );
    assert_eq!(GroupClass::from_str("cellar").unwrap_err().description(), "Invalid value for class");
}

#[test]
fn every_listed_word_names_a_value_and_they_differ() {
    for w in Alert::variants() {
        assert!(Alert::from_lowercase(w).is_some());
    }
    for w in Effect::variants() {
        assert!(Effect::from_lowercase(w).is_some());
    }
    for w in GroupTypeCreator::variants() {
        assert!(GroupTypeCreator::from_lowercase(w).is_some());
    }
    for w in SceneType::variants() {
        assert!(SceneType::from_lowercase(w).is_some());
    }
    for w in ScheduleRequestType::variants() {
        assert!(ScheduleRequestType::from_lowercase(w).is_some());
    }
    let classes = GroupClass::variants();
    for (i, a) in classes.iter().enumerate() {
        for (j, b) in classes.iter().enumerate() {
            let same = GroupClass::from_lowercase(a).unwrap() == GroupClass::from_lowercase(b).unwrap();
            assert_eq!(same, i == j);
        }
    }
}
