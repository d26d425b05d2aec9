use huectl::arg::value::{reconcile, ColorSpaceCoordinates};
use huectl::model::{Coordinate, CoordinateModifierType, ModifierType};

const NOTATION: &str =
    "The value must be two decimal numbers separated by a comma, each can have '-' or '+' as prefix.";
const PREFIX: &str = "Either both coordinates must have a prefix or neither of them.";
const ABSOLUTE: &str = "The coordinates must be between 0 and 1.";
const RELATIVE: &str = "The coordinates must be between 0 and 0.5 if they have a prefix.";

fn pair(modifier_type: CoordinateModifierType, x: u32, y: u32) -> ColorSpaceCoordinates {
    ColorSpaceCoordinates {
        modifier_type,
        x: Coordinate { billionths: x },
        y: Coordinate { billionths: y },
    }
}

fn rejected(s: &str) -> String {
    ColorSpaceCoordinates::from_str(s).unwrap_err().to_string()
}

#[test]
fn plain_coordinates_replace() {
    assert_eq!(
        ColorSpaceCoordinates::from_str("0.2,0.3").unwrap(),
        pair(CoordinateModifierType::Override, 200_000_000, 300_000_000)
    );
    assert_eq!(
        ColorSpaceCoordinates::from_str("0,1").unwrap(),
        pair(CoordinateModifierType::Override, 0, 1_000_000_000)
    );
}

#[test]
fn signed_coordinates_adjust() {
    assert_eq!(
        ColorSpaceCoordinates::from_str("+0.1,+0.2").unwrap(),
        pair(CoordinateModifierType::Increment, 100_000_000, 200_000_000)
    );
    assert_eq!(
        ColorSpaceCoordinates::from_str("-0.1,-0.2").unwrap(),
        pair(CoordinateModifierType::Decrement, 100_000_000, 200_000_000)
    );
    assert_eq!(
        ColorSpaceCoordinates::from_str("+0.1,-0.2").unwrap(),
        pair(CoordinateModifierType::IncrementThenDecrement, 100_000_000, 200_000_000)
    );
    assert_eq!(
        ColorSpaceCoordinates::from_str("-0.1,+0.2").unwrap(),
        pair(CoordinateModifierType::DecrementThenIncrement, 100_000_000, 200_000_000)
    );
}

#[test]
fn mixed_prefixing_is_rejected() {
    assert_eq!(rejected("+0.1,0.2"), PREFIX);
    assert_eq!(rejected("0.1,+0.2"), PREFIX);
    assert_eq!(rejected("-0.1,0.2"), PREFIX);
    assert_eq!(rejected("0.1,-0.2"), PREFIX);
}

#[test]
fn the_table_of_joint_modifier_types() {
    let replace = ModifierType::Override;
    let add = ModifierType::Increment;
    let subtract = ModifierType::Decrement;
    assert_eq!(reconcile(replace, replace), Some(CoordinateModifierType::Override));
    assert_eq!(reconcile(add, add), Some(CoordinateModifierType::Increment));
    assert_eq!(reconcile(subtract, subtract), Some(CoordinateModifierType::Decrement));
    assert_eq!(reconcile(add, subtract), Some(CoordinateModifierType::IncrementThenDecrement));
    assert_eq!(reconcile(subtract, add), Some(CoordinateModifierType::DecrementThenIncrement));
    assert_eq!(reconcile(replace, add), None);
    assert_eq!(reconcile(replace, subtract), None);
    assert_eq!(reconcile(add, replace), None);
    assert_eq!(reconcile(subtract, replace), None);
}

#[test]
fn relative_coordinates_are_bounded_by_a_half() {
    assert_eq!(rejected("+0.6,+0.1"), RELATIVE);
    assert_eq!(rejected("+0.1,+0.6"), RELATIVE);
    assert_eq!(rejected("-0.6,-0.1"), RELATIVE);
    assert_eq!(rejected("-0.1,-0.6"), RELATIVE);
    assert_eq!(rejected("+0.6,-0.1"), RELATIVE);
    assert_eq!(rejected("-0.1,+0.6"), RELATIVE);
    assert_eq!(
        ColorSpaceCoordinates::from_str("0.6,0.6").unwrap(),
        pair(CoordinateModifierType::Override, 600_000_000, 600_000_000)
    );
    assert_eq!(
        ColorSpaceCoordinates::from_str("+0.5,-0.5").unwrap(),
        pair(CoordinateModifierType::IncrementThenDecrement, 500_000_000, 500_000_000)
    );
    assert_eq!(
        ColorSpaceCoordinates::from_str("+0.50000,+.5").unwrap(),
        pair(CoordinateModifierType::Increment, 500_000_000, 500_000_000)
    );
    assert_eq!(rejected("+0.500000000000000000001,+0.1"), RELATIVE);
    assert_eq!(rejected("+0.1,+1"), RELATIVE);
}

#[test]
fn absolute_coordinates_are_bounded_by_one() {
    assert_eq!(
        ColorSpaceCoordinates::from_str("1,1.000").unwrap(),
        pair(CoordinateModifierType::Override, 1_000_000_000, 1_000_000_000)
    );
    assert_eq!(
        ColorSpaceCoordinates::from_str("0.999999999,0.0").unwrap(),
        pair(CoordinateModifierType::Override, 999_999_999, 0)
    );
    assert_eq!(rejected("1.1,0.5"), ABSOLUTE);
    assert_eq!(rejected("0.5,1.000000000000000000001"), ABSOLUTE);
    assert_eq!(rejected("2,0"), ABSOLUTE);
    assert_eq!(rejected("0,99999999999999999999999999"), ABSOLUTE);
    assert_eq!(rejected("10.0,0"), ABSOLUTE);
}

#[test]
fn digits_past_the_ninth_are_dropped() {
    assert_eq!(
        ColorSpaceCoordinates::from_str("0.1234567891,0.9999999999").unwrap(),
        pair(CoordinateModifierType::Override, 123_456_789, 999_999_999)
    );
    assert_eq!(
        ColorSpaceCoordinates::from_str("0.3333333333333333333333,0.00000000009").unwrap(),
        pair(CoordinateModifierType::Override, 333_333_333, 0)
    );
    assert_eq!(
        ColorSpaceCoordinates::from_str("+0.4999999999999,+0.25").unwrap(),
        pair(CoordinateModifierType::Increment, 499_999_999, 250_000_000)
    );
}

#[test]
fn other_notations_of_the_same_numbers() {
    assert_eq!(
        ColorSpaceCoordinates::from_str(".5,5.").unwrap_err().to_string(),
        ABSOLUTE
    );
    assert_eq!(
        ColorSpaceCoordinates::from_str(".5,0.").unwrap(),
        pair(CoordinateModifierType::Override, 500_000_000, 0)
    );
    assert_eq!(
        ColorSpaceCoordinates::from_str("000.25,0001").unwrap(),
        pair(CoordinateModifierType::Override, 250_000_000, 1_000_000_000)
    );
    assert_eq!(
        ColorSpaceCoordinates::from_str("++0.25,-+0.125").unwrap(),
        pair(CoordinateModifierType::IncrementThenDecrement, 250_000_000, 125_000_000)
    );
}

#[test]
fn what_is_no_pair_of_decimal_numbers_is_rejected() {
    for s in [
        "", ",", "0.1", "0.1,", ",0.1", "0.1,0.2,0.3", "0.1,,0.2", "a,b", "0.1;0.2", "0.1 ,0.2",
        "0.1, 0.2", ".,.", "+,+", "-,-", "0.1.2,0.3", "1e-1,0.2", "0.1,inf", "nan,nan",
        "+-0.1,+0.1", "--0.1,-0.1", "0,1,", "0․1,0.2", "０.1,0.2", "0.1,0.2é",
    ] {
        assert_eq!(rejected(s), NOTATION, "for {:?}", s);
    }
}

#[test]
fn notation_is_judged_before_prefixes_and_prefixes_before_range() {
    assert_eq!(rejected("+x,0.2"), NOTATION);
    assert_eq!(rejected("+0.9,0.2"), PREFIX);
    assert_eq!(rejected("+0.9,+0.2"), RELATIVE);
}
