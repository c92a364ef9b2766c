use fab::tasks::Priority;
use fab::FabError;

#[test]
fn test_get_value_for_name() {
    let priority = "unbreak-now";
    assert_eq!(100, Priority::get_value_for_name(&priority.to_string()).unwrap_or(-1));

    let priority = "high";
    assert_eq!(80, Priority::get_value_for_name(&priority.to_string()).unwrap_or(80));

    let priority = "needs-triage";
    assert_eq!(90, Priority::get_value_for_name(&priority.to_string()).unwrap_or(90));

    let priority = "normal";
    assert_eq!(50, Priority::get_value_for_name(&priority.to_string()).unwrap_or(50));

    let priority = "low";
    assert_eq!(25, Priority::get_value_for_name(&priority.to_string()).unwrap_or(25));

    let priority = "wishlist";
    assert_eq!(0, Priority::get_value_for_name(&priority.to_string()).unwrap_or(0));
}

#[test]
fn encode_decode_round_trip_over_all_six_names() {
    let names = ["unbreak-now", "needs-triage", "high", "normal", "low", "wishlist"];
    for name in names {
        let value = Priority::get_value_for_name(name).unwrap();
        let back = Priority::get_name_for_value(value).unwrap();
        assert_eq!(name, back);
    }
}

#[test]
fn decode_encode_round_trip_over_all_six_values() {
    let values = [100, 90, 80, 50, 25, 0];
    for value in values {
        let name = Priority::get_name_for_value(value).unwrap();
        let back = Priority::get_value_for_name(&name).unwrap();
        assert_eq!(value, back);
    }
}

#[test]
fn seventh_name_is_a_validation_error() {
    assert!(matches!(Priority::get_value_for_name("urgent"), Err(FabError::Validation)));
    assert!(matches!(Priority::get_value_for_name(""), Err(FabError::Validation)));
}

#[test]
fn seventh_value_is_a_validation_error() {
    assert!(matches!(Priority::get_name_for_value(42), Err(FabError::Validation)));
    assert!(matches!(Priority::get_name_for_value(-1), Err(FabError::Validation)));
}

#[test]
fn name_is_trimmed_before_encoding() {
    assert_eq!(80, Priority::get_value_for_name("  high\n").unwrap());
}
