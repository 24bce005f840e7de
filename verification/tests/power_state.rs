use farmcore::models::bmc::PowerState;

#[test]
fn power_states_are_read_from_the_words_of_the_controller() {
    assert_eq!(PowerState::from("On"), PowerState::On);
    assert_eq!(PowerState::from("Off".to_string()), PowerState::Off);
    assert_eq!(PowerState::from("PoweringOn"), PowerState::PoweringOn);
    assert_eq!(PowerState::from("PoweringOff"), PowerState::PoweringOff);
    assert_eq!(PowerState::from("on"), PowerState::Unknown);
    assert_eq!(PowerState::from(""), PowerState::Unknown);
    assert_eq!(PowerState::from_word("Standby"), PowerState::Unknown);
}
