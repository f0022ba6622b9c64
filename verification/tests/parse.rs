use hwmon::{Current, Fan, Power, Pwm, Subfeature, SubfeatureError, SubfeatureType, Temperature, Voltage};

#[test]
fn temp1_input_parses_to_temperature_input() {
    assert_eq!(
        Subfeature::get_properties_from_name("temp1_input"),
        Ok((1, SubfeatureType::Temperature(Temperature::Input)))
    );
}

#[test]
fn pwm2_parses_to_bare_pwm_channel() {
    assert_eq!(
        Subfeature::get_properties_from_name("pwm2"),
        Ok((2, SubfeatureType::Pwm(Pwm::Pwm)))
    );
}

#[test]
fn beep_enable_parses_to_instance_zero() {
    assert_eq!(
        Subfeature::get_properties_from_name("beep_enable"),
        Ok((0, SubfeatureType::BeepEnable))
    );
}

#[test]
fn unregistered_class_prefix_is_unknown() {
    assert_eq!(
        Subfeature::get_properties_from_name("foo1_bar"),
        Err(SubfeatureError::Unknown)
    );
}

#[test]
fn head_without_digit_is_invalid() {
    assert_eq!(
        Subfeature::get_properties_from_name("temp_bar"),
        Err(SubfeatureError::Invalid)
    );
}

#[test]
fn registered_pairs_parse_across_classes() {
    assert_eq!(
        Subfeature::get_properties_from_name("fan3_min_alarm"),
        Ok((3, SubfeatureType::Fan(Fan::Min_Alarm)))
    );
    assert_eq!(
        Subfeature::get_properties_from_name("in0_lcrit"),
        Ok((0, SubfeatureType::Voltage(Voltage::Crit_Min)))
    );
    assert_eq!(
        Subfeature::get_properties_from_name("curr7_crit"),
        Ok((7, SubfeatureType::Current(Current::Crit_Max)))
    );
    assert_eq!(
        Subfeature::get_properties_from_name("cpu0_vid"),
        Ok((0, SubfeatureType::Cpu))
    );
    assert_eq!(
        Subfeature::get_properties_from_name("energy1_input"),
        Ok((1, SubfeatureType::Energy(hwmon::Energy::Input)))
    );
    assert_eq!(
        Subfeature::get_properties_from_name("humidity1_input"),
        Ok((1, SubfeatureType::Humidity(hwmon::Humidity::Input)))
    );
    assert_eq!(
        Subfeature::get_properties_from_name("intrusion0_alarm"),
        Ok((0, SubfeatureType::Intrusion(hwmon::Intrusion::Alarm)))
    );
}

#[test]
fn suffix_with_more_underscores_is_matched_verbatim() {
    assert_eq!(
        Subfeature::get_properties_from_name("power12_average_interval_max"),
        Ok((12, SubfeatureType::Power(Power::Average_Interval_Max)))
    );
    assert_eq!(
        Subfeature::get_properties_from_name("temp2_crit_hyst"),
        Ok((2, SubfeatureType::Temperature(Temperature::Crit_Max_Hyst)))
    );
}

#[test]
fn trailing_underscore_means_empty_suffix() {
    assert_eq!(
        Subfeature::get_properties_from_name("pwm3_"),
        Ok((3, SubfeatureType::Pwm(Pwm::Pwm)))
    );
    assert_eq!(
        Subfeature::get_properties_from_name("fan3_"),
        Err(SubfeatureError::Unknown)
    );
}

#[test]
fn bare_name_needs_empty_suffix_variant() {
    assert_eq!(
        Subfeature::get_properties_from_name("fan2"),
        Err(SubfeatureError::Unknown)
    );
    assert_eq!(
        Subfeature::get_properties_from_name("temp4"),
        Err(SubfeatureError::Unknown)
    );
}

#[test]
fn largest_instance_number_parses() {
    assert_eq!(
        Subfeature::get_properties_from_name("temp4294967295_input"),
        Ok((4294967295, SubfeatureType::Temperature(Temperature::Input)))
    );
}

#[test]
fn instance_number_overflow_is_invalid() {
    assert_eq!(
        Subfeature::get_properties_from_name("temp4294967296_input"),
        Err(SubfeatureError::Invalid)
    );
    assert_eq!(
        Subfeature::get_properties_from_name("temp99999999999999999999_input"),
        Err(SubfeatureError::Invalid)
    );
}

#[test]
fn non_digit_inside_instance_number_is_invalid() {
    assert_eq!(
        Subfeature::get_properties_from_name("temp1a_input"),
        Err(SubfeatureError::Invalid)
    );
}

#[test]
fn leading_zeros_in_instance_number_are_accepted() {
    assert_eq!(
        Subfeature::get_properties_from_name("temp007_input"),
        Ok((7, SubfeatureType::Temperature(Temperature::Input)))
    );
}

#[test]
fn unregistered_suffix_is_unknown() {
    assert_eq!(
        Subfeature::get_properties_from_name("temp1_inputx"),
        Err(SubfeatureError::Unknown)
    );
    assert_eq!(
        Subfeature::get_properties_from_name("pwm1_modes"),
        Err(SubfeatureError::Unknown)
    );
}

#[test]
fn name_of_digits_only_has_empty_prefix() {
    assert_eq!(
        Subfeature::get_properties_from_name("1_input"),
        Err(SubfeatureError::Unknown)
    );
}

#[test]
fn empty_name_is_invalid() {
    assert_eq!(
        Subfeature::get_properties_from_name(""),
        Err(SubfeatureError::Invalid)
    );
}
