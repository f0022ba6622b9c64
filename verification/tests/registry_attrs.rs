use hwmon::{
    Current, Energy, Fan, Humidity, Intrusion, Power, Pwm, SubfeatureType, Temperature, Voltage,
};

fn ratio_pair(t: SubfeatureType) -> (u64, u64) {
    let r = t.ratio();
    (r.numer(), r.denom())
}

#[test]
fn temperature_input_scales_by_milli() {
    assert_eq!(
        ratio_pair(SubfeatureType::Temperature(Temperature::Input)),
        (1, 1000)
    );
}

#[test]
fn pwm_channel_scales_by_unity() {
    assert_eq!(ratio_pair(SubfeatureType::Pwm(Pwm::Pwm)), (1, 1));
}

#[test]
fn power_ratios_follow_the_registry() {
    assert_eq!(
        ratio_pair(SubfeatureType::Power(Power::Average)),
        (1, 1000000)
    );
    assert_eq!(
        ratio_pair(SubfeatureType::Power(Power::Average_Interval)),
        (1, 1000)
    );
    assert_eq!(ratio_pair(SubfeatureType::Power(Power::Accuracy)), (1, 1));
}

#[test]
fn standalone_kinds_have_fixed_ratios() {
    assert_eq!(ratio_pair(SubfeatureType::Cpu), (1, 1000));
    assert_eq!(ratio_pair(SubfeatureType::BeepEnable), (1, 1));
}

#[test]
fn alarm_suffixes_scale_by_unity() {
    assert_eq!(
        ratio_pair(SubfeatureType::Temperature(Temperature::Alarm)),
        (1, 1)
    );
    assert_eq!(
        ratio_pair(SubfeatureType::Voltage(Voltage::Max_Alarm)),
        (1, 1)
    );
}

#[test]
fn intrusion_entries_scale_by_micro() {
    assert_eq!(
        ratio_pair(SubfeatureType::Intrusion(Intrusion::Alarm)),
        (1, 1000000)
    );
    assert_eq!(
        ratio_pair(SubfeatureType::Intrusion(Intrusion::Beep)),
        (1, 1000000)
    );
}

#[test]
fn energy_and_humidity_input_ratios() {
    assert_eq!(
        ratio_pair(SubfeatureType::Energy(Energy::Input)),
        (1, 1000000)
    );
    assert_eq!(
        ratio_pair(SubfeatureType::Humidity(Humidity::Input)),
        (1, 1000)
    );
}

#[test]
fn alarm_flag_is_true_for_flagged_variants() {
    assert!(SubfeatureType::Temperature(Temperature::Alarm).is_alarm());
    assert!(SubfeatureType::Temperature(Temperature::Crit_Min_Alarm).is_alarm());
    assert!(SubfeatureType::Voltage(Voltage::Max_Alarm).is_alarm());
    assert!(SubfeatureType::Current(Current::Crit_Max_Alarm).is_alarm());
    assert!(SubfeatureType::Fan(Fan::Alarm).is_alarm());
    assert!(SubfeatureType::Power(Power::Cap_Alarm).is_alarm());
}

#[test]
fn alarm_flag_is_false_for_all_others() {
    assert!(!SubfeatureType::Temperature(Temperature::Input).is_alarm());
    assert!(!SubfeatureType::Temperature(Temperature::Fault).is_alarm());
    assert!(!SubfeatureType::Fan(Fan::Fault).is_alarm());
    assert!(!SubfeatureType::Fan(Fan::Beep).is_alarm());
    assert!(!SubfeatureType::Pwm(Pwm::Enable).is_alarm());
    assert!(!SubfeatureType::Cpu.is_alarm());
    assert!(!SubfeatureType::BeepEnable.is_alarm());
    // the intrusion table registers its alarm file without the alarm flag
    assert!(!SubfeatureType::Intrusion(Intrusion::Alarm).is_alarm());
}

#[test]
fn subfeature_types_order_totally() {
    let mut v = vec![
        SubfeatureType::BeepEnable,
        SubfeatureType::Temperature(Temperature::Input),
        SubfeatureType::Fan(Fan::Input),
        SubfeatureType::Cpu,
    ];
    v.sort();
    assert_eq!(
        v,
        vec![
            SubfeatureType::Fan(Fan::Input),
            SubfeatureType::Temperature(Temperature::Input),
            SubfeatureType::Cpu,
            SubfeatureType::BeepEnable,
        ]
    );
}
