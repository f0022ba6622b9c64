use hwmon::{Subfeature, SubfeatureError, SubfeatureType, Temperature};

#[test]
fn from_parts_keeps_name_path_and_type() {
    let (number, sf) = Subfeature::from_parts(
        "temp1_input".to_string(),
        "/sys/class/hwmon/hwmon0/temp1_input".to_string(),
        0o644,
    )
    .unwrap();
    assert_eq!(number, 1);
    assert_eq!(sf.name(), "temp1_input");
    assert_eq!(sf.path(), "/sys/class/hwmon/hwmon0/temp1_input");
    assert_eq!(
        sf.get_type(),
        SubfeatureType::Temperature(Temperature::Input)
    );
    assert_eq!(sf.compute_statement(), None);
}

#[test]
fn mode_bits_drive_the_capability_snapshot() {
    let (_, rw) =
        Subfeature::from_parts("temp1_input".to_string(), "p".to_string(), 0o644).unwrap();
    assert!(rw.is_readable());
    assert!(rw.is_writable());

    let (_, ro) =
        Subfeature::from_parts("temp1_input".to_string(), "p".to_string(), 0o444).unwrap();
    assert!(ro.is_readable());
    assert!(!ro.is_writable());

    let (_, wo) =
        Subfeature::from_parts("temp1_input".to_string(), "p".to_string(), 0o200).unwrap();
    assert!(!wo.is_readable());
    assert!(wo.is_writable());

    let (_, none) =
        Subfeature::from_parts("temp1_input".to_string(), "p".to_string(), 0o044).unwrap();
    assert!(!none.is_readable());
    assert!(!none.is_writable());
}

#[test]
fn group_mode_bits_do_not_count_as_owner_bits() {
    let (_, sf) =
        Subfeature::from_parts("pwm1".to_string(), "p".to_string(), 0o066).unwrap();
    assert!(!sf.is_readable());
    assert!(!sf.is_writable());
}

#[test]
fn name_failures_propagate_unchanged() {
    assert_eq!(
        Subfeature::from_parts("temp_bar".to_string(), "p".to_string(), 0o644).unwrap_err(),
        SubfeatureError::Invalid
    );
    assert_eq!(
        Subfeature::from_parts("foo1_bar".to_string(), "p".to_string(), 0o644).unwrap_err(),
        SubfeatureError::Unknown
    );
}
