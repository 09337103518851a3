use g29::device::is_logitech_g29;

#[test]
fn recognises_the_wheel_by_name_or_product_id() {
    let name = "G29 Driving Force Racing Wheel";
    assert!(is_logitech_g29(1133, Some(name), 1, 0, 0));
    assert!(is_logitech_g29(1133, Some("other"), 49743, 3, 1));
    assert!(is_logitech_g29(1133, None, 49743, 0, 0));
}

#[test]
fn rejects_other_devices() {
    let name = "G29 Driving Force Racing Wheel";
    assert!(!is_logitech_g29(1134, Some(name), 49743, 0, 1));
    assert!(!is_logitech_g29(1133, Some("G29 Driving Force Racing Whee"), 1, 0, 1));
    assert!(!is_logitech_g29(1133, None, 1, 0, 1));
    assert!(!is_logitech_g29(1133, Some(name), 49743, 2, 12));
}
