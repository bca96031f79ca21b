use nonstd::device::{
    device_arrived, device_left, get_class_name, is_listening, listen, unlisten, DeviceListener,
};

#[test]
fn class_codes_have_names() {
    let names = [
        (1u8, "Audio"),
        (2, "COMM"),
        (3, "HID"),
        (5, "Physical"),
        (6, "PTP"),
        (7, "Printer"),
        (8, "MassStorage"),
        (9, "Hub"),
        (10, "Data"),
        (0, "Unknown"),
        (4, "Unknown"),
        (11, "Unknown"),
        (255, "Unknown"),
    ];
    for (code, name) in names {
        assert_eq!(get_class_name(&vec![code]), name);
    }
}

#[test]
fn device_is_named_by_its_last_descriptor() {
    assert_eq!(get_class_name(&vec![3, 8]), "MassStorage");
    assert_eq!(get_class_name(&vec![8, 3, 200]), "Unknown");
    assert_eq!(get_class_name(&Vec::new()), "");
}

#[test]
fn events_say_added_and_removed() {
    let added = device_arrived(&vec![9]);
    assert_eq!(added.name, "Hub");
    assert_eq!(added.event, "Added");
    let removed = device_left(&vec![1, 7]);
    assert_eq!(removed.name, "Printer");
    assert_eq!(removed.event, "Removed");
}

#[test]
fn listener_follows_registration() {
    let mut listener = DeviceListener { watching: false };
    assert!(!is_listening(&listener));
    assert!(!listen(&mut listener, false));
    assert!(!is_listening(&listener));
    assert!(listen(&mut listener, true));
    assert!(is_listening(&listener));
    assert!(!listen(&mut listener, false));
    assert!(is_listening(&listener));
    unlisten(&mut listener);
    assert!(!is_listening(&listener));
    unlisten(&mut listener);
    assert!(!is_listening(&listener));
}
