use zing::device::{choose_device, choose_devices, find_device, AudioError, DeviceChoice};

fn names(list: &[Option<&str>]) -> Vec<Option<String>> {
    list.iter().map(|name| name.map(String::from)).collect()
}

#[test]
fn finds_the_first_name_that_holds_the_text() {
    let devices = names(&[Some("HDA Intel"), Some("USB Audio"), Some("USB Headset")]);
    assert_eq!(find_device(&devices, "USB"), Some(1));
    assert_eq!(find_device(&devices, "Headset"), Some(2));
    assert_eq!(find_device(&devices, "HDA Intel"), Some(0));
    assert_eq!(find_device(&devices, "Intel HDA"), None);
    assert_eq!(find_device(&devices, "usb"), None);
}

#[test]
fn empty_text_matches_the_first_device() {
    let devices = names(&[Some("a"), Some("b")]);
    assert_eq!(find_device(&devices, ""), Some(0));
    assert_eq!(find_device(&Vec::new(), ""), None);
}

#[test]
fn unreadable_name_ends_the_search() {
    let devices = names(&[Some("one"), None, Some("two")]);
    assert_eq!(find_device(&devices, "one"), Some(0));
    assert_eq!(find_device(&devices, "two"), None);
    assert_eq!(choose_device(&devices, "two", true), Some(DeviceChoice::Default));
}

#[test]
fn match_is_on_characters() {
    let devices = names(&[Some("Größe"), Some("grosse")]);
    assert_eq!(find_device(&devices, "öß"), Some(0));
    assert_eq!(find_device(&devices, "ss"), Some(1));
}

#[test]
fn falls_back_to_the_default_device() {
    let devices = names(&[Some("one"), Some("two")]);
    assert_eq!(choose_device(&devices, "two", true), Some(DeviceChoice::Listed(1)));
    assert_eq!(choose_device(&devices, "two", false), Some(DeviceChoice::Listed(1)));
    assert_eq!(choose_device(&devices, "three", true), Some(DeviceChoice::Default));
    assert_eq!(choose_device(&devices, "three", false), None);
    assert_eq!(choose_device(&Vec::new(), "", true), Some(DeviceChoice::Default));
    assert_eq!(choose_device(&Vec::new(), "", false), None);
}

#[test]
fn missing_devices_are_errors() {
    let inputs = names(&[Some("mic")]);
    let outputs = names(&[Some("speakers"), Some("phones")]);
    assert_eq!(
        choose_devices(&inputs, "mic", false, &outputs, "phones", false),
        Ok((DeviceChoice::Listed(0), DeviceChoice::Listed(1)))
    );
    assert_eq!(
        choose_devices(&inputs, "line", true, &outputs, "hdmi", true),
        Ok((DeviceChoice::Default, DeviceChoice::Default))
    );
    assert_eq!(
        choose_devices(&inputs, "line", false, &outputs, "phones", true),
        Err(AudioError::NoInputDevice)
    );
    assert_eq!(
        choose_devices(&inputs, "mic", false, &outputs, "hdmi", false),
        Err(AudioError::NoOutputDevice)
    );
    assert_eq!(
        choose_devices(&inputs, "line", false, &outputs, "hdmi", false),
        Err(AudioError::NoInputDevice)
    );
}

#[test]
fn errors_in_words() {
    assert_eq!(AudioError::NoInputDevice.message(), "no input device available");
    assert_eq!(AudioError::NoOutputDevice.message(), "no output device available");
    assert_eq!(AudioError::QueueTooLarge.message(), "queue too large");
}
