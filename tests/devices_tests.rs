use daqmx::devices::{channel_names, remove_all, split_channel_list};

#[test]
fn channel_list_untrimmed() {
    let names = channel_names("PCIe-6363_test/ai0, PCIe-6363_test/ai1", "PCIe-6363_test", false).unwrap();
    assert_eq!(names, vec!["PCIe-6363_test/ai0".to_string(), "PCIe-6363_test/ai1".to_string()]);
}

#[test]
fn channel_list_trimmed() {
    let names = channel_names("Dev1/port0/line0, Dev1/port0/line1", "Dev1", true).unwrap();
    assert_eq!(names, vec!["port0/line0".to_string(), "port0/line1".to_string()]);
}

#[test]
fn channel_list_line_breaks_and_empty_items() {
    let names = channel_names("a\nb, c\r\n\n", "x", false).unwrap();
    assert_eq!(names, vec!["a".to_string(), "b".to_string(), "c".to_string(), "".to_string()]);
    assert_eq!(channel_names("a\n", "x", false).unwrap(), vec!["a".to_string()]);
    assert_eq!(channel_names("a\r", "x", false).unwrap(), vec!["a\r".to_string()]);
    assert_eq!(channel_names("a, ", "x", false).unwrap(), vec!["a".to_string(), "".to_string()]);
    assert!(channel_names("", "Dev1", true).unwrap().is_empty());
    assert_eq!(channel_names("a,b", "Dev1", true).unwrap(), vec!["a,b".to_string()]);
}

#[test]
fn trimming_only_touches_the_device_prefix() {
    let names = channel_names("Dev1/ai0, Dev10/ai1", "Dev1", true).unwrap();
    assert_eq!(names, vec!["ai0".to_string(), "Dev10/ai1".to_string()]);
}

#[test]
fn remove_all_occurrences() {
    assert_eq!(remove_all(b"abXYcdXY", b"XY"), b"abcd".to_vec());
    assert_eq!(remove_all(b"XXY", b"XY"), b"X".to_vec());
    assert_eq!(remove_all(b"abc", b""), b"abc".to_vec());
}

#[test]
fn split_list_bytes() {
    let items = split_channel_list(b", x, , y");
    assert_eq!(items, vec![b"".to_vec(), b"x".to_vec(), b"".to_vec(), b"y".to_vec()]);
}
