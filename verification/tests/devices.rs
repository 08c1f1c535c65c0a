use qobuz_player::devices::{device_report, distinct_names};

fn device(name: &str) -> Option<String> {
    Some(name.to_string())
}

#[test]
fn the_search_may_fail() {
    assert_eq!(device_report(None), ["Unable to find available devices"]);
}

#[test]
fn there_may_be_no_devices() {
    assert_eq!(device_report(Some(vec![])), ["No output devices found"]);
    assert_eq!(device_report(Some(vec![None, None])), ["No output devices found"]);
}

#[test]
fn each_name_is_listed_once() {
    let found = vec![device("hdmi"), None, device("dac"), device("hdmi"), device("dac")];
    assert_eq!(device_report(Some(found)), ["Available output devices:", "hdmi", "dac"]);
}

#[test]
fn names_differ_by_case() {
    let names = distinct_names(vec![device("a"), device("A"), device(""), device("a")]);
    assert_eq!(names, ["a", "A", ""]);
}
