use wavelog_hamlib::mode::Mode;
use wavelog_hamlib::propagation::PropagationMode;
use wavelog_hamlib::timestamp::Timestamp;
use wavelog_hamlib::update::Update;
use wavelog_hamlib::wavelog::{is_success, Request, RADIO_API_PATH};

fn at(year: i32, month: u32, day: u32, hour: u32, minute: u32) -> Timestamp {
    Timestamp { year, month, day, hour, minute }
}

fn bare_update() -> Update {
    Update {
        radio: "IC-705".to_string(),
        frequency: 7074000,
        mode: Mode::FT8,
        frequency_rx: None,
        mode_rx: None,
        prop_mode: None,
        power: None,
        sat_name: None,
    }
}

#[test]
fn absent_fields_become_empty_labels_and_zeros() {
    let key = "SECRET-REDACTED".to_string();
    let r = Request::generate(&key, bare_update(), &at(2024, 3, 7, 9, 5));
    assert_eq!(r.key, key);
    assert_eq!(r.radio, "IC-705");
    assert_eq!(r.frequency, 7074000);
    assert_eq!(r.mode, "FT8");
    assert_eq!(r.frequency_rx, 0);
    assert_eq!(r.mode_rx, "");
    assert_eq!(r.prop_mode, "");
    assert_eq!(r.power, 0);
    assert_eq!(r.sat_name, "");
    assert_eq!(r.timestamp, "2024/03/07 09:05");
}

#[test]
fn present_fields_are_written_out() {
    let key = "k".to_string();
    let u = Update {
        radio: "IC-9700".to_string(),
        frequency: 2400000000,
        mode: Mode::SSB,
        frequency_rx: Some(10489500000),
        mode_rx: Some(Mode::SSB),
        prop_mode: Some(PropagationMode::SAT),
        power: Some(50),
        sat_name: Some("QO-100".to_string()),
    };
    let r = Request::generate(&key, u, &at(2023, 12, 31, 23, 59));
    assert_eq!(r.frequency, 2400000000);
    assert_eq!(r.mode, "SSB");
    assert_eq!(r.frequency_rx, 10489500000);
    assert_eq!(r.mode_rx, "SSB");
    assert_eq!(r.prop_mode, "Satellite");
    assert_eq!(r.power, 50);
    assert_eq!(r.sat_name, "QO-100");
    assert_eq!(r.timestamp, "2023/12/31 23:59");
}

#[test]
fn unspecified_modes_are_written_empty() {
    let mut u = bare_update();
    u.mode = Mode::Unspecified;
    u.mode_rx = Some(Mode::Unspecified);
    u.prop_mode = Some(PropagationMode::Unspecified);
    let r = Request::generate(&"k".to_string(), u, &at(2024, 1, 1, 0, 0));
    assert_eq!(r.mode, "");
    assert_eq!(r.mode_rx, "");
    assert_eq!(r.prop_mode, "");
    assert_eq!(r.timestamp, "2024/01/01 00:00");
}

#[test]
fn timestamp_formats_small_and_large_years() {
    assert_eq!(at(987, 6, 15, 12, 30).format(), "0987/06/15 12:30");
    assert_eq!(at(0, 1, 1, 0, 0).format(), "0000/01/01 00:00");
    assert_eq!(at(12345, 1, 2, 3, 4).format(), "+12345/01/02 03:04");
    assert_eq!(at(-5, 10, 20, 1, 2).format(), "-0005/10/20 01:02");
    assert_eq!(at(9999, 11, 30, 22, 45).format(), "9999/11/30 22:45");
}

#[test]
fn timestamp_now_is_a_calendar_time() {
    let t = Timestamp::now().expect("the clock reads a calendar date");
    assert!(t.month >= 1 && t.month <= 12);
    assert!(t.day >= 1 && t.day <= 31);
    assert!(t.hour <= 23 && t.minute <= 59);
    assert!(t.year >= 2024);
    let text = t.format();
    assert_eq!(text.len(), 16);
    assert_eq!(&text[4..5], "/");
}

#[test]
fn generate_now_stamps_the_request() {
    let r = Request::generate_now(&"k".to_string(), bare_update()).expect("the clock reads a calendar date");
    assert_eq!(r.timestamp.len(), 16);
    assert_eq!(&r.timestamp[13..14], ":");
    assert_eq!(r.frequency_rx, 0);
}

#[test]
fn success_status_is_case_sensitive() {
    assert!(is_success("success"));
    assert!(!is_success("error"));
    assert!(!is_success("Success"));
    assert!(!is_success(""));
}

#[test]
fn radio_endpoint_path() {
    assert_eq!(RADIO_API_PATH, "/api/radio");
}

#[test]
fn epoch_seconds_become_utc_calendar_time() {
    let start = Timestamp::from_epoch_seconds(0).expect("in range");
    assert_eq!(start, at(1970, 1, 1, 0, 0));
    let t = Timestamp::from_epoch_seconds(1431648000 + 3 * 3600 + 25 * 60 + 59).expect("in range");
    assert_eq!(t, at(2015, 5, 15, 3, 25));
    assert_eq!(t.format(), "2015/05/15 03:25");
    let leap = Timestamp::from_epoch_seconds(951782400).expect("in range");
    assert_eq!(leap, at(2000, 2, 29, 0, 0));
}

#[test]
fn epoch_seconds_at_the_edges_of_four_digit_years() {
    let last = Timestamp::from_epoch_seconds(253402300799).expect("in range");
    assert_eq!(last, at(9999, 12, 31, 23, 59));
    let next = Timestamp::from_epoch_seconds(253402300800).expect("in range");
    assert_eq!(next.format(), "+10000/01/01 00:00");
}

#[test]
fn epoch_seconds_beyond_the_calendar_give_none() {
    assert_eq!(Timestamp::from_epoch_seconds(u64::MAX), None);
    assert_eq!(Timestamp::from_epoch_seconds(9223372036854775808), None);
    assert_eq!(Timestamp::from_epoch_seconds(9223372036854775807), None);
}
