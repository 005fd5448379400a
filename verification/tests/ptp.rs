use idvs::ptp::{ptp_status_in, read_ptp_status, time_display, PtpStatus, TimeUnit};

const NS: i64 = 4_294_967_296;

fn observation(offset: &str, delay: &str, steps: &str) -> String {
    format!(
        "{{\"program\": {{}}, \"instance\": {{\"default_ds\": 1, \"current_ds\": {{\
        \"offset_from_master\": {}, \"mean_delay\": {}{}}}}}}}",
        offset, delay, steps
    )
}

fn read(offset: &str, delay: &str, steps: &str) -> Option<PtpStatus> {
    read_ptp_status(observation(offset, delay, steps).as_bytes())
}

#[test]
fn status_is_read_from_an_observation() {
    assert_eq!(
        read("-8589934592", "4294967296", ", \"steps_removed\": 1"),
        Some(PtpStatus { offset_bits: -2 * NS, delay_bits: NS, has_data: true, synced: true })
    );
}

#[test]
fn offset_must_be_small_to_be_synced() {
    let limit = 500_000 * NS;
    assert!(PtpStatus::new(limit - 1, 0, Some(1)).synced);
    assert!(!PtpStatus::new(limit, 0, Some(1)).synced);
    assert!(PtpStatus::new(1 - limit, 0, Some(1)).synced);
    assert!(!PtpStatus::new(-limit, 0, Some(1)).synced);
    assert!(!PtpStatus::new(i64::MIN, 0, Some(1)).synced);
}

#[test]
fn sync_is_decided_as_in_floating_point() {
    let limit = 500_000 * NS;
    for near in [0, limit, -limit, i64::MAX - 3, i64::MIN + 3] {
        for d in -3i64..=3 {
            let bits = near.checked_add(d).unwrap();
            let ns = bits as f64 / 4_294_967_296.0;
            assert_eq!(PtpStatus::new(bits, 0, Some(7)).synced, ns.abs() < 500_000.0, "{}", bits);
        }
    }
}

#[test]
fn a_clock_without_a_master_is_not_synced() {
    assert!(!PtpStatus::new(0, 0, None).synced);
    assert!(!PtpStatus::new(0, 0, Some(0)).synced);
    assert!(!PtpStatus::new(0, 0, Some(65536)).synced);
    assert!(PtpStatus::new(0, 0, Some(65537)).synced);
    assert!(PtpStatus::new(0, 0, None).has_data);
}

#[test]
fn steps_may_be_missing_or_unusable() {
    assert_eq!(read("1", "2", "").map(|s| s.synced), Some(false));
    assert_eq!(read("1", "2", ", \"steps_removed\": -1").map(|s| s.synced), Some(false));
    assert_eq!(read("1", "2", ", \"steps_removed\": \"1\"").map(|s| s.synced), Some(false));
    assert_eq!(read("1", "2", ", \"steps_removed\": 2").map(|s| s.synced), Some(true));
}

#[test]
fn observations_without_integers_are_ignored() {
    assert_eq!(read("1.5", "2", ""), None);
    assert_eq!(read("1", "null", ""), None);
    assert_eq!(read("9223372036854775808", "2", ""), None);
    assert_eq!(
        read("9223372036854775807", "-9223372036854775808", "").map(|s| (s.offset_bits, s.delay_bits)),
        Some((i64::MAX, i64::MIN))
    );
}

#[test]
fn observations_of_another_shape_are_ignored() {
    for data in [
        "",
        "not json",
        "{}",
        "[]",
        "{\"instance\": 1}",
        "{\"instance\": {}}",
        "{\"instance\": {\"current_ds\": []}}",
        "{\"instance\": {\"current_ds\": {\"mean_delay\": 1}}}",
        "{\"instance\": {\"current_ds\": {\"offset_from_master\": 1}}}",
        "{\"instance/current_ds\": {\"offset_from_master\": 1, \"mean_delay\": 1}}",
    ] {
        assert_eq!(read_ptp_status(data.as_bytes()), None, "{}", data);
    }
    assert_eq!(read_ptp_status(&[0xff, 0xfe]), None);
}

#[test]
fn status_is_read_from_a_document() {
    let text = observation("3", "4", ", \"steps_removed\": 1");
    let document: serde_json::Value = serde_json::from_str(&text).unwrap();
    assert_eq!(ptp_status_in(&document), read_ptp_status(text.as_bytes()));
    assert_eq!(ptp_status_in(&serde_json::Value::Null), None);
}

#[test]
fn there_is_no_status_at_first() {
    assert_eq!(
        PtpStatus::default(),
        PtpStatus { offset_bits: 0, delay_bits: 0, has_data: false, synced: false }
    );
}

#[test]
fn times_are_shown_in_suitable_units() {
    assert_eq!(time_display(0), ("+", TimeUnit::Nanoseconds));
    assert_eq!(time_display(-1), ("-", TimeUnit::Nanoseconds));
    assert_eq!(time_display(1_000 * NS - 1), ("+", TimeUnit::Nanoseconds));
    assert_eq!(time_display(1_000 * NS), ("+", TimeUnit::Microseconds));
    assert_eq!(time_display(-1_000 * NS), ("-", TimeUnit::Microseconds));
    assert_eq!(time_display(1_000_000 * NS), ("+", TimeUnit::Milliseconds));
    assert_eq!(time_display(i64::MIN), ("-", TimeUnit::Milliseconds));
}
