use social_credit_bot::logger::Logger;
use social_credit_bot::util::{current_time_unix_epoch, seconds_to_human_readable, unix_timestamp_from};

#[test]
fn human_readable_hours_minutes_seconds() {
    assert_eq!(seconds_to_human_readable(3725), "1 hours, 2 minutes, and 5 seconds");
    assert_eq!(seconds_to_human_readable(10800), "3 hours, 0 minutes, and 0 seconds");
}

#[test]
fn human_readable_minutes_seconds() {
    assert_eq!(seconds_to_human_readable(125), "2 minutes and 5 seconds");
    assert_eq!(seconds_to_human_readable(3599), "59 minutes and 59 seconds");
}

#[test]
fn human_readable_seconds() {
    assert_eq!(seconds_to_human_readable(0), "0 seconds");
    assert_eq!(seconds_to_human_readable(59), "59 seconds");
    assert_eq!(seconds_to_human_readable(-61), "-1 seconds");
}

#[test]
fn human_readable_parts_add_up() {
    // 2 hours, 46 minutes and 39 seconds is 9999 seconds.
    assert_eq!(2 * 3600 + 46 * 60 + 39, 9999);
    assert_eq!(seconds_to_human_readable(9999), "2 hours, 46 minutes, and 39 seconds");
}

#[test]
fn clock_is_after_epoch() {
    let now = current_time_unix_epoch().expect("clock before the epoch");
    assert!(now > 1_600_000_000);
}

#[test]
fn log_line_format() {
    assert_eq!(Logger::entry(1700000000, "hello"), "1700000000: hello");
    assert_eq!(Logger::entry(0, ""), "0: ");
}

fn numbers_in(text: &str) -> Vec<i64> {
    text.split(|c: char| !c.is_ascii_digit()).filter(|w| !w.is_empty()).map(|w| w.parse().unwrap()).collect()
}

#[test]
fn wait_text_reads_back_as_the_wait() {
    for wait in [0i64, 1, 59, 60, 61, 3599, 3600, 3601, 7503, 86399, 90061] {
        let mut ns = numbers_in(&seconds_to_human_readable(wait));
        assert!((1..=3).contains(&ns.len()));
        let shown = ns.len();
        while ns.len() < 3 {
            ns.insert(0, 0);
        }
        assert_eq!(3600 * ns[0] + 60 * ns[1] + ns[2], wait);
        assert!(ns[1] < 60 && ns[2] < 60);
        if shown == 3 {
            assert!(ns[0] > 0);
        }
        if shown == 2 {
            assert!(ns[1] > 0);
        }
    }
}

#[test]
fn timestamp_from_elapsed_seconds() {
    assert_eq!(unix_timestamp_from(Some(1_700_000_000)), Some(1_700_000_000));
    assert_eq!(unix_timestamp_from(Some(0)), Some(0));
    assert_eq!(unix_timestamp_from(Some(u64::MAX)), Some(-1));
    assert_eq!(unix_timestamp_from(None), None);
}
