use backup_zip::decimal::append_padded_decimal;
use backup_zip::helpers::{to_string1, to_string2};
use backup_zip::timeutil::Stopwatch;

#[test]
fn padded_decimal_pads_to_width() {
    let mut s = String::new();
    append_padded_decimal(&mut s, 7, 3);
    assert_eq!(s, "007");
    let mut s = String::from("x");
    append_padded_decimal(&mut s, 12345, 2);
    assert_eq!(s, "x12345");
    let mut s = String::new();
    append_padded_decimal(&mut s, 0, 0);
    assert_eq!(s, "0");
    let mut s = String::new();
    append_padded_decimal(&mut s, u64::MAX, 2);
    assert_eq!(s, "18446744073709551615");
}

#[test]
fn seconds_render_as_hours_minutes_seconds() {
    assert_eq!(to_string1(0), "00:00:00");
    assert_eq!(to_string1(59), "00:00:59");
    assert_eq!(to_string1(60), "00:01:00");
    assert_eq!(to_string1(3599), "00:59:59");
    assert_eq!(to_string1(3600), "01:00:00");
    assert_eq!(to_string1(3725), "01:02:05");
    assert_eq!(to_string1(86399), "23:59:59");
    assert_eq!(to_string1(360000), "100:00:00");
}

#[test]
fn seconds_rendering_at_the_edge_of_its_range() {
    // The minute counter reaches 2147483647 here, its largest value.
    let secs: u64 = 2147483647 * 60 + 59;
    assert_eq!(to_string1(secs), "35791394:07:59");
}

#[test]
fn millis_render_with_milliseconds() {
    assert_eq!(to_string2(0), "00:00:00:000");
    assert_eq!(to_string2(999), "00:00:00:999");
    assert_eq!(to_string2(1000), "00:00:01:000");
    assert_eq!(to_string2(61001), "00:01:01:001");
    assert_eq!(to_string2(3_725_042), "01:02:05:042");
    assert_eq!(to_string2(2147483647999), "596523:14:07:999");
}

#[test]
fn millis_text_extends_seconds_text() {
    for millis in [0u128, 1, 999, 1000, 59_999, 60_000, 3_599_999, 3_600_000, 987_654_321] {
        let secs = (millis / 1000) as u64;
        let expected = format!("{}:{:03}", to_string1(secs), millis % 1000);
        assert_eq!(to_string2(millis), expected);
    }
}

#[test]
fn distinct_durations_render_distinctly() {
    let mut seen = std::collections::HashSet::new();
    for secs in 0u64..5000 {
        assert!(seen.insert(to_string1(secs)));
    }
    let mut seen = std::collections::HashSet::new();
    for millis in (0u128..200_000).step_by(7) {
        assert!(seen.insert(to_string2(millis)));
    }
}

#[test]
fn stopwatch_renders_what_it_measured() {
    assert_eq!(Stopwatch::render_elapsed(0), Some("00:00:00:000".to_string()));
    assert_eq!(
        Stopwatch::render_elapsed(2147483647999),
        Some("596523:14:07:999".to_string())
    );
    assert_eq!(Stopwatch::render_elapsed(2147483648000), None);
    assert_eq!(Stopwatch::render_elapsed(u128::MAX), None);
}

#[test]
fn fresh_stopwatch_shows_little_time() {
    let watch = Stopwatch::new();
    let shown = watch.to_string().expect("a fresh stopwatch is in range");
    assert_eq!(shown.len(), 12);
    assert!(shown.starts_with("00:00:"));
    assert!(watch.elapsed_millis() < 60_000);
}
