use backup_zip::ioutil::{classify_answer, interpret_answer, line_text};
use backup_zip::util::{LocalFields, Util};

#[test]
fn lines_lose_only_their_line_break() {
    assert_eq!(line_text(Some("  abc  \n".to_string())), "  abc  ");
    assert_eq!(line_text(Some("  hello world \r\n".to_string())), "  hello world ");
    assert_eq!(line_text(Some("\n".to_string())), "");
    assert_eq!(line_text(Some("last".to_string())), "last");
    assert_eq!(line_text(Some("x\r".to_string())), "x\r");
    assert_eq!(line_text(Some("a\n\n".to_string())), "a\n");
    assert_eq!(line_text(Some("日本語\n".to_string())), "日本語");
    assert_eq!(line_text(None), "");
}

#[test]
fn answers() {
    assert_eq!(interpret_answer("y"), Some(true));
    assert_eq!(interpret_answer("Yes"), Some(true));
    assert_eq!(interpret_answer("YES"), Some(true));
    assert_eq!(interpret_answer("n"), Some(false));
    assert_eq!(interpret_answer("No"), Some(false));
    assert_eq!(interpret_answer("maybe"), None);
    assert_eq!(interpret_answer(""), None);
    assert_eq!(interpret_answer("ye"), None);
    assert_eq!(interpret_answer(" y"), None);
    assert_eq!(interpret_answer("nO"), Some(false));
    assert_eq!(interpret_answer("yES"), Some(true));
}

#[test]
fn upper_case_answers() {
    assert_eq!(classify_answer("Y"), Some(true));
    assert_eq!(classify_answer("y"), None);
    assert_eq!(classify_answer("NO"), Some(false));
    assert_eq!(classify_answer("NOPE"), None);
}

#[test]
fn time_stamps_of_given_dates() {
    let at = LocalFields {
        year: 2024, month: 1, day: 31, hour: 9, minute: 5, second: 7, nanosecond: 42_000_000,
    };
    assert_eq!(Util::timestamp1(&at), Some("20240131-090507".to_string()));
    assert_eq!(Util::timestamp0(&at), Some("2024-01-31 09:05:07.042".to_string()));
    let leap = LocalFields {
        year: 2016, month: 12, day: 31, hour: 23, minute: 59, second: 59, nanosecond: 1_500_000_000,
    };
    assert_eq!(Util::timestamp1(&leap), Some("20161231-235960".to_string()));
    assert_eq!(Util::timestamp0(&leap), Some("2016-12-31 23:59:60.500".to_string()));
    let early = LocalFields {
        year: 33, month: 2, day: 28, hour: 0, minute: 0, second: 0, nanosecond: 0,
    };
    assert_eq!(Util::timestamp1(&early), Some("00330228-000000".to_string()));
    let far = LocalFields {
        year: 12345, month: 6, day: 1, hour: 0, minute: 0, second: 0, nanosecond: 0,
    };
    assert_eq!(Util::timestamp1(&far), Some("+123450601-000000".to_string()));
    let before = LocalFields {
        year: -5, month: 6, day: 1, hour: 0, minute: 0, second: 0, nanosecond: 0,
    };
    assert_eq!(Util::timestamp1(&before), Some("-00050601-000000".to_string()));
}

#[test]
fn time_stamps_of_impossible_dates() {
    let base = LocalFields {
        year: 2023, month: 2, day: 29, hour: 0, minute: 0, second: 0, nanosecond: 0,
    };
    assert_eq!(Util::timestamp1(&base), None);
    assert_eq!(Util::timestamp0(&LocalFields { year: 2024, ..base }), Some("2024-02-29 00:00:00.000".to_string()));
    assert_eq!(Util::timestamp1(&LocalFields { year: 1900, ..base }), None);
    assert_eq!(Util::timestamp1(&LocalFields { year: 2000, ..base }), Some("20000229-000000".to_string()));
    assert_eq!(Util::timestamp1(&LocalFields { month: 13, ..base }), None);
    assert_eq!(Util::timestamp1(&LocalFields { month: 4, day: 31, ..base }), None);
    assert_eq!(Util::timestamp1(&LocalFields { day: 1, hour: 24, ..base }), None);
    assert_eq!(Util::timestamp1(&LocalFields { day: 1, nanosecond: 1_000_000_000, ..base }), None);
    assert_eq!(Util::timestamp1(&LocalFields { year: 262143, day: 1, ..base }), None);
    assert_eq!(Util::timestamp1(&LocalFields { year: 262142, day: 1, ..base }), Some("+2621420201-000000".to_string()));
}
