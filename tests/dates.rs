use binday_bot::date::{date_from_parsed, extract_date, CalendarDate};

#[test]
fn long_form_date_parses() {
    let d = extract_date("Tuesday 04 June 2024").unwrap();
    assert_eq!(d, CalendarDate { year: 2024, month: 6, day: 4 });
    assert_eq!(d.iso_string(), "2024-06-04");
}

#[test]
fn slash_date_is_a_parse_error() {
    let e = extract_date("04/06/2024").unwrap_err();
    assert!(!e.detail.is_empty());
    assert!(e.message().starts_with("Error parsing date: "));
}

#[test]
fn inconsistent_weekday_is_a_parse_error() {
    assert!(extract_date("Monday 04 June 2024").is_err());
}

#[test]
fn leap_days() {
    assert!(CalendarDate::new(2024, 2, 29).is_some());
    assert!(CalendarDate::new(2023, 2, 29).is_none());
    assert!(CalendarDate::new(1900, 2, 29).is_none());
    assert!(CalendarDate::new(2000, 2, 29).is_some());
    assert!(CalendarDate::new(2024, 4, 31).is_none());
    assert!(CalendarDate::new(2024, 13, 1).is_none());
    assert!(CalendarDate::new(2024, 1, 0).is_none());
}

#[test]
fn iso_text_of_unusual_years() {
    assert_eq!(CalendarDate { year: 7, month: 1, day: 9 }.iso_string(), "0007-01-09");
    assert_eq!(CalendarDate { year: -1, month: 12, day: 31 }.iso_string(), "-0001-12-31");
    assert_eq!(CalendarDate { year: 12345, month: 3, day: 15 }.iso_string(), "+12345-03-15");
}

#[test]
fn parsed_triples_become_dates() {
    assert_eq!(
        date_from_parsed(Ok((2024, 1, 1))).unwrap(),
        CalendarDate { year: 2024, month: 1, day: 1 }
    );
    assert!(date_from_parsed(Ok((2023, 2, 29))).is_err());
    let e = date_from_parsed(Err("input contains invalid characters".to_string())).unwrap_err();
    assert_eq!(e.detail, "input contains invalid characters");
    assert_eq!(e.message(), "Error parsing date: input contains invalid characters");
}
