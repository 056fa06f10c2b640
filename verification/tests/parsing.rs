use chrono::NaiveDate;
use pali_terminal::dates::{due_class, DueClass};
use pali_terminal::dates::parse_date;
use pali_terminal::todo::{parse_priority, PRIORITY_HIGH, PRIORITY_LOW, PRIORITY_MEDIUM};

#[test]
fn test_parse_date_datetime_format() {
    let result = parse_date("2024-01-15 14:30:00").unwrap();
    let expected = NaiveDate::from_ymd_opt(2024, 1, 15)
        .unwrap()
        .and_hms_opt(14, 30, 0)
        .unwrap()
        .and_utc()
        .timestamp();
    assert_eq!(result, expected);
}

#[test]
fn test_parse_date_date_only_format() {
    let result = parse_date("2024-01-15").unwrap();
    let expected = NaiveDate::from_ymd_opt(2024, 1, 15)
        .unwrap()
        .and_hms_opt(0, 0, 0)
        .unwrap()
        .and_utc()
        .timestamp();
    assert_eq!(result, expected);
}

#[test]
fn test_parse_date_invalid_format() {
    let result = parse_date("invalid-date");
    assert!(result.is_err());
    assert!(result.unwrap_err().contains("Invalid date format"));
}

#[test]
fn test_parse_priority_valid_values() {
    assert_eq!(parse_priority("low"), PRIORITY_LOW);
    assert_eq!(parse_priority("LOW"), PRIORITY_LOW);
    assert_eq!(parse_priority("medium"), PRIORITY_MEDIUM);
    assert_eq!(parse_priority("MEDIUM"), PRIORITY_MEDIUM);
    assert_eq!(parse_priority("high"), PRIORITY_HIGH);
    assert_eq!(parse_priority("HIGH"), PRIORITY_HIGH);
}

#[test]
fn test_parse_priority_invalid_defaults_to_medium() {
    assert_eq!(parse_priority("invalid"), PRIORITY_MEDIUM);
    assert_eq!(parse_priority(""), PRIORITY_MEDIUM);
    assert_eq!(parse_priority("123"), PRIORITY_MEDIUM);
}

#[test]
fn test_due_class_relations() {
    assert_eq!(due_class(20000, 20000, false), DueClass::Today);
    assert_eq!(due_class(20001, 20000, false), DueClass::Tomorrow);
    assert_eq!(due_class(19990, 20000, true), DueClass::Past);
    assert_eq!(due_class(20010, 20000, false), DueClass::Future);
}
