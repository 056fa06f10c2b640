use chrono::NaiveDate;
use pali_terminal::form::{InputField, InputForm};

#[test]
fn test_input_form() {
    let mut form = InputForm::new();
    assert_eq!(form.current_field, InputField::Title);
    assert_eq!(form.priority, 2);

    form.handle_char('H');
    form.handle_char('i');
    assert_eq!(form.title, "Hi");

    form.next_field();
    assert_eq!(form.current_field, InputField::Description);

    form.handle_char('T');
    form.handle_char('e');
    form.handle_char('s');
    form.handle_char('t');
    assert_eq!(form.description, "Test");

    form.next_field();
    assert_eq!(form.current_field, InputField::Priority);

    form.handle_char('3');
    assert_eq!(form.priority, 3);

    form.handle_char('5'); // Invalid, should be ignored
    assert_eq!(form.priority, 3);

    assert!(form.is_valid());

    let request = form.to_create_request().unwrap();
    assert_eq!(request.title, "Hi");
    assert_eq!(request.description, Some("Test".to_string()));
    assert_eq!(request.priority, Some(3));
}

#[test]
fn test_input_form_validation() {
    let mut form = InputForm::new();
    assert!(!form.is_valid()); // Empty title should be invalid

    form.handle_char(' ');
    assert!(!form.is_valid()); // Whitespace only should be invalid

    form.handle_char('T');
    assert!(form.is_valid()); // Non-empty title should be valid
}

#[test]
fn test_is_valid_single_letter() {
    let mut form = InputForm::new();
    form.handle_char('a');
    assert!(form.is_valid());
}

#[test]
fn test_title_is_trimmed_in_request() {
    let mut form = InputForm::new();
    form.handle_char(' ');
    form.handle_char('h');
    form.handle_char('i');
    form.handle_char(' ');
    let request = form.to_create_request().unwrap();
    assert_eq!(request.title, "hi");
    assert_eq!(request.description, None);
    assert_eq!(request.due_date, None);
}

#[test]
fn test_parse_due_date_empty_means_no_due_date() {
    let form = InputForm::new();
    assert_eq!(form.parse_due_date(), Ok(None));
}

#[test]
fn test_parse_due_date_date_only() {
    let mut form = InputForm::new();
    form.next_field();
    form.next_field();
    form.next_field();
    assert_eq!(form.current_field, InputField::DueDate);
    for c in "2024-03-15".chars() {
        form.handle_char(c);
    }
    let expected = NaiveDate::from_ymd_opt(2024, 3, 15)
        .unwrap()
        .and_hms_opt(0, 0, 0)
        .unwrap()
        .and_utc()
        .timestamp();
    assert_eq!(form.parse_due_date(), Ok(Some(expected)));
}

#[test]
fn test_parse_due_date_full_datetime() {
    let mut form = InputForm::new();
    form.previous_field();
    assert_eq!(form.current_field, InputField::DueDate);
    for c in "2024-03-15 14:30:00".chars() {
        form.handle_char(c);
    }
    let expected = NaiveDate::from_ymd_opt(2024, 3, 15)
        .unwrap()
        .and_hms_opt(14, 30, 0)
        .unwrap()
        .and_utc()
        .timestamp();
    assert_eq!(form.parse_due_date(), Ok(Some(expected)));
}

#[test]
fn test_parse_due_date_rejects_other_layouts() {
    let mut form = InputForm::new();
    form.previous_field();
    // Letters are filtered out of the due-date buffer, so type digits in a
    // wrong arrangement instead.
    for c in "15-03-2024".chars() {
        form.handle_char(c);
    }
    assert_eq!(form.due_date, "15-03-2024");
    let err = form.parse_due_date().unwrap_err();
    assert!(err.contains("Invalid date format"));
}

#[test]
fn test_due_date_buffer_filters_characters() {
    let mut form = InputForm::new();
    form.previous_field();
    form.handle_char('2');
    form.handle_char('x'); // rejected: not a date character
    form.handle_char('-');
    form.handle_char(':');
    form.handle_char(' ');
    assert_eq!(form.due_date, "2-: ");
    form.handle_backspace();
    assert_eq!(form.due_date, "2-:");
}

#[test]
fn test_backspace_per_field() {
    let mut form = InputForm::new();
    form.handle_char('a');
    form.handle_char('b');
    form.handle_backspace();
    assert_eq!(form.title, "a");
    form.next_field();
    form.next_field();
    assert_eq!(form.current_field, InputField::Priority);
    form.handle_char('1');
    form.handle_backspace(); // priority ignores backspace
    assert_eq!(form.priority, 1);
}

#[test]
fn test_clear_resets_to_defaults() {
    let mut form = InputForm::new();
    form.handle_char('x');
    form.next_field();
    form.handle_char('y');
    form.next_field();
    form.handle_char('3');
    form.clear();
    assert_eq!(form.title, "");
    assert_eq!(form.description, "");
    assert_eq!(form.priority, 2);
    assert_eq!(form.due_date, "");
    assert_eq!(form.current_field, InputField::Title);
}

#[test]
fn test_field_cursor_cycles() {
    let mut form = InputForm::new();
    form.next_field();
    form.next_field();
    form.next_field();
    form.next_field();
    assert_eq!(form.current_field, InputField::Title);
    form.previous_field();
    assert_eq!(form.current_field, InputField::DueDate);
}
