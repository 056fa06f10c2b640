use pali_terminal::todo::Todo;
use pali_terminal::widget::TodoListWidget;

#[test]
fn test_todo_list_widget() {
    let todos = vec![
        Todo {
            id: "test1".to_string(),
            title: "Test Todo 1".to_string(),
            description: None,
            completed: false,
            priority: 2,
            due_date: None,
            created_at: 1640995200,
            updated_at: 1640995200,
        },
        Todo {
            id: "test2".to_string(),
            title: "Test Todo 2".to_string(),
            description: None,
            completed: true,
            priority: 1,
            due_date: None,
            created_at: 1640995200,
            updated_at: 1640995200,
        },
    ];

    let mut widget = TodoListWidget::new(todos);
    assert_eq!(widget.selected, Some(0));

    widget.next();
    assert_eq!(widget.selected, Some(1));

    widget.next();
    assert_eq!(widget.selected, Some(0)); // Should wrap around

    widget.previous();
    assert_eq!(widget.selected, Some(1));
}

#[test]
fn test_empty_todo_list_widget() {
    let mut widget = TodoListWidget::new(vec![]);
    assert_eq!(widget.selected, None);

    widget.next(); // Should not crash
    assert_eq!(widget.selected, None);

    widget.previous(); // Should not crash
    assert_eq!(widget.selected, None);

    assert!(widget.selected_todo().is_none());
}
