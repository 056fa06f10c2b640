use pali_terminal::app::{Action, App, AppScreen, InputMode};
use pali_terminal::keys::Key;

fn todo_with_priority(id: &str, title: &str, priority: i32) -> pali_terminal::todo::Todo {
    pali_terminal::todo::Todo {
        id: id.to_string(),
        title: title.to_string(),
        description: None,
        completed: false,
        priority,
        due_date: None,
        created_at: 1640995200,
        updated_at: 1640995200,
    }
}

fn loaded_app() -> App {
    let mut app = App::new();
    app.load_todos();
    app.finish_load(Some(vec![
        todo_with_priority("id-low", "Water plants", 1),
        todo_with_priority("id-med", "Write report", 2),
        todo_with_priority("id-high", "Pay taxes", 3),
    ]));
    app
}

#[test]
fn test_new_app_is_idle() {
    let app = App::new();
    assert!(!app.should_quit);
    assert_eq!(app.current_screen, AppScreen::TodoList);
    assert_eq!(app.input_mode, InputMode::Normal);
    assert!(app.todos.is_empty());
    assert_eq!(app.selected_todo, None);
    assert!(!app.loading);
}

#[test]
fn test_load_populates_and_selects_first() {
    let app = loaded_app();
    assert_eq!(app.todos.len(), 3);
    assert_eq!(app.filtered_todos.len(), 3);
    assert_eq!(app.selected_todo, Some(0));
    assert!(!app.loading);
    assert_eq!(
        app.success_message.as_deref(),
        Some("Loaded 3 todo(s), showing 3")
    );
}

#[test]
fn test_priority_filter_scenario() {
    // Three todos of priorities low/medium/high; filtering by high leaves
    // exactly the high-priority one, selected at index 0.
    let mut app = loaded_app();
    app.set_priority_filter(Some(3));
    assert_eq!(app.filtered_todos.len(), 1);
    assert_eq!(app.filtered_todos[0].id, "id-high");
    assert_eq!(app.filtered_todos[0].priority, 3);
    assert_eq!(app.selected_todo, Some(0));
    assert_eq!(
        app.success_message.as_deref(),
        Some("Filtering by high priority")
    );
    app.set_priority_filter(None);
    assert_eq!(app.filtered_todos.len(), 3);
    assert_eq!(app.success_message.as_deref(), Some("Priority filter cleared"));
}

#[test]
fn test_delete_only_item_clears_selection() {
    // Deleting the only item of a single-item filtered view empties the view
    // and drops the selection.
    let mut app = App::new();
    app.load_todos();
    app.finish_load(Some(vec![todo_with_priority("only", "Lonely", 2)]));
    assert_eq!(app.selected_todo, Some(0));
    let action = app.delete_selected_todo();
    let (index, id) = match action {
        Some(Action::Delete { index, id }) => (index, id),
        other => panic!("expected a delete action, got {:?}", other),
    };
    assert_eq!(index, 0);
    assert_eq!(id, "only");
    app.finish_delete(index, true);
    assert!(app.filtered_todos.is_empty());
    assert!(app.todos.is_empty());
    assert_eq!(app.selected_todo, None);
    assert_eq!(app.success_message.as_deref(), Some("Deleted: Lonely"));
    assert!(!app.loading);
}

#[test]
fn test_failed_toggle_leaves_todo_unchanged() {
    // A toggle that fails leaves the completion flag alone, shows an error
    // and lowers the busy flag.
    let mut app = loaded_app();
    let action = app.toggle_selected_todo();
    let index = match action {
        Some(Action::Toggle { index, id }) => {
            assert_eq!(id, "id-low");
            index
        }
        other => panic!("expected a toggle action, got {:?}", other),
    };
    assert!(app.loading);
    app.finish_toggle(index, None);
    assert!(!app.todos[0].completed);
    assert!(!app.filtered_todos[0].completed);
    assert!(app.error_message.is_some());
    assert_eq!(app.success_message, None);
    assert!(!app.loading);
}

#[test]
fn test_successful_toggle_patches_both_views() {
    let mut app = loaded_app();
    let action = app.toggle_selected_todo();
    let index = match action {
        Some(Action::Toggle { index, .. }) => index,
        other => panic!("expected a toggle action, got {:?}", other),
    };
    let mut flipped = todo_with_priority("id-low", "Water plants", 1);
    flipped.completed = true;
    app.finish_toggle(index, Some(flipped));
    assert!(app.todos[0].completed);
    assert!(app.filtered_todos[0].completed);
    // The full collection and the filtered view agree on the patched entry.
    assert_eq!(app.todos[0].id, app.filtered_todos[0].id);
    assert_eq!(app.todos[0].completed, app.filtered_todos[0].completed);
    assert_eq!(
        app.success_message.as_deref(),
        Some("Todo toggled successfully")
    );
    assert!(!app.loading);
}

#[test]
fn test_navigation_wraps_and_inverts() {
    let mut app = loaded_app();
    assert_eq!(app.selected_todo, Some(0));
    app.next_todo();
    assert_eq!(app.selected_todo, Some(1));
    app.previous_todo();
    assert_eq!(app.selected_todo, Some(0));
    app.previous_todo();
    assert_eq!(app.selected_todo, Some(2)); // wraps to the end
    app.next_todo();
    assert_eq!(app.selected_todo, Some(0)); // wraps to the start
}

#[test]
fn test_search_filters_case_insensitively() {
    let mut app = loaded_app();
    let mut action = app.handle_key(Key::Char('/'));
    assert!(action.is_none());
    assert_eq!(app.current_screen, AppScreen::Search);
    assert_eq!(app.input_mode, InputMode::Editing);
    for c in "TAXES".chars() {
        action = app.handle_key(Key::Char(c));
        assert!(action.is_none());
    }
    assert_eq!(app.search_query, "TAXES");
    let search = app.handle_key(Key::Enter);
    let query = match search {
        Some(Action::Search { query }) => query,
        other => panic!("expected a search action, got {:?}", other),
    };
    assert_eq!(query, "TAXES");
    // The server answers with the full set; the local filter narrows it to
    // the case-insensitive title match.
    app.finish_search(Some(vec![
        todo_with_priority("id-low", "Water plants", 1),
        todo_with_priority("id-high", "Pay taxes", 3),
    ]));
    assert_eq!(app.filtered_todos.len(), 1);
    assert_eq!(app.filtered_todos[0].id, "id-high");
    assert_eq!(app.current_screen, AppScreen::TodoList);
    assert_eq!(
        app.success_message.as_deref(),
        Some("Found 1 results for 'TAXES'")
    );
}

#[test]
fn test_blank_search_returns_to_list() {
    let mut app = loaded_app();
    app.handle_key(Key::Char('/'));
    app.handle_key(Key::Char(' '));
    let action = app.handle_key(Key::Enter);
    assert!(action.is_none());
    assert_eq!(app.current_screen, AppScreen::TodoList);
    assert_eq!(app.input_mode, InputMode::Normal);
    assert_eq!(app.filtered_todos.len(), 3);
}

#[test]
fn test_show_completed_filter() {
    let mut app = App::new();
    app.load_todos();
    let mut done = todo_with_priority("done", "Done deal", 2);
    done.completed = true;
    app.finish_load(Some(vec![done, todo_with_priority("open", "Open item", 2)]));
    // Completed items are hidden by default.
    assert_eq!(app.filtered_todos.len(), 1);
    assert_eq!(app.filtered_todos[0].id, "open");
    app.toggle_show_all();
    assert_eq!(app.filtered_todos.len(), 2);
    assert_eq!(app.success_message.as_deref(), Some("Now showing all todos"));
    app.toggle_show_all();
    assert_eq!(app.filtered_todos.len(), 1);
    assert_eq!(
        app.success_message.as_deref(),
        Some("Now showing pending todos")
    );
}

#[test]
fn test_create_flow_selects_new_todo() {
    let mut app = loaded_app();
    app.handle_key(Key::Char('n'));
    assert_eq!(app.current_screen, AppScreen::AddTodo);
    for c in "Buy milk".chars() {
        app.handle_key(Key::Char(c));
    }
    let action = app.handle_key(Key::Enter);
    let request = match action {
        Some(Action::Create { request }) => request,
        other => panic!("expected a create action, got {:?}", other),
    };
    assert_eq!(request.title, "Buy milk");
    assert_eq!(request.priority, Some(2));
    assert!(app.loading);
    app.finish_create(Some(todo_with_priority("new-id", "Buy milk", 2)));
    assert_eq!(app.todos.len(), 4);
    assert_eq!(app.current_screen, AppScreen::TodoList);
    assert_eq!(app.input_mode, InputMode::Normal);
    let selected = app.selected_todo.expect("the new todo should be selected");
    assert_eq!(app.filtered_todos[selected].id, "new-id");
    assert_eq!(app.success_message.as_deref(), Some("Created: Buy milk"));
    assert!(!app.loading);
}

#[test]
fn test_create_with_empty_title_is_rejected() {
    let mut app = App::new();
    app.handle_key(Key::Char('a'));
    assert_eq!(app.current_screen, AppScreen::AddTodo);
    let action = app.handle_key(Key::Enter);
    assert!(action.is_none());
    assert_eq!(
        app.error_message.as_deref(),
        Some("Please enter a title for your todo")
    );
    assert!(!app.loading);
}

#[test]
fn test_create_with_bad_due_date_is_rejected() {
    let mut app = App::new();
    app.handle_key(Key::Char('n'));
    app.handle_key(Key::Char('x'));
    app.handle_key(Key::BackTab); // cursor to the due-date field
    for c in "9999".chars() {
        app.handle_key(Key::Char(c));
    }
    let action = app.handle_key(Key::Enter);
    assert!(action.is_none());
    let err = app.error_message.clone().unwrap();
    assert!(err.contains("Invalid date format"));
    assert!(!app.loading);
}

#[test]
fn test_edit_flow_updates_both_views() {
    let mut app = loaded_app();
    app.handle_key(Key::Char('e'));
    assert_eq!(app.current_screen, AppScreen::EditTodo);
    assert_eq!(app.input_mode, InputMode::Editing);
    assert_eq!(app.input_form.title, "Water plants");
    app.handle_key(Key::Char('!'));
    let action = app.handle_key(Key::Enter);
    let (index, id, request) = match action {
        Some(Action::Update { index, id, request }) => (index, id, request),
        other => panic!("expected an update action, got {:?}", other),
    };
    assert_eq!(index, 0);
    assert_eq!(id, "id-low");
    assert_eq!(request.title.as_deref(), Some("Water plants!"));
    assert_eq!(request.completed, None);
    app.finish_update(index, Some(todo_with_priority("id-low", "Water plants!", 1)));
    assert_eq!(app.todos[0].title, "Water plants!");
    assert_eq!(app.filtered_todos[0].title, "Water plants!");
    assert_eq!(app.current_screen, AppScreen::TodoList);
    assert_eq!(
        app.success_message.as_deref(),
        Some("Updated: Water plants!")
    );
}

#[test]
fn test_edit_prefills_parseable_due_date() {
    let mut app = App::new();
    app.load_todos();
    let mut t = todo_with_priority("due", "Dated", 2);
    t.due_date = Some(1640995200);
    app.finish_load(Some(vec![t]));
    app.start_edit_selected_todo();
    // The buffer is rendered in local time, but always in the accepted
    // layout, so it must parse back.
    assert!(app.input_form.parse_due_date().is_ok());
    assert_eq!(app.input_form.priority, 2);
}

#[test]
fn test_escape_discards_draft() {
    let mut app = loaded_app();
    app.handle_key(Key::Char('n'));
    app.handle_key(Key::Char('x'));
    let action = app.handle_key(Key::Esc);
    assert!(action.is_none());
    assert_eq!(app.current_screen, AppScreen::TodoList);
    assert_eq!(app.input_mode, InputMode::Normal);
    assert_eq!(app.input_form.title, "");
}

#[test]
fn test_unmapped_keys_are_no_ops() {
    let mut app = loaded_app();
    let before_len = app.filtered_todos.len();
    let before_sel = app.selected_todo;
    assert!(app.handle_key(Key::Char('z')).is_none());
    assert!(app.handle_key(Key::Other).is_none());
    assert!(app.handle_key(Key::Tab).is_none());
    assert_eq!(app.filtered_todos.len(), before_len);
    assert_eq!(app.selected_todo, before_sel);
    assert_eq!(app.current_screen, AppScreen::TodoList);
}

#[test]
fn test_help_and_detail_screens_return_to_list() {
    let mut app = loaded_app();
    app.handle_key(Key::Char('h'));
    assert_eq!(app.current_screen, AppScreen::Help);
    app.handle_key(Key::Char('q'));
    assert_eq!(app.current_screen, AppScreen::TodoList);
    app.handle_key(Key::Char('v'));
    assert_eq!(app.current_screen, AppScreen::TodoDetail);
    app.handle_key(Key::Esc);
    assert_eq!(app.current_screen, AppScreen::TodoList);
    assert!(!app.should_quit);
    app.handle_key(Key::Char('q'));
    assert!(app.should_quit);
}

#[test]
fn test_failed_load_keeps_state() {
    let mut app = loaded_app();
    app.load_todos();
    assert!(app.loading);
    app.finish_load(None);
    assert!(!app.loading);
    assert_eq!(app.todos.len(), 3);
    assert!(app
        .error_message
        .as_deref()
        .unwrap()
        .contains("Unable to load todos"));
}

#[test]
fn test_delete_clamps_selection_to_shrunken_view() {
    let mut app = loaded_app();
    app.next_todo();
    app.next_todo();
    assert_eq!(app.selected_todo, Some(2));
    let action = app.delete_selected_todo();
    let (index, id) = match action {
        Some(Action::Delete { index, id }) => (index, id),
        other => panic!("expected a delete action, got {:?}", other),
    };
    assert_eq!(id, "id-high");
    app.finish_delete(index, true);
    assert_eq!(app.filtered_todos.len(), 2);
    // The deleted index fell out of range of the shrunken view, so the
    // selection falls back to the first entry.
    assert_eq!(app.selected_todo, Some(0));
    assert_eq!(app.success_message.as_deref(), Some("Deleted: Pay taxes"));

    // Deleting the first of the two remaining entries leaves the selection
    // where it is, now pointing at the next entry.
    let action = app.delete_selected_todo();
    let index = match action {
        Some(Action::Delete { index, .. }) => index,
        other => panic!("expected a delete action, got {:?}", other),
    };
    app.finish_delete(index, true);
    assert_eq!(app.filtered_todos.len(), 1);
    assert_eq!(app.selected_todo, Some(0));
}

#[test]
fn test_failed_delete_keeps_both_views() {
    let mut app = loaded_app();
    let action = app.delete_selected_todo();
    let index = match action {
        Some(Action::Delete { index, .. }) => index,
        other => panic!("expected a delete action, got {:?}", other),
    };
    app.finish_delete(index, false);
    assert_eq!(app.todos.len(), 3);
    assert_eq!(app.filtered_todos.len(), 3);
    assert!(app
        .error_message
        .as_deref()
        .unwrap()
        .contains("Unable to delete todo"));
    assert!(!app.loading);
}

#[test]
fn test_messages_are_mutually_exclusive() {
    let mut app = loaded_app();
    assert!(app.success_message.is_some());
    assert!(app.error_message.is_none());
    app.load_todos();
    app.finish_load(None);
    assert!(app.success_message.is_none());
    assert!(app.error_message.is_some());
    app.show_success("done".to_string());
    assert!(app.error_message.is_none());
}

#[test]
fn test_load_empty_collection() {
    let mut app = App::new();
    app.load_todos();
    app.finish_load(Some(Vec::new()));
    assert_eq!(app.selected_todo, None);
    assert!(app.filtered_todos.is_empty());
    assert_eq!(
        app.success_message.as_deref(),
        Some("Loaded 0 todo(s), showing 0")
    );
}
