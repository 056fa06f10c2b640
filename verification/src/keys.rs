//! The screen/mode state machine: one key event in, one local transition and
//! at most one requested remote call out.
//!
//! Every reachable (screen, mode, key) triple is spelled out in the step
//! relations below; any unmapped key is a no-op, never a panic.

use vstd::prelude::*;
use crate::app::{
    create_begin_rel, delete_begin_rel, edit_begin_rel, execute_search_rel, load_begin_rel,
    next_todo_rel, previous_todo_rel, set_priority_rel, show_detail_rel, start_search_rel,
    toggle_begin_rel, toggle_show_all_rel, update_begin_rel, with_msgs_cleared, Action, App,
    AppScreen, InputMode,
};
use crate::form::{
    backspace_applied, char_applied, next_field_of, previous_field_of, InputForm,
};
use crate::strutil::{dropped_last, push_char, pop_char};

verus! {

/// A key event, as the core sees it.  Modifier handling and every other key
/// stay with the driver and arrive here as `Other`.
#[derive(Debug, Clone, Copy, PartialEq, Eq)]
pub enum Key {
    Char(char),
    Esc,
    Enter,
    Tab,
    BackTab,
    Backspace,
    Up,
    Down,
    Other,
}

/// The add screen opened in editing mode over a reset form.
pub open spec fn add_open_rel(pre: App, post: App) -> bool {
    &&& post.input_form.is_cleared()
    &&& post == (App {
        current_screen: AppScreen::AddTodo,
        input_mode: InputMode::Editing,
        input_form: post.input_form,
        ..pre
    })
}

/// A draft was discarded from normal mode: back to the list, form reset,
/// query dropped.
pub open spec fn discard_rel(pre: App, post: App) -> bool {
    &&& post.input_form.is_cleared()
    &&& post.search_query@.len() == 0
    &&& post == (App {
        current_screen: AppScreen::TodoList,
        input_mode: InputMode::Normal,
        input_form: post.input_form,
        search_query: post.search_query,
        ..pre
    })
}

/// Editing was cancelled: back to the list in normal mode with a reset form;
/// the search query stays.
pub open spec fn cancel_edit_rel(pre: App, post: App) -> bool {
    &&& post.input_form.is_cleared()
    &&& post == (App {
        current_screen: AppScreen::TodoList,
        input_mode: InputMode::Normal,
        input_form: post.input_form,
        ..pre
    })
}

/// The transition table for normal (navigation) mode.
pub open spec fn normal_step(pre: App, post: App, r: Option<Action>, key: Key) -> bool {
    match pre.current_screen {
        AppScreen::TodoList => match key {
            Key::Char(c) => if c == 'q' {
                post == (App { should_quit: true, ..pre }) && r is None
            } else if c == 'r' {
                load_begin_rel(pre, post) && r == Some(Action::Load)
            } else if c == 'n' || c == 'a' {
                add_open_rel(pre, post) && r is None
            } else if c == 'e' {
                edit_begin_rel(pre, post) && r is None
            } else if c == 'h' || c == '?' {
                post == (App { current_screen: AppScreen::Help, ..pre }) && r is None
            } else if c == 's' {
                post == (App { current_screen: AppScreen::Settings, ..pre }) && r is None
            } else if c == '/' {
                start_search_rel(pre, post) && r is None
            } else if c == 'f' {
                toggle_show_all_rel(pre, post) && r is None
            } else if c == '1' {
                set_priority_rel(pre, post, Some(1i32)) && r is None
            } else if c == '2' {
                set_priority_rel(pre, post, Some(2i32)) && r is None
            } else if c == '3' {
                set_priority_rel(pre, post, Some(3i32)) && r is None
            } else if c == '0' {
                set_priority_rel(pre, post, None) && r is None
            } else if c == 'v' {
                show_detail_rel(pre, post) && r is None
            } else if c == 'k' {
                previous_todo_rel(pre, post) && r is None
            } else if c == 'j' {
                next_todo_rel(pre, post) && r is None
            } else if c == ' ' {
                toggle_begin_rel(pre, post, r)
            } else if c == 'd' {
                delete_begin_rel(pre, post, r)
            } else {
                post == pre && r is None
            },
            Key::Esc => post == (App { should_quit: true, ..pre }) && r is None,
            Key::Up => previous_todo_rel(pre, post) && r is None,
            Key::Down => next_todo_rel(pre, post) && r is None,
            Key::Enter => toggle_begin_rel(pre, post, r),
            _ => post == pre && r is None,
        },
        AppScreen::Help | AppScreen::Settings | AppScreen::TodoDetail => match key {
            Key::Esc => post == (App { current_screen: AppScreen::TodoList, ..pre }) && r is None,
            Key::Char(c) => if c == 'q' {
                post == (App { current_screen: AppScreen::TodoList, ..pre }) && r is None
            } else {
                post == pre && r is None
            },
            _ => post == pre && r is None,
        },
        AppScreen::AddTodo | AppScreen::EditTodo | AppScreen::Search => match key {
            Key::Esc => discard_rel(pre, post) && r is None,
            _ => post == pre && r is None,
        },
    }
}

/// The transition table for editing (text capture) mode.
pub open spec fn editing_step(pre: App, post: App, r: Option<Action>, key: Key) -> bool {
    match key {
        Key::Esc => cancel_edit_rel(pre, post) && r is None,
        Key::Enter => match pre.current_screen {
            AppScreen::AddTodo => create_begin_rel(pre, post, r),
            AppScreen::EditTodo => update_begin_rel(pre, post, r),
            AppScreen::Search => execute_search_rel(pre, post, r),
            _ => post == pre && r is None,
        },
        Key::Tab => r is None && post == (App { input_form: post.input_form, ..pre })
            && post.input_form == (InputForm {
            current_field: next_field_of(pre.input_form.current_field),
            ..pre.input_form
        }),
        Key::BackTab => r is None && post == (App { input_form: post.input_form, ..pre })
            && post.input_form == (InputForm {
            current_field: previous_field_of(pre.input_form.current_field),
            ..pre.input_form
        }),
        Key::Char(c) => r is None && (if pre.current_screen == AppScreen::Search {
            post.search_query@ == pre.search_query@.push(c) && post == (App {
                search_query: post.search_query,
                ..pre
            })
        } else {
            char_applied(pre.input_form, post.input_form, c) && post == (App {
                input_form: post.input_form,
                ..pre
            })
        }),
        Key::Backspace => r is None && (if pre.current_screen == AppScreen::Search {
            post.search_query@ == dropped_last(pre.search_query@) && post == (App {
                search_query: post.search_query,
                ..pre
            })
        } else {
            backspace_applied(pre.input_form, post.input_form) && post == (App {
                input_form: post.input_form,
                ..pre
            })
        }),
        _ => post == pre && r is None,
    }
}

impl App {
    /// Routes one key event: messages are dropped first, then the transition
    /// table of the current mode applies.  The returned action, if any, is
    /// the remote call the driver must perform next.
    pub fn handle_key(&mut self, key: Key) -> (r: Option<Action>)
        requires
            old(self).wf(),
        ensures
            old(self).input_mode == InputMode::Normal ==> normal_step(
                with_msgs_cleared(*old(self)),
                *final(self),
                r,
                key,
            ),
            old(self).input_mode == InputMode::Editing ==> editing_step(
                with_msgs_cleared(*old(self)),
                *final(self),
                r,
                key,
            ),
            final(self).wf(),
    {
        self.clear_messages();
        match self.input_mode {
            InputMode::Normal => self.handle_normal_key(key),
            InputMode::Editing => self.handle_editing_key(key),
        }
    }

    fn handle_normal_key(&mut self, key: Key) -> (r: Option<Action>)
        requires
            old(self).wf(),
        ensures
            normal_step(*old(self), *final(self), r, key),
            final(self).wf(),
    {
        match self.current_screen {
            AppScreen::TodoList => match key {
                Key::Char(c) => {
                    if c == 'q' {
                        self.quit();
                        None
                    } else if c == 'r' {
                        self.load_todos();
                        Some(Action::Load)
                    } else if c == 'n' || c == 'a' {
                        self.current_screen = AppScreen::AddTodo;
                        self.input_mode = InputMode::Editing;
                        self.input_form.clear();
                        None
                    } else if c == 'e' {
                        self.start_edit_selected_todo();
                        None
                    } else if c == 'h' || c == '?' {
                        self.current_screen = AppScreen::Help;
                        None
                    } else if c == 's' {
                        self.current_screen = AppScreen::Settings;
                        None
                    } else if c == '/' {
                        self.start_search();
                        None
                    } else if c == 'f' {
                        self.toggle_show_all();
                        None
                    } else if c == '1' {
                        self.set_priority_filter(Some(1));
                        None
                    } else if c == '2' {
                        self.set_priority_filter(Some(2));
                        None
                    } else if c == '3' {
                        self.set_priority_filter(Some(3));
                        None
                    } else if c == '0' {
                        self.set_priority_filter(None);
                        None
                    } else if c == 'v' {
                        self.show_todo_detail();
                        None
                    } else if c == 'k' {
                        self.previous_todo();
                        None
                    } else if c == 'j' {
                        self.next_todo();
                        None
                    } else if c == ' ' {
                        self.toggle_selected_todo()
                    } else if c == 'd' {
                        self.delete_selected_todo()
                    } else {
                        None
                    }
                },
                Key::Esc => {
                    self.quit();
                    None
                },
                Key::Up => {
                    self.previous_todo();
                    None
                },
                Key::Down => {
                    self.next_todo();
                    None
                },
                Key::Enter => self.toggle_selected_todo(),
                _ => None,
            },
            AppScreen::Help | AppScreen::Settings | AppScreen::TodoDetail => {
                match key {
                    Key::Esc => {
                        self.current_screen = AppScreen::TodoList;
                    },
                    Key::Char(c) => {
                        if c == 'q' {
                            self.current_screen = AppScreen::TodoList;
                        }
                    },
                    _ => {},
                }
                None
            },
            AppScreen::AddTodo | AppScreen::EditTodo | AppScreen::Search => {
                match key {
                    Key::Esc => {
                        self.current_screen = AppScreen::TodoList;
                        self.input_mode = InputMode::Normal;
                        self.input_form.clear();
                        self.search_query = String::new();
                    },
                    _ => {},
                }
                None
            },
        }
    }

    fn handle_editing_key(&mut self, key: Key) -> (r: Option<Action>)
        requires
            old(self).wf(),
        ensures
            editing_step(*old(self), *final(self), r, key),
            final(self).wf(),
    {
        match key {
            Key::Esc => {
                self.current_screen = AppScreen::TodoList;
                self.input_mode = InputMode::Normal;
                self.input_form.clear();
                None
            },
            Key::Enter => {
                match self.current_screen {
                    AppScreen::AddTodo => self.create_todo(),
                    AppScreen::EditTodo => self.update_selected_todo(),
                    AppScreen::Search => self.execute_search(),
                    _ => None,
                }
            },
            Key::Tab => {
                self.input_form.next_field();
                None
            },
            Key::BackTab => {
                self.input_form.previous_field();
                None
            },
            Key::Char(c) => {
                if self.current_screen == AppScreen::Search {
                    push_char(&mut self.search_query, c);
                } else {
                    self.input_form.handle_char(c);
                }
                None
            },
            Key::Backspace => {
                if self.current_screen == AppScreen::Search {
                    let _ = pop_char(&mut self.search_query);
                } else {
                    self.input_form.handle_backspace();
                }
                None
            },
            _ => None,
        }
    }
}

} // verus!
