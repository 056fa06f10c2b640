//! Application state and the action coordinator.
//!
//! Every remote operation is split in two: a *begin* method that validates,
//! raises the busy flag and says which call the surrounding driver must make,
//! and a *finish* method that folds the call's outcome back into local state.
//! The driver performs the network call between the two; the decisions on
//! either side of it are all here and all verified.

use vstd::prelude::*;
use vstd::pervasive::VecAdditionalExecFns;
use crate::dates::invalid_date_msg;
use crate::filter::{
    clamped_selection, compute_filtered, filtered_view, next_selection_of, previous_selection_of,
};
use crate::form::{create_request_of, is_due_char, spec_parse_due, InputForm};
use crate::strutil::{decimal_rep, trim_of, usize_to_string};
use crate::todo::{
    first_match_at, lemma_first_match_unique, lemma_remove_by_id_push, patched_first, remove_by_id,
    CreateTodoRequest, Todo, UpdateTodoRequest,
};

verus! {

/// The top-level screens; exactly one is active at a time.
#[derive(Debug, Clone, Copy, PartialEq, Eq, Structural)]
pub enum AppScreen {
    TodoList,
    AddTodo,
    EditTodo,
    Help,
    Settings,
    Search,
    TodoDetail,
}

/// Whether keystrokes navigate or are captured as text.
#[derive(Debug, Clone, Copy, PartialEq, Eq, Structural)]
pub enum InputMode {
    Normal,
    Editing,
}

/// The remote call that the driver must perform next, as decided by a begin
/// method; the matching finish method folds the outcome back in.
#[derive(Debug)]
pub enum Action {
    Load,
    Search { query: String },
    Create { request: CreateTodoRequest },
    Update { index: usize, id: String, request: UpdateTodoRequest },
    Toggle { index: usize, id: String },
    Delete { index: usize, id: String },
}

/// The whole state of the interactive application that the renderer reads.
pub struct App {
    pub should_quit: bool,
    pub current_screen: AppScreen,
    pub input_mode: InputMode,
    pub todos: Vec<Todo>,
    pub selected_todo: Option<usize>,
    pub input_buffer: String,
    pub input_form: InputForm,
    pub loading: bool,
    pub error_message: Option<String>,
    pub success_message: Option<String>,
    pub search_query: String,
    pub show_all_todos: bool,
    pub filter_priority: Option<i32>,
    pub filter_tag: Option<String>,
    pub filtered_todos: Vec<Todo>,
}

/// The filtered view that `a`'s collection and filters denote.
pub open spec fn derived_view(a: App) -> Seq<Todo> {
    filtered_view(a.todos@, a.show_all_todos, a.search_query@, a.filter_priority)
}

/// `a` with both status messages dropped.
pub open spec fn with_msgs_cleared(a: App) -> App {
    App { error_message: None, success_message: None, ..a }
}

impl App {
    /// The selection is absent exactly when the filtered view is empty and
    /// otherwise in range, and at most one status message is present.
    pub open spec fn wf(self) -> bool {
        &&& (self.selected_todo is None <==> self.filtered_todos@.len() == 0)
        &&& (match self.selected_todo {
            Some(i) => i < self.filtered_todos@.len(),
            None => true,
        })
        &&& !(self.error_message is Some && self.success_message is Some)
    }

    /// The state a fresh application starts in: the list screen in normal
    /// mode, nothing loaded, nothing selected, no filters, no messages.
    pub open spec fn is_initial(self) -> bool {
        &&& !self.should_quit
        &&& self.current_screen == AppScreen::TodoList
        &&& self.input_mode == InputMode::Normal
        &&& self.todos@.len() == 0
        &&& self.selected_todo is None
        &&& self.input_buffer@.len() == 0
        &&& self.input_form.is_cleared()
        &&& !self.loading
        &&& self.error_message is None
        &&& self.success_message is None
        &&& self.search_query@.len() == 0
        &&& !self.show_all_todos
        &&& self.filter_priority is None
        &&& self.filter_tag is None
        &&& self.filtered_todos@.len() == 0
    }

    pub fn new() -> (app: App)
        ensures
            app.is_initial(),
            app.wf(),
    {
        App {
            should_quit: false,
            current_screen: AppScreen::TodoList,
            input_mode: InputMode::Normal,
            todos: Vec::new(),
            selected_todo: None,
            input_buffer: String::new(),
            input_form: InputForm::new(),
            loading: false,
            error_message: None,
            success_message: None,
            search_query: String::new(),
            show_all_todos: false,
            filter_priority: None,
            filter_tag: None,
            filtered_todos: Vec::new(),
        }
    }

    pub fn quit(&mut self)
        ensures
            *final(self) == (App { should_quit: true, ..*old(self) }),
    {
        self.should_quit = true;
    }

    pub fn clear_messages(&mut self)
        ensures
            *final(self) == with_msgs_cleared(*old(self)),
    {
        self.error_message = None;
        self.success_message = None;
    }

    /// Replaces any status message with the given error.
    pub fn show_error(&mut self, message: String)
        ensures
            *final(self) == (App {
                error_message: Some(message),
                success_message: None,
                ..*old(self)
            }),
    {
        self.error_message = Some(message);
        self.success_message = None;
    }

    /// Replaces any status message with the given success note.
    pub fn show_success(&mut self, message: String)
        ensures
            *final(self) == (App {
                success_message: Some(message),
                error_message: None,
                ..*old(self)
            }),
    {
        self.success_message = Some(message);
        self.error_message = None;
    }

    /// Recomputes the filtered view from the collection and the active
    /// filters, then clamps the selection to the new view.
    pub fn apply_filters(&mut self)
        ensures
            refilter_rel(*old(self), *final(self)),
            old(self).wf() ==> final(self).wf(),
    {
        let fv = compute_filtered(
            &self.todos,
            self.show_all_todos,
            &self.search_query,
            self.filter_priority,
        );
        self.filtered_todos = fv;
        let len = self.filtered_todos.len();
        if len == 0 {
            self.selected_todo = None;
        } else {
            match self.selected_todo {
                Some(i) => {
                    if i >= len {
                        self.selected_todo = Some(0);
                    }
                },
                None => {
                    self.selected_todo = Some(0);
                },
            }
        }
    }

    /// Opens the search screen in editing mode with an empty query.
    pub fn start_search(&mut self)
        ensures
            start_search_rel(*old(self), *final(self)),
    {
        self.current_screen = AppScreen::Search;
        self.input_mode = InputMode::Editing;
        self.search_query = String::new();
        self.clear_messages();
    }

    /// Commits the query: a blank query just returns to the list and
    /// re-filters locally; otherwise the busy flag goes up and the driver is
    /// told to run the remote search.
    pub fn execute_search(&mut self) -> (r: Option<Action>)
        requires
            old(self).wf(),
        ensures
            execute_search_rel(*old(self), *final(self), r),
            final(self).wf(),
    {
        let trimmed_empty = crate::strutil::trim_str(self.search_query.as_str()).is_empty();
        if trimmed_empty {
            self.current_screen = AppScreen::TodoList;
            self.input_mode = InputMode::Normal;
            self.apply_filters();
            return None;
        }
        self.loading = true;
        self.clear_messages();
        Some(Action::Search { query: self.search_query.clone() })
    }

    /// Folds a remote search outcome back in: results replace the collection
    /// and the view returns to the list; a failure only leaves an error note.
    pub fn finish_search(&mut self, outcome: Option<Vec<Todo>>)
        requires
            old(self).wf(),
        ensures
            finish_search_rel(*old(self), *final(self), outcome),
            final(self).wf(),
    {
        match outcome {
            Some(ts) => {
                self.todos = ts;
                self.apply_filters();
                self.current_screen = AppScreen::TodoList;
                self.input_mode = InputMode::Normal;
                let msg = String::from_str("Found ").concat(
                    usize_to_string(self.filtered_todos.len()).as_str(),
                ).concat(" results for '").concat(self.search_query.as_str()).concat("'");
                self.show_success(msg);
            },
            None => {
                self.show_error(String::from_str("Search failed. Please try again."));
            },
        }
        self.loading = false;
    }

    /// Flips between showing every todo and only the pending ones.
    pub fn toggle_show_all(&mut self)
        requires
            old(self).wf(),
        ensures
            toggle_show_all_rel(*old(self), *final(self)),
            final(self).wf(),
    {
        self.show_all_todos = !self.show_all_todos;
        self.apply_filters();
        let msg = if self.show_all_todos {
            String::from_str("Now showing all todos")
        } else {
            String::from_str("Now showing pending todos")
        };
        self.show_success(msg);
    }

    /// Sets or clears the priority filter and re-filters.
    pub fn set_priority_filter(&mut self, priority: Option<i32>)
        requires
            old(self).wf(),
        ensures
            set_priority_rel(*old(self), *final(self), priority),
            final(self).wf(),
    {
        self.filter_priority = priority;
        self.apply_filters();
        let msg = match priority {
            Some(p) => {
                if p == 1 {
                    String::from_str("Filtering by low priority")
                } else if p == 2 {
                    String::from_str("Filtering by medium priority")
                } else if p == 3 {
                    String::from_str("Filtering by high priority")
                } else {
                    String::from_str("Invalid priority")
                }
            },
            None => String::from_str("Priority filter cleared"),
        };
        self.show_success(msg);
    }

    /// Opens the detail screen for the selection; without one, nothing
    /// happens.
    pub fn show_todo_detail(&mut self)
        ensures
            show_detail_rel(*old(self), *final(self)),
    {
        if self.selected_todo.is_some() {
            self.current_screen = AppScreen::TodoDetail;
        }
    }

    /// Moves the selection one row down, wrapping; no-op on an empty view.
    pub fn next_todo(&mut self)
        requires
            old(self).wf(),
        ensures
            next_todo_rel(*old(self), *final(self)),
            final(self).wf(),
    {
        if !self.filtered_todos.is_empty() {
            let len = self.filtered_todos.len();
            let i = match self.selected_todo {
                Some(i) => if i >= len - 1 {
                    0
                } else {
                    i + 1
                },
                None => 0,
            };
            self.selected_todo = Some(i);
        }
    }

    /// Moves the selection one row up, wrapping; no-op on an empty view.
    pub fn previous_todo(&mut self)
        requires
            old(self).wf(),
        ensures
            previous_todo_rel(*old(self), *final(self)),
            final(self).wf(),
    {
        if !self.filtered_todos.is_empty() {
            let len = self.filtered_todos.len();
            let i = match self.selected_todo {
                Some(i) => if i == 0 {
                    len - 1
                } else {
                    i - 1
                },
                None => 0,
            };
            self.selected_todo = Some(i);
        }
    }

    /// Raises the busy flag and clears the messages; the driver must then
    /// fetch the collection and call `finish_load`.
    pub fn load_todos(&mut self)
        ensures
            load_begin_rel(*old(self), *final(self)),
    {
        self.loading = true;
        self.clear_messages();
    }

    /// Folds a reload outcome back in.
    pub fn finish_load(&mut self, outcome: Option<Vec<Todo>>)
        requires
            old(self).wf(),
        ensures
            finish_load_rel(*old(self), *final(self), outcome),
            final(self).wf(),
    {
        match outcome {
            Some(ts) => {
                let total = ts.len();
                self.todos = ts;
                self.apply_filters();
                let msg = String::from_str("Loaded ").concat(
                    usize_to_string(total).as_str(),
                ).concat(" todo(s), showing ").concat(
                    usize_to_string(self.filtered_todos.len()).as_str(),
                );
                self.show_success(msg);
            },
            None => {
                self.show_error(
                    String::from_str(
                        "Unable to load todos. Please check your connection and try again.",
                    ),
                );
            },
        }
        self.loading = false;
    }

    /// Begins toggling the selected todo's completion; without a selection,
    /// nothing happens.
    pub fn toggle_selected_todo(&mut self) -> (r: Option<Action>)
        requires
            old(self).wf(),
        ensures
            toggle_begin_rel(*old(self), *final(self), r),
            final(self).wf(),
    {
        match self.selected_todo {
            Some(index) => {
                let id = self.filtered_todos[index].id.clone();
                self.loading = true;
                self.clear_messages();
                Some(Action::Toggle { index, id })
            },
            None => None,
        }
    }

    /// Folds a toggle outcome back in: on success the returned todo replaces
    /// the entry in both the collection and the filtered view; on failure
    /// both stay untouched and only an error note is shown.
    pub fn finish_toggle(&mut self, index: usize, outcome: Option<Todo>)
        requires
            old(self).wf(),
            old(self).selected_todo == Some(index),
        ensures
            finish_toggle_rel(*old(self), *final(self), index, outcome),
            final(self).wf(),
    {
        match outcome {
            Some(updated) => {
                let id = self.filtered_todos[index].id.clone();
                self.patch_todos_first(&id, &updated);
                self.filtered_todos.set(index, updated);
                self.show_success(String::from_str("Todo toggled successfully"));
            },
            None => {
                self.show_error(
                    String::from_str("Unable to update todo status. Please try again."),
                );
            },
        }
        self.loading = false;
    }

    /// Replaces the first entry of the collection carrying `id`, if any.
    fn patch_todos_first(&mut self, id: &String, u: &Todo)
        ensures
            patched_first(old(self).todos@, id@, *u, final(self).todos@),
            *final(self) == (App { todos: final(self).todos, ..*old(self) }),
    {
        let n = self.todos.len();
        let mut j: usize = 0;
        let mut pos: Option<usize> = None;
        while j < n
            invariant
                j <= n,
                n == self.todos@.len(),
                match pos {
                    Some(p) => first_match_at(self.todos@, id@, p as int),
                    None => forall|k: int| 0 <= k < j ==> (#[trigger] self.todos@[k]).id@ != id@,
                },
            decreases n - j,
        {
            if pos.is_none() && self.todos[j].id == *id {
                pos = Some(j);
            }
            j = j + 1;
        }
        match pos {
            Some(p) => {
                self.todos.set(p, u.clone());
                proof {
                    let w = choose|q: int| first_match_at(old(self).todos@, id@, q);
                    lemma_first_match_unique(old(self).todos@, id@, w, p as int);
                }
            },
            None => {
                proof {
                    assert(!exists|q: int| first_match_at(self.todos@, id@, q));
                }
            },
        }
    }

    /// Begins deleting the selected todo; without a selection, nothing
    /// happens.
    pub fn delete_selected_todo(&mut self) -> (r: Option<Action>)
        requires
            old(self).wf(),
        ensures
            delete_begin_rel(*old(self), *final(self), r),
            final(self).wf(),
    {
        match self.selected_todo {
            Some(index) => {
                let id = self.filtered_todos[index].id.clone();
                self.loading = true;
                self.clear_messages();
                Some(Action::Delete { index, id })
            },
            None => None,
        }
    }

    /// Folds a delete outcome back in: on success the todo leaves both the
    /// collection and the filtered view and the selection is clamped to the
    /// shrunken view (kept when still in range, first entry otherwise, absent
    /// on an empty view); on failure both stay untouched.
    pub fn finish_delete(&mut self, index: usize, ok: bool)
        requires
            old(self).wf(),
            old(self).selected_todo == Some(index),
        ensures
            finish_delete_rel(*old(self), *final(self), index, ok),
            final(self).wf(),
    {
        if ok {
            let id = self.filtered_todos[index].id.clone();
            let title = self.filtered_todos[index].title.clone();
            let n = self.todos.len();
            let mut kept: Vec<Todo> = Vec::new();
            proof {
                assert(self.todos@.subrange(0, 0) =~= Seq::<Todo>::empty());
            }
            let mut j: usize = 0;
            while j < n
                invariant
                    j <= n,
                    n == self.todos@.len(),
                    kept@ == remove_by_id(self.todos@.subrange(0, j as int), id@),
                decreases n - j,
            {
                if !(self.todos[j].id == id) {
                    kept.push(self.todos[j].clone());
                }
                proof {
                    let pre = self.todos@.subrange(0, j as int);
                    assert(self.todos@.subrange(0, j as int + 1) =~= pre.push(
                        self.todos@[j as int],
                    ));
                    lemma_remove_by_id_push(pre, id@, self.todos@[j as int]);
                }
                j = j + 1;
            }
            proof {
                assert(self.todos@.subrange(0, n as int) =~= self.todos@);
            }
            self.todos = kept;
            self.filtered_todos.remove(index);
            let len = self.filtered_todos.len();
            if len == 0 {
                self.selected_todo = None;
            } else if index >= len {
                self.selected_todo = Some(0);
            }
            self.show_success(String::from_str("Deleted: ").concat(title.as_str()));
        } else {
            self.show_error(String::from_str("Unable to delete todo. Please try again."));
        }
        self.loading = false;
    }

    /// Pre-populates the form from the selected todo and opens the edit
    /// screen; without a selection, nothing happens.
    pub fn start_edit_selected_todo(&mut self)
        requires
            old(self).wf(),
        ensures
            edit_begin_rel(*old(self), *final(self)),
            final(self).wf(),
    {
        match self.selected_todo {
            Some(index) => {
                self.input_form.title = self.filtered_todos[index].title.clone();
                self.input_form.description = match &self.filtered_todos[index].description {
                    Some(d) => d.clone(),
                    None => String::new(),
                };
                self.input_form.priority = self.filtered_todos[index].priority;
                self.input_form.due_date = match self.filtered_todos[index].due_date {
                    Some(ts) => crate::dates::format_local_datetime(ts),
                    None => String::new(),
                };
                self.current_screen = AppScreen::EditTodo;
                self.input_mode = InputMode::Editing;
                self.clear_messages();
            },
            None => {},
        }
    }

    /// Begins updating the selected todo from the form: an empty title or a
    /// malformed due date is rejected with a message before anything is
    /// dispatched; otherwise the busy flag goes up and the driver is handed
    /// the update payload.
    pub fn update_selected_todo(&mut self) -> (r: Option<Action>)
        requires
            old(self).wf(),
        ensures
            update_begin_rel(*old(self), *final(self), r),
            final(self).wf(),
    {
        if !self.input_form.is_valid() {
            self.show_error(String::from_str("Please enter a title for your todo"));
            return None;
        }
        match self.selected_todo {
            Some(index) => {
                let id = self.filtered_todos[index].id.clone();
                self.loading = true;
                self.clear_messages();
                let due_date = match self.input_form.parse_due_date() {
                    Ok(due) => due,
                    Err(err) => {
                        self.loading = false;
                        self.show_error(err);
                        return None;
                    },
                };
                let desc_trimmed = crate::strutil::trim_str(self.input_form.description.as_str());
                let request = UpdateTodoRequest {
                    title: Some(
                        crate::strutil::trim_str(self.input_form.title.as_str()).to_owned(),
                    ),
                    description: if desc_trimmed.is_empty() {
                        None
                    } else {
                        Some(desc_trimmed.to_owned())
                    },
                    completed: None,
                    priority: Some(self.input_form.priority),
                    due_date,
                };
                Some(Action::Update { index, id, request })
            },
            None => None,
        }
    }

    /// Folds an update outcome back in: on success the returned todo replaces
    /// the entry in both the collection and the filtered view, the form is
    /// reset and the view returns to the list; on failure both stay
    /// untouched.
    pub fn finish_update(&mut self, index: usize, outcome: Option<Todo>)
        requires
            old(self).wf(),
            old(self).selected_todo == Some(index),
        ensures
            finish_update_rel(*old(self), *final(self), index, outcome),
            final(self).wf(),
    {
        match outcome {
            Some(updated) => {
                let id = self.filtered_todos[index].id.clone();
                let title = updated.title.clone();
                self.patch_todos_first(&id, &updated);
                self.filtered_todos.set(index, updated);
                self.input_form.clear();
                self.current_screen = AppScreen::TodoList;
                self.input_mode = InputMode::Normal;
                self.show_success(String::from_str("Updated: ").concat(title.as_str()));
            },
            None => {
                self.show_error(String::from_str("Unable to update todo. Please try again."));
            },
        }
        self.loading = false;
    }

    /// Begins creating a todo from the form: an empty title or a malformed
    /// due date is rejected with a message before anything is dispatched;
    /// otherwise the busy flag goes up and the driver is handed the creation
    /// payload.
    pub fn create_todo(&mut self) -> (r: Option<Action>)
        requires
            old(self).wf(),
        ensures
            create_begin_rel(*old(self), *final(self), r),
            final(self).wf(),
    {
        if !self.input_form.is_valid() {
            self.show_error(String::from_str("Please enter a title for your todo"));
            return None;
        }
        self.loading = true;
        self.clear_messages();
        match self.input_form.to_create_request() {
            Ok(request) => Some(Action::Create { request }),
            Err(err) => {
                self.loading = false;
                self.show_error(err);
                None
            },
        }
    }

    /// Folds a creation outcome back in: on success the new todo joins the
    /// collection, the view is re-filtered, the new entry is selected when it
    /// is visible, the form is reset and the view returns to the list; on
    /// failure nothing changes but an error note.
    pub fn finish_create(&mut self, outcome: Option<Todo>)
        requires
            old(self).wf(),
        ensures
            finish_create_rel(*old(self), *final(self), outcome),
            final(self).wf(),
    {
        match outcome {
            Some(created) => {
                let title = created.title.clone();
                let id = created.id.clone();
                self.todos.push(created);
                self.apply_filters();
                let n = self.filtered_todos.len();
                let mut j: usize = 0;
                let mut pos: Option<usize> = None;
                while j < n
                    invariant
                        j <= n,
                        n == self.filtered_todos@.len(),
                        match pos {
                            Some(p) => first_match_at(self.filtered_todos@, id@, p as int),
                            None => forall|k: int|
                                0 <= k < j ==> (#[trigger] self.filtered_todos@[k]).id@ != id@,
                        },
                    decreases n - j,
                {
                    if pos.is_none() && self.filtered_todos[j].id == id {
                        pos = Some(j);
                    }
                    j = j + 1;
                }
                match pos {
                    Some(p) => {
                        self.selected_todo = Some(p);
                        proof {
                            assert(first_match_at(self.filtered_todos@, id@, p as int));
                        }
                    },
                    None => {
                        proof {
                            assert(!exists|q: int| first_match_at(self.filtered_todos@, id@, q));
                        }
                    },
                }
                self.input_form.clear();
                self.current_screen = AppScreen::TodoList;
                self.input_mode = InputMode::Normal;
                self.show_success(String::from_str("Created: ").concat(title.as_str()));
            },
            None => {
                self.show_error(String::from_str("Unable to create todo. Please try again."));
            },
        }
        self.loading = false;
    }
}

/// The filtered view was recomputed from the collection and filters, the
/// selection clamped to it, and nothing else changed.
pub open spec fn refilter_rel(pre: App, post: App) -> bool {
    &&& post.filtered_todos@ == derived_view(pre)
    &&& post.selected_todo == clamped_selection(
        pre.selected_todo,
        post.filtered_todos@.len() as usize,
    )
    &&& post == (App {
        filtered_todos: post.filtered_todos,
        selected_todo: post.selected_todo,
        ..pre
    })
}

/// The search screen opened in editing mode with a blank query and no
/// messages; nothing else changed.
pub open spec fn start_search_rel(pre: App, post: App) -> bool {
    &&& post.search_query@.len() == 0
    &&& post == (App {
        current_screen: AppScreen::Search,
        input_mode: InputMode::Editing,
        search_query: post.search_query,
        error_message: None,
        success_message: None,
        ..pre
    })
}

/// Committing the query: a blank one returns to the list and re-filters with
/// no remote call; otherwise the busy flag went up, messages were cleared and
/// the remote search over the exact query was requested.
pub open spec fn execute_search_rel(pre: App, post: App, r: Option<Action>) -> bool {
    if trim_of(pre.search_query@).len() == 0 {
        &&& r is None
        &&& post.filtered_todos@ == derived_view(pre)
        &&& post.selected_todo == clamped_selection(
            pre.selected_todo,
            post.filtered_todos@.len() as usize,
        )
        &&& post == (App {
            current_screen: AppScreen::TodoList,
            input_mode: InputMode::Normal,
            filtered_todos: post.filtered_todos,
            selected_todo: post.selected_todo,
            ..pre
        })
    } else {
        &&& r == Some(Action::Search { query: pre.search_query })
        &&& post == (App { loading: true, error_message: None, success_message: None, ..pre })
    }
}

/// The outcome of a remote search folded in: results replace the collection,
/// the view is re-filtered and returns to the list with a count note; a
/// failure leaves everything but an error note untouched.
pub open spec fn finish_search_rel(pre: App, post: App, outcome: Option<Vec<Todo>>) -> bool {
    match outcome {
        Some(ts) => {
            &&& post.todos == ts
            &&& post.filtered_todos@ == filtered_view(
                ts@,
                pre.show_all_todos,
                pre.search_query@,
                pre.filter_priority,
            )
            &&& post.selected_todo == clamped_selection(
                pre.selected_todo,
                post.filtered_todos@.len() as usize,
            )
            &&& (match post.success_message {
                Some(m) => m@ == "Found "@ + decimal_rep(post.filtered_todos@.len() as int)
                    + " results for '"@ + pre.search_query@ + "'"@,
                None => false,
            })
            &&& post == (App {
                todos: post.todos,
                filtered_todos: post.filtered_todos,
                selected_todo: post.selected_todo,
                current_screen: AppScreen::TodoList,
                input_mode: InputMode::Normal,
                success_message: post.success_message,
                error_message: None,
                loading: false,
                ..pre
            })
        },
        None => {
            &&& (match post.error_message {
                Some(m) => m@ == "Search failed. Please try again."@,
                None => false,
            })
            &&& post == (App {
                error_message: post.error_message,
                success_message: None,
                loading: false,
                ..pre
            })
        },
    }
}

/// The completed-items filter was flipped, the view re-filtered, and a note
/// says which set is now shown.
pub open spec fn toggle_show_all_rel(pre: App, post: App) -> bool {
    &&& post.show_all_todos == !pre.show_all_todos
    &&& post.filtered_todos@ == filtered_view(
        pre.todos@,
        !pre.show_all_todos,
        pre.search_query@,
        pre.filter_priority,
    )
    &&& post.selected_todo == clamped_selection(
        pre.selected_todo,
        post.filtered_todos@.len() as usize,
    )
    &&& (match post.success_message {
        Some(m) => m@ == (if !pre.show_all_todos {
            "Now showing all todos"@
        } else {
            "Now showing pending todos"@
        }),
        None => false,
    })
    &&& post == (App {
        show_all_todos: post.show_all_todos,
        filtered_todos: post.filtered_todos,
        selected_todo: post.selected_todo,
        success_message: post.success_message,
        error_message: None,
        ..pre
    })
}

/// The priority filter was set (or cleared), the view re-filtered, and a
/// note names the filter now in force.
pub open spec fn set_priority_rel(pre: App, post: App, priority: Option<i32>) -> bool {
    &&& post.filter_priority == priority
    &&& post.filtered_todos@ == filtered_view(
        pre.todos@,
        pre.show_all_todos,
        pre.search_query@,
        priority,
    )
    &&& post.selected_todo == clamped_selection(
        pre.selected_todo,
        post.filtered_todos@.len() as usize,
    )
    &&& (match post.success_message {
        Some(m) => m@ == (match priority {
            Some(p) => if p == 1 {
                "Filtering by low priority"@
            } else if p == 2 {
                "Filtering by medium priority"@
            } else if p == 3 {
                "Filtering by high priority"@
            } else {
                "Invalid priority"@
            },
            None => "Priority filter cleared"@,
        }),
        None => false,
    })
    &&& post == (App {
        filter_priority: post.filter_priority,
        filtered_todos: post.filtered_todos,
        selected_todo: post.selected_todo,
        success_message: post.success_message,
        error_message: None,
        ..pre
    })
}

/// With a selection the detail screen opened; without one nothing changed.
pub open spec fn show_detail_rel(pre: App, post: App) -> bool {
    if pre.selected_todo is Some {
        post == (App { current_screen: AppScreen::TodoDetail, ..pre })
    } else {
        post == pre
    }
}

/// The selection moved one row down, wrapping; on an empty view nothing
/// changed.
pub open spec fn next_todo_rel(pre: App, post: App) -> bool {
    if pre.filtered_todos@.len() == 0 {
        post == pre
    } else {
        post == (App {
            selected_todo: Some(
                next_selection_of(pre.selected_todo, pre.filtered_todos@.len() as usize),
            ),
            ..pre
        })
    }
}

/// The selection moved one row up, wrapping; on an empty view nothing
/// changed.
pub open spec fn previous_todo_rel(pre: App, post: App) -> bool {
    if pre.filtered_todos@.len() == 0 {
        post == pre
    } else {
        post == (App {
            selected_todo: Some(
                previous_selection_of(pre.selected_todo, pre.filtered_todos@.len() as usize),
            ),
            ..pre
        })
    }
}

/// The busy flag went up and the messages were cleared; nothing else changed.
pub open spec fn load_begin_rel(pre: App, post: App) -> bool {
    post == (App { loading: true, error_message: None, success_message: None, ..pre })
}

/// The outcome of a reload folded in: the fetched collection replaces the
/// local one, the view is re-filtered and a count note is shown; a failure
/// leaves everything but an error note untouched.
pub open spec fn finish_load_rel(pre: App, post: App, outcome: Option<Vec<Todo>>) -> bool {
    match outcome {
        Some(ts) => {
            &&& post.todos == ts
            &&& post.filtered_todos@ == filtered_view(
                ts@,
                pre.show_all_todos,
                pre.search_query@,
                pre.filter_priority,
            )
            &&& post.selected_todo == clamped_selection(
                pre.selected_todo,
                post.filtered_todos@.len() as usize,
            )
            &&& (match post.success_message {
                Some(m) => m@ == "Loaded "@ + decimal_rep(ts@.len() as int) + " todo(s), showing "@
                    + decimal_rep(post.filtered_todos@.len() as int),
                None => false,
            })
            &&& post == (App {
                todos: post.todos,
                filtered_todos: post.filtered_todos,
                selected_todo: post.selected_todo,
                success_message: post.success_message,
                error_message: None,
                loading: false,
                ..pre
            })
        },
        None => {
            &&& (match post.error_message {
                Some(m) => m@
                    == "Unable to load todos. Please check your connection and try again."@,
                None => false,
            })
            &&& post == (App {
                error_message: post.error_message,
                success_message: None,
                loading: false,
                ..pre
            })
        },
    }
}

/// With a selection, the busy flag went up, the messages were cleared and
/// the toggle of exactly the selected todo was requested; without one,
/// nothing happened.
pub open spec fn toggle_begin_rel(pre: App, post: App, r: Option<Action>) -> bool {
    match pre.selected_todo {
        Some(i) => {
            &&& r == Some(Action::Toggle { index: i, id: pre.filtered_todos@[i as int].id })
            &&& post == (App { loading: true, error_message: None, success_message: None, ..pre })
        },
        None => r is None && post == pre,
    }
}

/// The outcome of a toggle folded in: on success the returned todo replaces
/// the first collection entry with its identifier and the entry at `index`
/// of the filtered view; on failure both stay untouched and only an error
/// note appears.  The busy flag comes back down either way.
pub open spec fn finish_toggle_rel(pre: App, post: App, index: usize, outcome: Option<Todo>) -> bool {
    match outcome {
        Some(u) => {
            &&& patched_first(pre.todos@, pre.filtered_todos@[index as int].id@, u, post.todos@)
            &&& post.filtered_todos@ == pre.filtered_todos@.update(index as int, u)
            &&& (match post.success_message {
                Some(m) => m@ == "Todo toggled successfully"@,
                None => false,
            })
            &&& post == (App {
                todos: post.todos,
                filtered_todos: post.filtered_todos,
                success_message: post.success_message,
                error_message: None,
                loading: false,
                ..pre
            })
        },
        None => {
            &&& (match post.error_message {
                Some(m) => m@ == "Unable to update todo status. Please try again."@,
                None => false,
            })
            &&& post == (App {
                error_message: post.error_message,
                success_message: None,
                loading: false,
                ..pre
            })
        },
    }
}

/// With a selection, the busy flag went up, the messages were cleared and
/// the deletion of exactly the selected todo was requested; without one,
/// nothing happened.
pub open spec fn delete_begin_rel(pre: App, post: App, r: Option<Action>) -> bool {
    match pre.selected_todo {
        Some(i) => {
            &&& r == Some(Action::Delete { index: i, id: pre.filtered_todos@[i as int].id })
            &&& post == (App { loading: true, error_message: None, success_message: None, ..pre })
        },
        None => r is None && post == pre,
    }
}

/// The outcome of a delete folded in: on success every collection entry with
/// the deleted identifier and the entry at `index` of the filtered view are
/// gone and the selection is clamped to the shrunken view: kept when still in
/// range, otherwise the first entry, or absent when the view emptied; on
/// failure everything but an error note stays untouched.
pub open spec fn finish_delete_rel(pre: App, post: App, index: usize, ok: bool) -> bool {
    if ok {
        &&& post.todos@ == remove_by_id(pre.todos@, pre.filtered_todos@[index as int].id@)
        &&& post.filtered_todos@ == pre.filtered_todos@.remove(index as int)
        &&& post.selected_todo == clamped_selection(
            Some(index),
            post.filtered_todos@.len() as usize,
        )
        &&& (match post.success_message {
            Some(m) => m@ == "Deleted: "@ + pre.filtered_todos@[index as int].title@,
            None => false,
        })
        &&& post == (App {
            todos: post.todos,
            filtered_todos: post.filtered_todos,
            selected_todo: post.selected_todo,
            success_message: post.success_message,
            error_message: None,
            loading: false,
            ..pre
        })
    } else {
        &&& (match post.error_message {
            Some(m) => m@ == "Unable to delete todo. Please try again."@,
            None => false,
        })
        &&& post == (App {
            error_message: post.error_message,
            success_message: None,
            loading: false,
            ..pre
        })
    }
}

/// With a selection, the form took over the selected todo's fields and the
/// edit screen opened in editing mode; without one, nothing happened.  The
/// due-date buffer is rendered by the machine's local time zone, so its value
/// is not pinned; it is empty for a todo without a due date, and in any case
/// holds only due-date characters, plus a leading sign for the far-off years
/// whose rendering carries one.
pub open spec fn edit_begin_rel(pre: App, post: App) -> bool {
    match pre.selected_todo {
        Some(i) => {
            let t = pre.filtered_todos@[i as int];
            &&& post.input_form.title == t.title
            &&& (match t.description {
                Some(d) => post.input_form.description == d,
                None => post.input_form.description@.len() == 0,
            })
            &&& post.input_form.priority == t.priority
            &&& post.input_form.current_field == pre.input_form.current_field
            &&& (t.due_date is None ==> post.input_form.due_date@.len() == 0)
            &&& (forall|k: int|
                0 <= k < post.input_form.due_date@.len() ==> is_due_char(
                    #[trigger] post.input_form.due_date@[k],
                ) || post.input_form.due_date@[k] == '+')
            &&& post == (App {
                input_form: post.input_form,
                current_screen: AppScreen::EditTodo,
                input_mode: InputMode::Editing,
                error_message: None,
                success_message: None,
                ..pre
            })
        },
        None => post == pre,
    }
}

/// `req` is exactly the update payload the form denotes, given the parsed
/// due date.
pub open spec fn update_request_of(f: InputForm, due: Option<i64>, req: UpdateTodoRequest) -> bool {
    &&& (match req.title {
        Some(t) => t@ == trim_of(f.title@),
        None => false,
    })
    &&& (match req.description {
        Some(d) => trim_of(f.description@).len() != 0 && d@ == trim_of(f.description@),
        None => trim_of(f.description@).len() == 0,
    })
    &&& req.completed is None
    &&& req.priority == Some(f.priority)
    &&& req.due_date == due
}

/// Committing an edit: an empty title or a malformed due date is rejected
/// with a message and nothing is dispatched; with a valid draft and a
/// selection the busy flag goes up and the update of exactly the selected
/// todo is requested.
pub open spec fn update_begin_rel(pre: App, post: App, r: Option<Action>) -> bool {
    if trim_of(pre.input_form.title@).len() == 0 {
        &&& r is None
        &&& (match post.error_message {
            Some(m) => m@ == "Please enter a title for your todo"@,
            None => false,
        })
        &&& post == (App { error_message: post.error_message, success_message: None, ..pre })
    } else {
        match pre.selected_todo {
            Some(i) => {
                match spec_parse_due(pre.input_form.due_date@) {
                    Some(due) => {
                        &&& (match r {
                            Some(a) => match a {
                                Action::Update { index, id, request } => {
                                    &&& index == i
                                    &&& id == pre.filtered_todos@[i as int].id
                                    &&& update_request_of(pre.input_form, due, request)
                                },
                                _ => false,
                            },
                            None => false,
                        })
                        &&& post == (App {
                            loading: true,
                            error_message: None,
                            success_message: None,
                            ..pre
                        })
                    },
                    None => {
                        &&& r is None
                        &&& (match post.error_message {
                            Some(m) => m@ == invalid_date_msg(),
                            None => false,
                        })
                        &&& post == (App {
                            loading: false,
                            error_message: post.error_message,
                            success_message: None,
                            ..pre
                        })
                    },
                }
            },
            None => r is None && post == pre,
        }
    }
}

/// The outcome of an update folded in: on success the returned todo replaces
/// the entry in both the collection and the filtered view, the form resets
/// and the list screen returns; on failure everything but an error note
/// stays untouched.
pub open spec fn finish_update_rel(pre: App, post: App, index: usize, outcome: Option<Todo>) -> bool {
    match outcome {
        Some(u) => {
            &&& patched_first(pre.todos@, pre.filtered_todos@[index as int].id@, u, post.todos@)
            &&& post.filtered_todos@ == pre.filtered_todos@.update(index as int, u)
            &&& post.input_form.is_cleared()
            &&& (match post.success_message {
                Some(m) => m@ == "Updated: "@ + u.title@,
                None => false,
            })
            &&& post == (App {
                todos: post.todos,
                filtered_todos: post.filtered_todos,
                input_form: post.input_form,
                current_screen: AppScreen::TodoList,
                input_mode: InputMode::Normal,
                success_message: post.success_message,
                error_message: None,
                loading: false,
                ..pre
            })
        },
        None => {
            &&& (match post.error_message {
                Some(m) => m@ == "Unable to update todo. Please try again."@,
                None => false,
            })
            &&& post == (App {
                error_message: post.error_message,
                success_message: None,
                loading: false,
                ..pre
            })
        },
    }
}

/// Committing the add form: an empty title or a malformed due date is
/// rejected with a message and nothing is dispatched; with a valid draft the
/// busy flag goes up and the creation of exactly the drafted todo is
/// requested.
pub open spec fn create_begin_rel(pre: App, post: App, r: Option<Action>) -> bool {
    if trim_of(pre.input_form.title@).len() == 0 {
        &&& r is None
        &&& (match post.error_message {
            Some(m) => m@ == "Please enter a title for your todo"@,
            None => false,
        })
        &&& post == (App { error_message: post.error_message, success_message: None, ..pre })
    } else {
        match spec_parse_due(pre.input_form.due_date@) {
            Some(_due) => {
                &&& (match r {
                    Some(a) => match a {
                        Action::Create { request } => create_request_of(pre.input_form, request),
                        _ => false,
                    },
                    None => false,
                })
                &&& post == (App {
                    loading: true,
                    error_message: None,
                    success_message: None,
                    ..pre
                })
            },
            None => {
                &&& r is None
                &&& (match post.error_message {
                    Some(m) => m@ == invalid_date_msg(),
                    None => false,
                })
                &&& post == (App {
                    loading: false,
                    error_message: post.error_message,
                    success_message: None,
                    ..pre
                })
            },
        }
    }
}

/// The outcome of a creation folded in: on success the new todo joins the
/// collection, the view is re-filtered, the new entry is selected when
/// visible, the form resets and the list screen returns; on failure
/// everything but an error note stays untouched.
pub open spec fn finish_create_rel(pre: App, post: App, outcome: Option<Todo>) -> bool {
    match outcome {
        Some(t) => {
            let fv = filtered_view(
                pre.todos@.push(t),
                pre.show_all_todos,
                pre.search_query@,
                pre.filter_priority,
            );
            &&& post.todos@ == pre.todos@.push(t)
            &&& post.filtered_todos@ == fv
            &&& (if exists|j: int| first_match_at(fv, t.id@, j) {
                match post.selected_todo {
                    Some(s) => first_match_at(fv, t.id@, s as int),
                    None => false,
                }
            } else {
                post.selected_todo == clamped_selection(pre.selected_todo, fv.len() as usize)
            })
            &&& post.input_form.is_cleared()
            &&& (match post.success_message {
                Some(m) => m@ == "Created: "@ + t.title@,
                None => false,
            })
            &&& post == (App {
                todos: post.todos,
                filtered_todos: post.filtered_todos,
                selected_todo: post.selected_todo,
                input_form: post.input_form,
                current_screen: AppScreen::TodoList,
                input_mode: InputMode::Normal,
                success_message: post.success_message,
                error_message: None,
                loading: false,
                ..pre
            })
        },
        None => {
            &&& (match post.error_message {
                Some(m) => m@ == "Unable to create todo. Please try again."@,
                None => false,
            })
            &&& post == (App {
                error_message: post.error_message,
                success_message: None,
                loading: false,
                ..pre
            })
        },
    }
}

} // verus!
