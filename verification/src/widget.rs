//! A stateful todo list: the rows to show plus the highlighted index.
//! Drawing the rows is the renderer's job; only the state lives here.

use vstd::prelude::*;
use crate::filter::{next_selection_of, previous_selection_of};
use crate::todo::Todo;

verus! {

/// The rows of a todo list together with the highlighted index.
pub struct TodoListWidget {
    pub todos: Vec<Todo>,
    pub selected: Option<usize>,
}

impl TodoListWidget {
    /// The highlight is absent exactly on an empty list and otherwise in
    /// range.
    pub open spec fn wf(self) -> bool {
        &&& (self.selected is None <==> self.todos@.len() == 0)
        &&& (match self.selected {
            Some(i) => i < self.todos@.len(),
            None => true,
        })
    }

    /// A widget over `todos`, highlighting the first row when there is one.
    pub fn new(todos: Vec<Todo>) -> (w: Self)
        ensures
            w.todos == todos,
            w.selected == (if todos@.len() == 0 {
                Option::<usize>::None
            } else {
                Some(0usize)
            }),
            w.wf(),
    {
        let selected = if todos.is_empty() {
            None
        } else {
            Some(0usize)
        };
        TodoListWidget { todos, selected }
    }

    /// Moves the highlight one row down, wrapping to the top; does nothing on
    /// an empty list.
    pub fn next(&mut self)
        requires
            old(self).wf(),
        ensures
            final(self).todos == old(self).todos,
            old(self).todos@.len() == 0 ==> final(self).selected == old(self).selected,
            old(self).todos@.len() > 0 ==> final(self).selected == Some(
                next_selection_of(old(self).selected, old(self).todos@.len() as usize),
            ),
            final(self).wf(),
    {
        if !self.todos.is_empty() {
            let len = self.todos.len();
            let i = match self.selected {
                Some(i) => if i >= len - 1 {
                    0
                } else {
                    i + 1
                },
                None => 0,
            };
            self.selected = Some(i);
        }
    }

    /// Moves the highlight one row up, wrapping to the bottom; does nothing
    /// on an empty list.
    pub fn previous(&mut self)
        requires
            old(self).wf(),
        ensures
            final(self).todos == old(self).todos,
            old(self).todos@.len() == 0 ==> final(self).selected == old(self).selected,
            old(self).todos@.len() > 0 ==> final(self).selected == Some(
                previous_selection_of(old(self).selected, old(self).todos@.len() as usize),
            ),
            final(self).wf(),
    {
        if !self.todos.is_empty() {
            let len = self.todos.len();
            let i = match self.selected {
                Some(i) => if i == 0 {
                    len - 1
                } else {
                    i - 1
                },
                None => 0,
            };
            self.selected = Some(i);
        }
    }

    /// The highlighted todo, if any.
    pub fn selected_todo(&self) -> (r: Option<&Todo>)
        ensures
            match r {
                Some(t) => self.selected matches Some(i) && i < self.todos@.len() && *t
                    == self.todos@[i as int],
                None => match self.selected {
                    Some(i) => i >= self.todos@.len(),
                    None => true,
                },
            },
    {
        if let Some(i) = self.selected {
            if i < self.todos.len() {
                Some(&self.todos[i])
            } else {
                None
            }
        } else {
            None
        }
    }
}

} // verus!
