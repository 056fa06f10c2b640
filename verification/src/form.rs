//! The draft form used when adding or editing a todo: four fields, a field
//! cursor that cycles through them, character-level editing, validation and
//! due-date parsing.

use vstd::prelude::*;
use crate::dates::{invalid_date_msg, parse_date, spec_parse_date};
use crate::strutil::{dropped_last, pop_char, push_char, trim_of, trim_str};
use crate::todo::CreateTodoRequest;

verus! {

/// The four editable fields, in cursor order.
#[derive(Debug, Clone, Copy, PartialEq, Eq, Structural)]
pub enum InputField {
    Title,
    Description,
    Priority,
    DueDate,
}

/// The field after `f` in cursor order.
pub open spec fn next_field_of(f: InputField) -> InputField {
    match f {
        InputField::Title => InputField::Description,
        InputField::Description => InputField::Priority,
        InputField::Priority => InputField::DueDate,
        InputField::DueDate => InputField::Title,
    }
}

/// The field before `f` in cursor order.
pub open spec fn previous_field_of(f: InputField) -> InputField {
    match f {
        InputField::Title => InputField::DueDate,
        InputField::Description => InputField::Title,
        InputField::Priority => InputField::Description,
        InputField::DueDate => InputField::Priority,
    }
}

/// Characters accepted by the due-date buffer: digits, dash, colon, space.
pub open spec fn is_due_char(c: char) -> bool {
    ('0' <= c && c <= '9') || c == '-' || c == ':' || c == ' '
}

/// `g` is `f` after one typed character `c` was routed to the field at the
/// cursor.
pub open spec fn char_applied(f: InputForm, g: InputForm, c: char) -> bool {
    match f.current_field {
        InputField::Title => g == (InputForm { title: g.title, ..f }) && g.title@ == f.title@.push(
            c,
        ),
        InputField::Description => g == (InputForm { description: g.description, ..f })
            && g.description@ == f.description@.push(c),
        InputField::Priority => g == (InputForm {
            priority: if c == '1' {
                1
            } else if c == '2' {
                2
            } else if c == '3' {
                3
            } else {
                f.priority
            },
            ..f
        }),
        InputField::DueDate => if is_due_char(c) {
            g == (InputForm { due_date: g.due_date, ..f }) && g.due_date@ == f.due_date@.push(c)
        } else {
            g == f
        },
    }
}

/// `g` is `f` after one backspace was routed to the field at the cursor.
pub open spec fn backspace_applied(f: InputForm, g: InputForm) -> bool {
    match f.current_field {
        InputField::Title => g == (InputForm { title: g.title, ..f }) && g.title@ == dropped_last(
            f.title@,
        ),
        InputField::Description => g == (InputForm { description: g.description, ..f })
            && g.description@ == dropped_last(f.description@),
        InputField::Priority => g == f,
        InputField::DueDate => g == (InputForm { due_date: g.due_date, ..f }) && g.due_date@
            == dropped_last(f.due_date@),
    }
}

/// Editable draft of a todo being created or edited.
pub struct InputForm {
    pub title: String,
    pub description: String,
    pub priority: i32,
    pub due_date: String,
    pub current_field: InputField,
}

impl InputForm {
    /// The priority field only ever holds one of the three levels.
    pub open spec fn wf(self) -> bool {
        1 <= self.priority <= 3
    }

    /// All fields at their defaults: empty text, medium priority, cursor on
    /// the title.
    pub open spec fn is_cleared(self) -> bool {
        &&& self.title@.len() == 0
        &&& self.description@.len() == 0
        &&& self.priority == 2
        &&& self.due_date@.len() == 0
        &&& self.current_field == InputField::Title
    }

    pub fn new() -> (f: InputForm)
        ensures
            f.is_cleared(),
            f.wf(),
    {
        InputForm {
            title: String::new(),
            description: String::new(),
            priority: 2,
            due_date: String::new(),
            current_field: InputField::Title,
        }
    }

    /// Moves the field cursor forward, leaving the field contents alone.
    pub fn next_field(&mut self)
        ensures
            *final(self) == (InputForm {
                current_field: next_field_of(old(self).current_field),
                ..*old(self)
            }),
    {
        self.current_field = match self.current_field {
            InputField::Title => InputField::Description,
            InputField::Description => InputField::Priority,
            InputField::Priority => InputField::DueDate,
            InputField::DueDate => InputField::Title,
        };
    }

    /// Moves the field cursor backward, leaving the field contents alone.
    pub fn previous_field(&mut self)
        ensures
            *final(self) == (InputForm {
                current_field: previous_field_of(old(self).current_field),
                ..*old(self)
            }),
    {
        self.current_field = match self.current_field {
            InputField::Title => InputField::DueDate,
            InputField::Description => InputField::Title,
            InputField::Priority => InputField::Description,
            InputField::DueDate => InputField::Priority,
        };
    }

    /// Routes one typed character to the field at the cursor.  Title and
    /// description take any character; the priority field is set directly by
    /// the digits 1-3 and ignores everything else; the due-date buffer takes
    /// only digits, dashes, colons and spaces.
    pub fn handle_char(&mut self, c: char)
        ensures
            char_applied(*old(self), *final(self), c),
    {
        match self.current_field {
            InputField::Title => push_char(&mut self.title, c),
            InputField::Description => push_char(&mut self.description, c),
            InputField::Priority => {
                if c == '1' {
                    self.priority = 1;
                } else if c == '2' {
                    self.priority = 2;
                } else if c == '3' {
                    self.priority = 3;
                }
            },
            InputField::DueDate => {
                if ('0' <= c && c <= '9') || c == '-' || c == ':' || c == ' ' {
                    push_char(&mut self.due_date, c);
                }
            },
        }
    }

    /// Removes the last character of the field at the cursor; the priority
    /// field ignores backspace.
    pub fn handle_backspace(&mut self)
        ensures
            backspace_applied(*old(self), *final(self)),
    {
        match self.current_field {
            InputField::Title => {
                let _ = pop_char(&mut self.title);
            },
            InputField::Description => {
                let _ = pop_char(&mut self.description);
            },
            InputField::Priority => {},
            InputField::DueDate => {
                let _ = pop_char(&mut self.due_date);
            },
        }
    }

    /// Resets every field to its default and the cursor to the title.
    pub fn clear(&mut self)
        ensures
            final(self).is_cleared(),
            final(self).wf(),
    {
        self.title = String::new();
        self.description = String::new();
        self.priority = 2;
        self.due_date = String::new();
        self.current_field = InputField::Title;
    }

    /// A draft is valid exactly when the trimmed title is non-empty.
    pub fn is_valid(&self) -> (v: bool)
        ensures
            v == (trim_of(self.title@).len() != 0),
    {
        !trim_str(self.title.as_str()).is_empty()
    }

    /// Parses the due-date buffer: an empty (or all-whitespace) buffer means
    /// no due date; otherwise the two accepted layouts are tried and anything
    /// else is a format error.
    pub fn parse_due_date(&self) -> (r: Result<Option<i64>, String>)
        ensures
            match r {
                Ok(d) => spec_parse_due(self.due_date@) == Some(d),
                Err(m) => spec_parse_due(self.due_date@) is None && m@ == invalid_date_msg(),
            },
    {
        let trimmed = trim_str(self.due_date.as_str());
        if trimmed.is_empty() {
            return Ok(None);
        }
        match parse_date(trimmed) {
            Ok(t) => Ok(Some(t)),
            Err(m) => Err(m),
        }
    }

    /// Builds the creation payload from the draft: trimmed title, trimmed
    /// description when non-empty, the chosen priority, and the parsed due
    /// date; fails exactly when the due-date buffer is malformed.
    pub fn to_create_request(&self) -> (r: Result<CreateTodoRequest, String>)
        ensures
            match r {
                Ok(req) => create_request_of(*self, req),
                Err(m) => spec_parse_due(self.due_date@) is None && m@ == invalid_date_msg(),
            },
    {
        let due = match self.parse_due_date() {
            Ok(d) => d,
            Err(m) => {
                return Err(m);
            },
        };
        let desc_trimmed = trim_str(self.description.as_str());
        Ok(
            CreateTodoRequest {
                title: trim_str(self.title.as_str()).to_owned(),
                description: if desc_trimmed.is_empty() {
                    None
                } else {
                    Some(desc_trimmed.to_owned())
                },
                priority: Some(self.priority),
                due_date: due,
            },
        )
    }
}

impl Default for InputForm {
    fn default() -> (f: Self)
        ensures
            f.is_cleared(),
            f.wf(),
    {
        InputForm::new()
    }
}

/// The due date denoted by the buffer `s`: `Some(None)` for an empty buffer,
/// `Some(Some(t))` for a parseable one, `None` for a malformed one.
pub open spec fn spec_parse_due(s: Seq<char>) -> Option<Option<i64>> {
    let t = trim_of(s);
    if t.len() == 0 {
        Some(None)
    } else {
        match spec_parse_date(t) {
            Some(v) => Some(Some(v)),
            None => None,
        }
    }
}

/// `req` is exactly the creation payload that the draft `f` denotes.
pub open spec fn create_request_of(f: InputForm, req: CreateTodoRequest) -> bool {
    &&& req.title@ == trim_of(f.title@)
    &&& (match req.description {
        Some(d) => trim_of(f.description@).len() != 0 && d@ == trim_of(f.description@),
        None => trim_of(f.description@).len() == 0,
    })
    &&& req.priority == Some(f.priority)
    &&& spec_parse_due(f.due_date@) == Some(req.due_date)
}

} // verus!
