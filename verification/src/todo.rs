//! The todo record and the request payloads sent to the remote service.

use vstd::prelude::*;
use crate::strutil::{lower_of, to_lowercase_str};

verus! {

pub const PRIORITY_LOW: i32 = 1;

pub const PRIORITY_MEDIUM: i32 = 2;

pub const PRIORITY_HIGH: i32 = 3;

/// One task record as the server hands it out.  The identifier is assigned by
/// the server and never changed locally; timestamps are seconds since the
/// Unix epoch, UTC.
#[derive(Debug)]
pub struct Todo {
    pub id: String,
    pub title: String,
    pub description: Option<String>,
    pub completed: bool,
    pub priority: i32,
    pub due_date: Option<i64>,
    pub created_at: i64,
    pub updated_at: i64,
}

impl Clone for Todo {
    fn clone(&self) -> (r: Self)
        ensures
            r == *self,
    {
        Todo {
            id: self.id.clone(),
            title: self.title.clone(),
            description: match &self.description {
                Some(d) => Some(d.clone()),
                None => None,
            },
            completed: self.completed,
            priority: self.priority,
            due_date: self.due_date,
            created_at: self.created_at,
            updated_at: self.updated_at,
        }
    }
}

/// Payload for creating a todo; omitted fields take server defaults.
#[derive(Debug)]
pub struct CreateTodoRequest {
    pub title: String,
    pub description: Option<String>,
    pub priority: Option<i32>,
    pub due_date: Option<i64>,
}

/// Payload for updating a todo; an omitted field means "leave unchanged".
#[derive(Debug)]
pub struct UpdateTodoRequest {
    pub title: Option<String>,
    pub description: Option<String>,
    pub completed: Option<bool>,
    pub priority: Option<i32>,
    pub due_date: Option<i64>,
}

/// The priority named by an already-lowercased word: "low" and "high" are
/// recognised, anything else means medium.
pub open spec fn spec_priority_of(lowered: Seq<char>) -> i32 {
    if lowered == "low"@ {
        PRIORITY_LOW
    } else if lowered == "high"@ {
        PRIORITY_HIGH
    } else {
        PRIORITY_MEDIUM
    }
}

/// Maps an already-lowercased priority word to its level.
pub fn priority_for(lowered: &str) -> (p: i32)
    ensures
        p == spec_priority_of(lowered@),
{
    let l = lowered.to_owned();
    if l == String::from_str("low") {
        PRIORITY_LOW
    } else if l == String::from_str("high") {
        PRIORITY_HIGH
    } else {
        PRIORITY_MEDIUM
    }
}

/// Parses a priority word case-insensitively: "low" is 1, "high" is 3 and
/// anything else is medium, 2.
pub fn parse_priority(priority_str: &str) -> (p: i32)
    ensures
        p == spec_priority_of(lower_of(priority_str@)),
{
    let lowered = to_lowercase_str(priority_str);
    priority_for(lowered.as_str())
}

/// `ts[j]` is the first entry whose identifier reads `id`.
pub open spec fn first_match_at(ts: Seq<Todo>, id: Seq<char>, j: int) -> bool {
    &&& 0 <= j < ts.len()
    &&& ts[j].id@ == id
    &&& forall|k: int| 0 <= k < j ==> (#[trigger] ts[k]).id@ != id
}

pub(crate) proof fn lemma_first_match_unique(ts: Seq<Todo>, id: Seq<char>, j1: int, j2: int)
    requires
        first_match_at(ts, id, j1),
        first_match_at(ts, id, j2),
    ensures
        j1 == j2,
{
}

/// `r` is `ts` with its first entry of identifier `id` replaced by `u`, or
/// `ts` itself when no entry has that identifier.
pub open spec fn patched_first(ts: Seq<Todo>, id: Seq<char>, u: Todo, r: Seq<Todo>) -> bool {
    if exists|j: int| first_match_at(ts, id, j) {
        r == ts.update(choose|j: int| first_match_at(ts, id, j), u)
    } else {
        r == ts
    }
}

/// `ts` without every entry whose identifier reads `id`, in order.
pub open spec fn remove_by_id(ts: Seq<Todo>, id: Seq<char>) -> Seq<Todo>
    decreases ts.len(),
{
    if ts.len() == 0 {
        Seq::empty()
    } else {
        let rest = remove_by_id(ts.drop_last(), id);
        if ts.last().id@ == id {
            rest
        } else {
            rest.push(ts.last())
        }
    }
}

pub(crate) proof fn lemma_remove_by_id_push(ts: Seq<Todo>, id: Seq<char>, t: Todo)
    ensures
        remove_by_id(ts.push(t), id) == (if t.id@ == id {
            remove_by_id(ts, id)
        } else {
            remove_by_id(ts, id).push(t)
        }),
{
    assert(ts.push(t).drop_last() =~= ts);
}

/// The subsequence of `ts` whose entries are not completed, in order.
pub open spec fn pending_view(ts: Seq<Todo>) -> Seq<Todo>
    decreases ts.len(),
{
    if ts.len() == 0 {
        Seq::empty()
    } else {
        let rest = pending_view(ts.drop_last());
        if !ts.last().completed {
            rest.push(ts.last())
        } else {
            rest
        }
    }
}

proof fn lemma_pending_view_push(ts: Seq<Todo>, t: Todo)
    ensures
        pending_view(ts.push(t)) == (if !t.completed {
            pending_view(ts).push(t)
        } else {
            pending_view(ts)
        }),
{
    assert(ts.push(t).drop_last() =~= ts);
}

/// Keeps every todo when `all` is set, otherwise only the ones not yet
/// completed, preserving order.
pub fn filter_pending(todos: Vec<Todo>, all: bool) -> (r: Vec<Todo>)
    ensures
        all ==> r@ == todos@,
        !all ==> r@ == pending_view(todos@),
{
    if all {
        return todos;
    }
    let mut out: Vec<Todo> = Vec::new();
    let n = todos.len();
    proof {
        assert(todos@.subrange(0, 0) =~= Seq::<Todo>::empty());
    }
    let mut i: usize = 0;
    while i < n
        invariant
            i <= n,
            n == todos@.len(),
            out@ == pending_view(todos@.subrange(0, i as int)),
        decreases n - i,
    {
        if !todos[i].completed {
            out.push(todos[i].clone());
        }
        proof {
            let pre = todos@.subrange(0, i as int);
            assert(todos@.subrange(0, i as int + 1) =~= pre.push(todos@[i as int]));
            lemma_pending_view_push(pre, todos@[i as int]);
        }
        i = i + 1;
    }
    proof {
        assert(todos@.subrange(0, n as int) =~= todos@);
    }
    out
}

} // verus!
