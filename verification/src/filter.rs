//! The filtered-view engine: which todos are visible under the active
//! filters and search query, in collection order, and how the selection
//! index follows the view.

use vstd::prelude::*;
use crate::strutil::{has_substring, lower_of, str_contains, to_lowercase_str};
use crate::todo::Todo;

verus! {

/// The visibility predicate: a todo is shown when completed items are shown
/// or it is pending, when the search query is empty or occurs
/// case-insensitively in its title or description, and when no priority
/// filter is set or its priority equals the filter.
pub open spec fn matches_filter(t: Todo, show_all: bool, query: Seq<char>, prio: Option<i32>) -> bool {
    &&& (show_all || !t.completed)
    &&& (query.len() == 0 || has_substring(lower_of(t.title@), lower_of(query)) || (match t.description {
        Some(d) => has_substring(lower_of(d@), lower_of(query)),
        None => false,
    }))
    &&& (match prio {
        Some(p) => t.priority == p,
        None => true,
    })
}

/// The subsequence of `ts` that satisfies `matches_filter`, in order.
pub open spec fn filtered_view(
    ts: Seq<Todo>,
    show_all: bool,
    query: Seq<char>,
    prio: Option<i32>,
) -> Seq<Todo>
    decreases ts.len(),
{
    if ts.len() == 0 {
        Seq::empty()
    } else {
        let rest = filtered_view(ts.drop_last(), show_all, query, prio);
        if matches_filter(ts.last(), show_all, query, prio) {
            rest.push(ts.last())
        } else {
            rest
        }
    }
}

proof fn lemma_filtered_view_push(
    ts: Seq<Todo>,
    t: Todo,
    show_all: bool,
    query: Seq<char>,
    prio: Option<i32>,
)
    ensures
        filtered_view(ts.push(t), show_all, query, prio) == (if matches_filter(
            t,
            show_all,
            query,
            prio,
        ) {
            filtered_view(ts, show_all, query, prio).push(t)
        } else {
            filtered_view(ts, show_all, query, prio)
        }),
{
    assert(ts.push(t).drop_last() =~= ts);
}

/// The filtered view is sound and complete: every entry of the view satisfies
/// the filter predicate, and every todo of the collection that satisfies it
/// appears in the view.
pub proof fn lemma_filtered_view_sound_complete(
    ts: Seq<Todo>,
    show_all: bool,
    query: Seq<char>,
    prio: Option<i32>,
)
    ensures
        forall|i: int|
            0 <= i < filtered_view(ts, show_all, query, prio).len() ==> matches_filter(
                #[trigger] filtered_view(ts, show_all, query, prio)[i],
                show_all,
                query,
                prio,
            ),
        forall|i: int|
            0 <= i < ts.len() && matches_filter(#[trigger] ts[i], show_all, query, prio)
                ==> filtered_view(ts, show_all, query, prio).contains(ts[i]),
    decreases ts.len(),
{
    let fv = filtered_view(ts, show_all, query, prio);
    if ts.len() > 0 {
        let head = ts.drop_last();
        let rest = filtered_view(head, show_all, query, prio);
        lemma_filtered_view_sound_complete(head, show_all, query, prio);
        assert forall|i: int|
            0 <= i < ts.len() && matches_filter(#[trigger] ts[i], show_all, query, prio) implies fv
            .contains(ts[i]) by {
            if i < ts.len() - 1 {
                assert(head[i] == ts[i]);
                assert(rest.contains(ts[i]));
                let j = choose|j: int| 0 <= j < rest.len() && rest[j] == ts[i];
                assert(fv[j] == ts[i]);
            } else {
                assert(ts[i] == ts.last());
                assert(fv.last() == ts.last());
            }
        }
    }
}

/// Where the selection moves on a downward step: one past the current index,
/// wrapping from the end to the start; with no selection it lands on the
/// first entry.
pub open spec fn next_selection_of(cur: Option<usize>, len: usize) -> usize {
    match cur {
        Some(i) => if i >= len - 1 {
            0
        } else {
            (i + 1) as usize
        },
        None => 0,
    }
}

/// Where the selection moves on an upward step: one before the current index,
/// wrapping from the start to the end; with no selection it lands on the
/// first entry.
pub open spec fn previous_selection_of(cur: Option<usize>, len: usize) -> usize {
    match cur {
        Some(i) => if i == 0 {
            (len - 1) as usize
        } else {
            (i - 1) as usize
        },
        None => 0,
    }
}

/// Stepping down and then up (or up and then down) over a non-empty view
/// returns the selection to where it was: the two moves are mutual inverses
/// modulo wraparound.
pub proof fn lemma_selection_steps_inverse(i: usize, len: usize)
    requires
        0 < len,
        i < len,
    ensures
        previous_selection_of(Some(next_selection_of(Some(i), len)), len) == i,
        next_selection_of(Some(previous_selection_of(Some(i), len)), len) == i,
{
}

/// How the selection is adjusted after the filtered view is recomputed: an
/// in-range selection is kept, an out-of-range or missing one falls back to
/// the first entry, and an empty view clears the selection.
pub open spec fn clamped_selection(cur: Option<usize>, len: usize) -> Option<usize> {
    if len == 0 {
        None
    } else {
        match cur {
            Some(i) => if i < len {
                Some(i)
            } else {
                Some(0usize)
            },
            None => Some(0usize),
        }
    }
}

/// Recomputes the filtered view of `todos` under the given filters,
/// preserving collection order.
pub fn compute_filtered(
    todos: &Vec<Todo>,
    show_all: bool,
    query: &String,
    prio: Option<i32>,
) -> (r: Vec<Todo>)
    ensures
        r@ == filtered_view(todos@, show_all, query@, prio),
{
    let mut out: Vec<Todo> = Vec::new();
    let query_lower = to_lowercase_str(query.as_str());
    let n = todos.len();
    proof {
        assert(todos@.subrange(0, 0) =~= Seq::<Todo>::empty());
    }
    let mut i: usize = 0;
    while i < n
        invariant
            i <= n,
            n == todos@.len(),
            query_lower@ == lower_of(query@),
            out@ == filtered_view(todos@.subrange(0, i as int), show_all, query@, prio),
        decreases n - i,
    {
        let t = &todos[i];
        let mut keep = true;
        if !show_all && t.completed {
            keep = false;
        }
        if keep && !query.as_str().is_empty() {
            let title_lower = to_lowercase_str(t.title.as_str());
            let title_match = str_contains(title_lower.as_str(), query_lower.as_str());
            let desc_match = match &t.description {
                Some(d) => {
                    let desc_lower = to_lowercase_str(d.as_str());
                    str_contains(desc_lower.as_str(), query_lower.as_str())
                },
                None => false,
            };
            if !title_match && !desc_match {
                keep = false;
            }
        }
        if keep {
            if let Some(p) = prio {
                if t.priority != p {
                    keep = false;
                }
            }
        }
        proof {
            assert(keep == matches_filter(todos@[i as int], show_all, query@, prio));
        }
        if keep {
            out.push(t.clone());
        }
        proof {
            let pre = todos@.subrange(0, i as int);
            assert(todos@.subrange(0, i as int + 1) =~= pre.push(todos@[i as int]));
            lemma_filtered_view_push(pre, todos@[i as int], show_all, query@, prio);
        }
        i = i + 1;
    }
    proof {
        assert(todos@.subrange(0, n as int) =~= todos@);
    }
    out
}

} // verus!
