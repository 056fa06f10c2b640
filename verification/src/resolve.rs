//! Partial-identifier resolution: users may type just the identifier prefix
//! the list output shows, and it is matched against the known todos.  The
//! server-side resolution attempt sits with the driver; the decisions on its
//! either side are here.

use vstd::prelude::*;
use vstd::string::StringSliceAdditionalSpecFns;
use crate::strutil::{prefix_of, str_contains_char, str_starts_with};
use crate::todo::Todo;

verus! {

/// What a prefix resolves to over a given collection.
#[derive(Debug)]
pub enum ResolveOutcome {
    /// Exactly one identifier carries the prefix.
    Resolved(String),
    /// No identifier carries the prefix.
    NotFound,
    /// Several identifiers carry the prefix; all of them are listed.
    Ambiguous { matches: Vec<String> },
}

/// A string already shaped like a full identifier: at least 36 bytes long
/// and dash-separated.
pub open spec fn spec_is_full_id(s: &str) -> bool {
    s.spec_bytes().len() as usize >= 36 && s@.contains('-')
}

/// Whether `s` already looks like a full identifier, so that no resolution
/// is needed.
pub fn is_full_id(s: &str) -> (r: bool)
    ensures
        r == spec_is_full_id(s),
{
    s.len() >= 36 && str_contains_char(s, '-')
}

/// The identifiers of the todos in `ts` that start with `p`, in order.
pub open spec fn matching_ids(ts: Seq<Todo>, p: Seq<char>) -> Seq<String>
    decreases ts.len(),
{
    if ts.len() == 0 {
        Seq::empty()
    } else {
        let rest = matching_ids(ts.drop_last(), p);
        if prefix_of(p, ts.last().id@) {
            rest.push(ts.last().id)
        } else {
            rest
        }
    }
}

proof fn lemma_matching_ids_push(ts: Seq<Todo>, p: Seq<char>, t: Todo)
    ensures
        matching_ids(ts.push(t), p) == (if prefix_of(p, t.id@) {
            matching_ids(ts, p).push(t.id)
        } else {
            matching_ids(ts, p)
        }),
{
    assert(ts.push(t).drop_last() =~= ts);
}

/// Resolves a partial identifier against a collection of todos: a string
/// already shaped like a full identifier passes through; otherwise the
/// identifiers carrying the prefix decide between a unique match, no match,
/// and an ambiguity listing every match.
pub fn resolve_partial_id(partial_id: &str, todos: &Vec<Todo>) -> (r: ResolveOutcome)
    ensures
        spec_is_full_id(partial_id) ==> (match r {
            ResolveOutcome::Resolved(id) => id@ == partial_id@,
            _ => false,
        }),
        !spec_is_full_id(partial_id) ==> {
            let ms = matching_ids(todos@, partial_id@);
            match r {
                ResolveOutcome::Resolved(id) => ms.len() == 1 && id == ms[0],
                ResolveOutcome::NotFound => ms.len() == 0,
                ResolveOutcome::Ambiguous { matches } => ms.len() > 1 && matches@ == ms,
            }
        },
{
    if is_full_id(partial_id) {
        return ResolveOutcome::Resolved(partial_id.to_owned());
    }
    let mut matches: Vec<String> = Vec::new();
    let n = todos.len();
    proof {
        assert(todos@.subrange(0, 0) =~= Seq::<Todo>::empty());
    }
    let mut i: usize = 0;
    while i < n
        invariant
            i <= n,
            n == todos@.len(),
            matches@ == matching_ids(todos@.subrange(0, i as int), partial_id@),
        decreases n - i,
    {
        if str_starts_with(todos[i].id.as_str(), partial_id) {
            matches.push(todos[i].id.clone());
        }
        proof {
            let pre = todos@.subrange(0, i as int);
            assert(todos@.subrange(0, i as int + 1) =~= pre.push(todos@[i as int]));
            lemma_matching_ids_push(pre, partial_id@, todos@[i as int]);
        }
        i = i + 1;
    }
    proof {
        assert(todos@.subrange(0, n as int) =~= todos@);
    }
    if matches.len() == 0 {
        ResolveOutcome::NotFound
    } else if matches.len() == 1 {
        let id = matches[0].clone();
        ResolveOutcome::Resolved(id)
    } else {
        ResolveOutcome::Ambiguous { matches }
    }
}

} // verus!
