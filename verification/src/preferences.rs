//! User preferences: the stored record, its defaults, the migration of
//! fields added over time, and the pure parts of the interactive
//! configuration flow.

use vstd::prelude::*;
use vstd::string::*;

use crate::strutil::{i32_to_string, spec_int_str, vec_contains_str};

verus! {

/// The stored preferences record.
pub struct Preferences {
    pub summary_task_priority: Vec<String>,
    pub default_task_priority: Vec<String>,
    pub default_limit: i32,
    pub default_sort: String,
    pub default_limit_str: String,
}

/// The fallback for the limit string on records stored before that
/// field existed.
pub fn default_limit() -> (r: String)
    ensures
        r@ == "20"@,
{
    String::from_str("20")
}

impl Default for Preferences {
    /// First-run preferences: the summary shows high and needs-triage
    /// tasks, task listings default to high, twenty results, sorted by
    /// update time.
    fn default() -> (r: Self)
        ensures
            r.summary_task_priority.deep_view() == seq!["high"@, "needs-triage"@],
            r.default_task_priority.deep_view() == seq!["high"@],
            r.default_limit == 20,
            r.default_sort@ == "updated"@,
            r.default_limit_str@ == "20"@,
    {
        let mut summary: Vec<String> = Vec::new();
        summary.push(String::from_str("high"));
        summary.push(String::from_str("needs-triage"));
        let mut dflt: Vec<String> = Vec::new();
        dflt.push(String::from_str("high"));
        proof {
            assert(summary.deep_view() =~= seq!["high"@, "needs-triage"@]);
            assert(dflt.deep_view() =~= seq!["high"@]);
        }
        Preferences {
            summary_task_priority: summary,
            default_task_priority: dflt,
            default_limit: 20,
            default_sort: String::from_str("updated"),
            default_limit_str: String::from_str("20"),
        }
    }
}

/// Carries a stored record forward: fields added after the record was
/// first written get their value derived or kept, so that storing the
/// result is always well-formed. The limit string is re-derived from
/// the numeric limit.
pub fn migrate_preferences(preferences: Preferences) -> (r: Preferences)
    ensures
        r.summary_task_priority == preferences.summary_task_priority,
        r.default_task_priority == preferences.default_task_priority,
        r.default_limit == preferences.default_limit,
        r.default_sort == preferences.default_sort,
        r.default_limit_str@ == spec_int_str(preferences.default_limit as int),
{
    let limit_str = i32_to_string(preferences.default_limit);
    Preferences {
        summary_task_priority: preferences.summary_task_priority,
        default_task_priority: preferences.default_task_priority,
        default_limit: preferences.default_limit,
        default_sort: preferences.default_sort,
        default_limit_str: limit_str,
    }
}

/// The record that a preferences reset stores: like the first-run
/// defaults, but with the summary narrowed to high-priority tasks
/// alone.
pub fn reset_preferences() -> (r: Preferences)
    ensures
        r.summary_task_priority.deep_view() == seq!["high"@],
        r.default_task_priority.deep_view() == seq!["high"@],
        r.default_limit == 20,
        r.default_sort@ == "updated"@,
        r.default_limit_str@ == "20"@,
{
    let mut summary: Vec<String> = Vec::new();
    summary.push(String::from_str("high"));
    let mut dflt: Vec<String> = Vec::new();
    dflt.push(String::from_str("high"));
    proof {
        assert(summary.deep_view() =~= seq!["high"@]);
        assert(dflt.deep_view() =~= seq!["high"@]);
    }
    Preferences {
        summary_task_priority: summary,
        default_task_priority: dflt,
        default_limit: 20,
        default_sort: String::from_str("updated"),
        default_limit_str: String::from_str("20"),
    }
}

/// The six priority names offered by the configuration flow, in their
/// fixed order.
pub fn possible_priorities() -> (r: Vec<String>)
    ensures
        r.deep_view() == seq![
            "unbreak-now"@,
            "needs-triage"@,
            "high"@,
            "normal"@,
            "low"@,
            "wishlist"@,
        ],
{
    let mut r: Vec<String> = Vec::new();
    r.push(String::from_str("unbreak-now"));
    r.push(String::from_str("needs-triage"));
    r.push(String::from_str("high"));
    r.push(String::from_str("normal"));
    r.push(String::from_str("low"));
    r.push(String::from_str("wishlist"));
    proof {
        assert(r.deep_view() =~= seq![
            "unbreak-now"@,
            "needs-triage"@,
            "high"@,
            "normal"@,
            "low"@,
            "wishlist"@,
        ]);
    }
    r
}

/// The checkbox pre-selection of the configuration flow: every
/// possible priority in order, flagged when it is currently chosen.
#[verifier::loop_isolation(false)]
pub fn checked_items(possible: &Vec<String>, current: &Vec<String>) -> (r: Vec<(String, bool)>)
    ensures
        r@.len() == possible@.len(),
        forall|i: int|
            0 <= i < possible@.len() ==> r@[i].0 == possible@[i] && r@[i].1
                == current.deep_view().contains(possible.deep_view()[i]),
{
    let mut r: Vec<(String, bool)> = Vec::new();
    let mut i: usize = 0;
    while i < possible.len()
        invariant
            0 <= i <= possible@.len(),
            r@.len() == i,
            forall|k: int|
                0 <= k < i ==> r@[k].0 == possible@[k] && r@[k].1 == current.deep_view().contains(
                    possible.deep_view()[k],
                ),
        decreases possible@.len() - i,
    {
        let chosen = vec_contains_str(current, possible[i].as_str());
        proof {
            assert(possible.deep_view()[i as int] == possible@[i as int]@);
        }
        r.push((possible[i].clone(), chosen));
        i = i + 1;
    }
    r
}

/// Maps the indices that the checkbox prompt returned back to the
/// priority names they stand for.
#[verifier::loop_isolation(false)]
pub fn chosen_from_indices(possible: &Vec<String>, indices: &Vec<usize>) -> (r: Vec<String>)
    requires
        forall|i: int| 0 <= i < indices@.len() ==> indices@[i] < possible@.len(),
    ensures
        r@.len() == indices@.len(),
        forall|i: int| 0 <= i < indices@.len() ==> r@[i] == possible@[indices@[i] as int],
{
    let mut r: Vec<String> = Vec::new();
    let mut i: usize = 0;
    while i < indices.len()
        invariant
            0 <= i <= indices@.len(),
            r@.len() == i,
            forall|k: int| 0 <= k < i ==> r@[k] == possible@[indices@[k] as int],
        decreases indices@.len() - i,
    {
        r.push(possible[indices[i]].clone());
        i = i + 1;
    }
    r
}

} // verus!
