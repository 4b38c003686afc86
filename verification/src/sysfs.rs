//! Sysfs parameter writing: turning an attribute-value list into the exact
//! control-file writes to perform, and classifying their outcomes.
//!
//! Each write is independent: a failed attribute is reported as a warning
//! and the remaining attributes are still attempted; no failure here is
//! fatal to the caller's workflow.

use crate::paths::joined;
use crate::paths::path_join;
use vstd::prelude::*;

verus! {

/// The attribute names of `pairs`, in order.
pub open spec fn attr_names(pairs: Seq<(Seq<char>, Seq<char>)>) -> Seq<Seq<char>> {
    Seq::new(pairs.len(), |i: int| pairs[i].0)
}

/// The names whose outcome is `false`, in order.
pub open spec fn failed_names(names: Seq<Seq<char>>, outcomes: Seq<bool>) -> Seq<Seq<char>>
    recommends
        outcomes.len() == names.len(),
    decreases names.len(),
{
    if names.len() == 0 || outcomes.len() != names.len() {
        Seq::empty()
    } else {
        let rest = failed_names(names.drop_last(), outcomes.drop_last());
        if outcomes.last() {
            rest
        } else {
            rest.push(names.last())
        }
    }
}

/// The writes to perform for `pairs` under `dir`: one per pair, in order,
/// each to the file named by the attribute, carrying the value unchanged.
pub fn write_plan(dir: &str, pairs: &Vec<(&str, String)>) -> (r: Vec<(String, String)>)
    ensures
        r@.len() == pairs@.len(),
        forall|i: int|
            0 <= i < pairs@.len() ==> (#[trigger] r@[i]).0@ == joined(dir@, pairs@[i].0@)
                && r@[i].1@ == pairs@[i].1@,
{
    let mut r: Vec<(String, String)> = Vec::new();
    let n: usize = pairs.len();
    let mut i: usize = 0;
    while i < n
        invariant
            0 <= i <= n,
            n == pairs@.len(),
            r@.len() == i,
            forall|j: int|
                0 <= j < i ==> (#[trigger] r@[j]).0@ == joined(dir@, pairs@[j].0@)
                    && r@[j].1@ == pairs@[j].1@,
        decreases n - i,
    {
        let path = path_join(dir, pairs[i].0);
        r.push((path, pairs[i].1.clone()));
        i += 1;
    }
    r
}

/// The attributes whose write failed, in write order: these are reported
/// as warnings, and nothing here aborts the caller.
pub fn write_report(pairs: &Vec<(&str, String)>, outcomes: &Vec<bool>) -> (r: Vec<String>)
    requires
        outcomes@.len() == pairs@.len(),
    ensures
        r.deep_view() == failed_names(attr_names(pairs.deep_view()), outcomes@),
{
    let mut r: Vec<String> = Vec::new();
    let n: usize = pairs.len();
    let mut i: usize = 0;
    while i < n
        invariant
            0 <= i <= n,
            n == pairs@.len() == outcomes@.len(),
            r.deep_view() == failed_names(
                attr_names(pairs.deep_view().take(i as int)),
                outcomes@.take(i as int),
            ),
        decreases n - i,
    {
        proof {
            let names1 = attr_names(pairs.deep_view().take(i + 1));
            let names0 = attr_names(pairs.deep_view().take(i as int));
            assert(names1.drop_last() =~= names0);
            assert(outcomes@.take(i + 1).drop_last() =~= outcomes@.take(i as int));
            assert(names1.last() == pairs.deep_view()[i as int].0);
        }
        let ghost prev = r.deep_view();
        if !outcomes[i] {
            r.push(pairs[i].0.to_owned());
            proof {
                assert(r.deep_view() =~= prev.push(pairs@[i as int].0@));
            }
        }
        i += 1;
    }
    proof {
        assert(pairs.deep_view().take(n as int) =~= pairs.deep_view());
        assert(outcomes@.take(n as int) =~= outcomes@);
    }
    r
}

} // verus!
