//! Device enumeration: filtering a directory listing down to the entries
//! whose full path starts with a given prefix, in listing order, and
//! dropping a single reserved path from a snapshot.

use crate::paths::is_prefix;
use crate::paths::str_starts_with;
use vstd::prelude::*;

verus! {

/// The entries of `es` that start with `p`, in order.
pub open spec fn filtered_by_prefix(p: Seq<char>, es: Seq<Seq<char>>) -> Seq<Seq<char>>
    decreases es.len(),
{
    if es.len() == 0 {
        Seq::empty()
    } else {
        let rest = filtered_by_prefix(p, es.drop_last());
        if is_prefix(p, es.last()) {
            rest.push(es.last())
        } else {
            rest
        }
    }
}

/// The entries of `es` other than `x`, in order.
pub open spec fn without_exact(x: Seq<char>, es: Seq<Seq<char>>) -> Seq<Seq<char>>
    decreases es.len(),
{
    if es.len() == 0 {
        Seq::empty()
    } else {
        let rest = without_exact(x, es.drop_last());
        if es.last() == x {
            rest
        } else {
            rest.push(es.last())
        }
    }
}

/// A filtered listing holds exactly the entries that start with the
/// prefix, whatever order the directory listed them in.
pub proof fn lemma_filtered_membership(p: Seq<char>, es: Seq<Seq<char>>, x: Seq<char>)
    ensures
        filtered_by_prefix(p, es).contains(x) <==> es.contains(x) && is_prefix(p, x),
    decreases es.len(),
{
    if es.len() > 0 {
        lemma_filtered_membership(p, es.drop_last(), x);
        let d = es.drop_last();
        if es.contains(x) {
            let i = choose|i: int| 0 <= i < es.len() && es[i] == x;
            if i < es.len() - 1 {
                assert(d[i] == x);
                assert(d.contains(x));
            }
        }
        if d.contains(x) {
            let i = choose|i: int| 0 <= i < d.len() && d[i] == x;
            assert(es[i] == x);
        }
        if es.last() == x {
            assert(es[es.len() - 1] == x);
        }
        let rest = filtered_by_prefix(p, d);
        if is_prefix(p, es.last()) {
            let f = rest.push(es.last());
            assert(filtered_by_prefix(p, es) == f);
            if f.contains(x) {
                let i = choose|i: int| 0 <= i < f.len() && f[i] == x;
                if i < rest.len() {
                    assert(rest[i] == x);
                }
            }
            if rest.contains(x) {
                let i = choose|i: int| 0 <= i < rest.len() && rest[i] == x;
                assert(f[i] == x);
            }
            assert(f[f.len() - 1] == es.last());
        }
    }
}

/// Whether two strings hold the same characters.
pub fn str_eq(a: &str, b: &str) -> (r: bool)
    ensures
        r == (a@ == b@),
{
    let n: usize = a.unicode_len();
    if n != b.unicode_len() {
        return false;
    }
    let mut i: usize = 0;
    while i < n
        invariant
            0 <= i <= n,
            n == a@.len() == b@.len(),
            forall|j: int| 0 <= j < i ==> a@[j] == b@[j],
        decreases n - i,
    {
        if a.get_char(i) != b.get_char(i) {
            return false;
        }
        i += 1;
    }
    assert(a@ =~= b@);
    true
}

/// Keeps the entries whose path starts with `prefix`, in listing order.
pub fn filter_prefix(entries: &Vec<String>, prefix: &str) -> (r: Vec<String>)
    ensures
        r.deep_view() == filtered_by_prefix(prefix@, entries.deep_view()),
{
    let mut r: Vec<String> = Vec::new();
    let n: usize = entries.len();
    let mut i: usize = 0;
    while i < n
        invariant
            0 <= i <= n,
            n == entries@.len(),
            r.deep_view() == filtered_by_prefix(prefix@, entries.deep_view().take(i as int)),
        decreases n - i,
    {
        proof {
            assert(entries.deep_view().take(i + 1).drop_last() =~= entries.deep_view().take(
                i as int,
            ));
        }
        let ghost prev = r.deep_view();
        if str_starts_with(entries[i].as_str(), prefix) {
            r.push(entries[i].clone());
            proof {
                assert(r.deep_view() =~= prev.push(entries@[i as int]@));
            }
        }
        i += 1;
    }
    proof {
        assert(entries.deep_view().take(n as int) =~= entries.deep_view());
    }
    r
}

/// Drops every entry equal to `excluded`, in listing order.
pub fn exclude_exact(entries: &Vec<String>, excluded: &str) -> (r: Vec<String>)
    ensures
        r.deep_view() == without_exact(excluded@, entries.deep_view()),
{
    let mut r: Vec<String> = Vec::new();
    let n: usize = entries.len();
    let mut i: usize = 0;
    while i < n
        invariant
            0 <= i <= n,
            n == entries@.len(),
            r.deep_view() == without_exact(excluded@, entries.deep_view().take(i as int)),
        decreases n - i,
    {
        proof {
            assert(entries.deep_view().take(i + 1).drop_last() =~= entries.deep_view().take(
                i as int,
            ));
        }
        let ghost prev = r.deep_view();
        if !str_eq(entries[i].as_str(), excluded) {
            r.push(entries[i].clone());
            proof {
                assert(r.deep_view() =~= prev.push(entries@[i as int]@));
            }
        }
        i += 1;
    }
    proof {
        assert(entries.deep_view().take(n as int) =~= entries.deep_view());
    }
    r
}

} // verus!
