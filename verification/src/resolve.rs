//! New-device resolution: diffing the device snapshots taken before and
//! after the pairing step to pick out the device the pairing created.
//!
//! The rule, tie-breaks included: the overlap keeps the after-snapshot
//! entries also present in the before-snapshot; a candidate is the sole
//! after-entry, or failing that the sole before-entry (a fallback for a
//! single pre-existing device being reused); more than one overlapping
//! entry, or no candidate, is an unrecoverable ambiguity; otherwise the
//! first overlap entry wins, and the candidate only when the overlap is
//! empty.

use vstd::prelude::*;

verus! {

/// `x` occurs in `es`.
pub open spec fn seq_has(es: Seq<Seq<char>>, x: Seq<char>) -> bool {
    exists|i: int| 0 <= i < es.len() && es[i] == x
}

/// The after-snapshot entries that also occur in the before-snapshot,
/// in after-snapshot order.
pub open spec fn overlap_of(before: Seq<Seq<char>>, after: Seq<Seq<char>>) -> Seq<Seq<char>>
    decreases after.len(),
{
    if after.len() == 0 {
        Seq::empty()
    } else {
        let rest = overlap_of(before, after.drop_last());
        if seq_has(before, after.last()) {
            rest.push(after.last())
        } else {
            rest
        }
    }
}

/// The fallback device: the sole after-entry, else the sole before-entry.
pub open spec fn candidate_of(before: Seq<Seq<char>>, after: Seq<Seq<char>>) -> Option<
    Seq<char>,
> {
    if after.len() == 1 {
        Some(after[0])
    } else if before.len() == 1 {
        Some(before[0])
    } else {
        None
    }
}

/// Resolution fails: several overlapping entries, or no candidate.
pub open spec fn resolution_ambiguous(before: Seq<Seq<char>>, after: Seq<Seq<char>>) -> bool {
    overlap_of(before, after).len() > 1 || candidate_of(before, after) is None
}

/// The resolved device when resolution does not fail: the first overlap
/// entry, or the candidate when the overlap is empty.
pub open spec fn resolved_device(before: Seq<Seq<char>>, after: Seq<Seq<char>>) -> Seq<char> {
    let ov = overlap_of(before, after);
    if ov.len() > 0 {
        ov[0]
    } else {
        candidate_of(before, after)->0
    }
}

/// When no device existed beforehand and exactly one exists afterwards,
/// resolution cannot fail and picks that device.
pub proof fn lemma_resolves_single_new(before: Seq<Seq<char>>, after: Seq<Seq<char>>)
    requires
        before.len() == 0,
        after.len() == 1,
    ensures
        !resolution_ambiguous(before, after),
        resolved_device(before, after) == after[0],
{
    let d = after.drop_last();
    assert(overlap_of(before, d) =~= Seq::<Seq<char>>::empty());
    assert(!seq_has(before, after.last()));
    assert(overlap_of(before, after) == overlap_of(before, d));
}

/// Why the created device could not be identified.
#[derive(Clone, Copy, Debug, PartialEq, Eq, Structural)]
pub enum ResolveError {
    /// More than one entry survived the before/after diff.
    TooManyOverlapping,
    /// Neither snapshot held exactly one entry to fall back on.
    NoCandidate,
}

/// `x` occurs in `v`.
pub fn vec_contains(v: &Vec<String>, x: &String) -> (r: bool)
    ensures
        r == seq_has(v.deep_view(), x@),
{
    let n: usize = v.len();
    let mut i: usize = 0;
    while i < n
        invariant
            0 <= i <= n,
            n == v@.len(),
            forall|j: int| 0 <= j < i ==> v.deep_view()[j] != x@,
        decreases n - i,
    {
        if v[i] == *x {
            assert(v.deep_view()[i as int] == x@);
            return true;
        }
        i += 1;
    }
    false
}

/// Identifies the device created by the pairing step from the snapshots
/// taken before and after it. Fails exactly when the diff is ambiguous.
pub fn resolve_new_device(before: &Vec<String>, after: &Vec<String>) -> (r: Result<
    String,
    ResolveError,
>)
    ensures
        r is Ok <==> !resolution_ambiguous(before.deep_view(), after.deep_view()),
        r is Ok ==> r->Ok_0@ == resolved_device(before.deep_view(), after.deep_view()),
        r matches Err(e) ==> ((e is TooManyOverlapping) <==> overlap_of(
            before.deep_view(),
            after.deep_view(),
        ).len() > 1),
{
    let mut overlap: Vec<String> = Vec::new();
    let n: usize = after.len();
    let mut i: usize = 0;
    while i < n
        invariant
            0 <= i <= n,
            n == after@.len(),
            overlap.deep_view() == overlap_of(
                before.deep_view(),
                after.deep_view().take(i as int),
            ),
        decreases n - i,
    {
        proof {
            assert(after.deep_view().take(i + 1).drop_last() =~= after.deep_view().take(i as int));
        }
        let ghost prev = overlap.deep_view();
        if vec_contains(before, &after[i]) {
            overlap.push(after[i].clone());
            proof {
                assert(overlap.deep_view() =~= prev.push(after@[i as int]@));
            }
        }
        i += 1;
    }
    proof {
        assert(after.deep_view().take(n as int) =~= after.deep_view());
    }
    let candidate: Option<String> = if after.len() == 1 {
        Some(after[0].clone())
    } else if before.len() == 1 {
        Some(before[0].clone())
    } else {
        None
    };
    if overlap.len() > 1 {
        return Err(ResolveError::TooManyOverlapping);
    }
    match candidate {
        None => Err(ResolveError::NoCandidate),
        Some(c) => {
            if overlap.len() > 0 {
                Ok(overlap[0].clone())
            } else {
                Ok(c)
            }
        },
    }
}

} // verus!
