use zram_bcache::resolve::resolve_new_device;
use zram_bcache::resolve::ResolveError;

fn strings(items: &[&str]) -> Vec<String> {
    items.iter().map(|s| s.to_string()).collect()
}

#[test]
fn one_new_device_is_resolved() {
    let before = strings(&[]);
    let after = strings(&["bcache0"]);
    let r = resolve_new_device(&before, &after);
    assert_eq!(r.expect("unambiguous"), "bcache0");
}

#[test]
fn two_overlapping_entries_are_fatal() {
    let before = strings(&["bcache0", "bcache1"]);
    let after = strings(&["bcache0", "bcache1", "bcache2"]);
    let r = resolve_new_device(&before, &after);
    assert_eq!(r.unwrap_err(), ResolveError::TooManyOverlapping);
}

#[test]
fn no_candidate_is_fatal() {
    // Nothing before, two entries after: no overlap, and neither snapshot
    // holds exactly one entry.
    let before = strings(&[]);
    let after = strings(&["bcache0", "bcache1"]);
    let r = resolve_new_device(&before, &after);
    assert_eq!(r.unwrap_err(), ResolveError::NoCandidate);
}

#[test]
fn single_pre_existing_device_is_reused() {
    // The fallback branch: nothing appeared, one device existed before and
    // after; the sole entry is resolved.
    let before = strings(&["bcache0"]);
    let after = strings(&["bcache0"]);
    let r = resolve_new_device(&before, &after);
    assert_eq!(r.expect("fallback"), "bcache0");
}

#[test]
fn overlap_entry_wins_the_tie_break() {
    // The preserved tie-break: with one overlapping entry and a candidate,
    // the combined sequence starts with the overlap entry, so the overlap
    // entry is resolved even when a genuinely new device appeared.
    let before = strings(&["bcache0"]);
    let after = strings(&["bcache0", "bcache1"]);
    let r = resolve_new_device(&before, &after);
    assert_eq!(r.expect("tie-break"), "bcache0");
}
