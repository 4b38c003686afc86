//! Backing-device detaching: deciding whether a backing device may already
//! carry a cache binding, which directory would show it, and the single
//! stop write that releases it.
//!
//! Only disk-partition-style names (starting with the standard disk
//! prefix) are checked; the binding shows up under the parent disk's
//! directory — the first three characters of the name — not under the
//! partition's own.

use crate::paths::basename;
use crate::paths::basename_of;
use crate::paths::is_prefix;
use crate::paths::joined;
use crate::paths::path_join;
use crate::paths::str_starts_with;
use vstd::prelude::*;

verus! {

/// Device names that get the binding check: those starting with the
/// standard disk prefix.
pub open spec fn is_disk_style_name(name: Seq<char>) -> bool {
    is_prefix("sd"@, name)
}

/// Where an active binding of the device named `name` would show up:
/// `<first three characters>/<name>/bcache` under the sysfs block root.
pub open spec fn binding_dir_of(name: Seq<char>) -> Seq<char> {
    joined(joined(joined("/sys/block"@, name.take(3)), name), "bcache"@)
}

/// A disk-style device name too short to name its parent disk; the check
/// cannot proceed and the workflow fails.
#[derive(Clone, Copy, Debug)]
pub struct InvalidDiskName;

/// Decides the binding check for `backing`: `Ok(None)` skips it (the name
/// is not disk-style), `Ok(Some(dir))` asks whether `dir` is listable, and
/// a disk-style name shorter than the disk prefix length is an error.
pub fn binding_check(backing: &str) -> (r: Result<Option<String>, InvalidDiskName>)
    ensures
        r matches Ok(o) && o is None <==> !is_disk_style_name(basename_of(backing@)),
        r matches Ok(o) && o is Some <==> is_disk_style_name(basename_of(backing@))
            && basename_of(backing@).len() >= 3,
        r matches Ok(Some(dir)) ==> dir@ == binding_dir_of(basename_of(backing@)),
{
    let name = basename(backing);
    if !str_starts_with(name.as_str(), "sd") {
        return Ok(None);
    }
    if name.as_str().unicode_len() < 3 {
        return Err(InvalidDiskName);
    }
    let disk = name.as_str().substring_char(0, 3);
    let parent = path_join("/sys/block", disk);
    let with_name = path_join(parent.as_str(), name.as_str());
    let dir = path_join(with_name.as_str(), "bcache");
    Ok(Some(dir))
}

/// The one write that releases an active binding found under `dir`:
/// the value `1` into its `stop` file.
pub fn stop_write(dir: &str) -> (r: (String, String))
    ensures
        r.0@ == joined(dir@, "stop"@),
        r.1@ == "1"@,
{
    (path_join(dir, "stop"), String::from_str("1"))
}

} // verus!
