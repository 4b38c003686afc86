//! Zram provisioning: parsing the number handed out by the hot-add control
//! file, deriving the device path and its sysfs directory, and mapping the
//! desired configuration onto sysfs attribute writes.

use crate::numbers::all_digits;
use crate::numbers::dec_str_of;
use crate::numbers::dec_val;
use crate::numbers::parse_u32;
use crate::numbers::u32_to_string;
use crate::paths::basename;
use crate::paths::basename_of;
use crate::paths::joined;
use crate::paths::path_join;
use crate::sysfs::write_plan;
use vstd::prelude::*;
use vstd::slice::slice_subrange;

verus! {

/// Desired zram configuration, consumed once when the device is set up.
#[derive(Debug)]
pub struct ZramDeviceParam {
    pub dev_path: String,
    pub mem_limit: String,
    pub disk_size: String,
    pub comp_alg: String,
}

impl ZramDeviceParam {
    /// The sysfs attribute-value list for this configuration, in write
    /// order: compression algorithm, memory limit, disk size.
    pub fn sysfs_mapper(self) -> (r: Vec<(&'static str, String)>)
        ensures
            r@.len() == 3,
            r@[0].0@ == "comp_algorithm"@ && r@[0].1@ == self.comp_alg@,
            r@[1].0@ == "mem_limit"@ && r@[1].1@ == self.mem_limit@,
            r@[2].0@ == "disksize"@ && r@[2].1@ == self.disk_size@,
    {
        let mut r: Vec<(&'static str, String)> = Vec::new();
        r.push(("comp_algorithm", self.comp_alg));
        r.push(("mem_limit", self.mem_limit));
        r.push(("disksize", self.disk_size));
        r
    }
}

/// The hot-add reply body: the reply with its trailing byte (the newline)
/// stripped.
pub open spec fn hot_add_body(reply: Seq<u8>) -> Seq<u8> {
    reply.drop_last()
}

/// A hot-add reply is well formed when, after stripping the trailing byte,
/// a non-empty decimal numeral remains whose value fits in a `u32`.
pub open spec fn hot_add_valid(reply: Seq<u8>) -> bool {
    reply.len() > 0 && hot_add_body(reply).len() > 0 && all_digits(hot_add_body(reply))
        && dec_val(hot_add_body(reply)) <= u32::MAX
}

/// Parses the bytes read from the hot-add control file into the number of
/// the newly allocated device. Returns `Some` exactly on a well-formed
/// reply; anything else is the caller's fatal parse error.
pub fn parse_hot_add(reply: &[u8]) -> (r: Option<u32>)
    ensures
        r is Some <==> hot_add_valid(reply@),
        r is Some ==> r->0 == dec_val(hot_add_body(reply@)),
{
    let n: usize = reply.len();
    if n == 0 {
        return None;
    }
    let body = slice_subrange(reply, 0, n - 1);
    proof {
        assert(body@ =~= hot_add_body(reply@));
    }
    parse_u32(body)
}

/// The device path for zram device number `n`.
pub fn zram_device_path(n: u32) -> (r: String)
    ensures
        r@ == "/dev/zram"@ + dec_str_of(n as nat),
{
    let num = u32_to_string(n);
    let r = String::from_str("/dev/zram").concat(num.as_str());
    r
}

/// The sysfs directory holding a block device's control files.
pub fn block_sysfs_dir(dev_path: &str) -> (r: String)
    ensures
        r@ == joined("/sys/block"@, basename_of(dev_path@)),
{
    let name = basename(dev_path);
    path_join("/sys/block", name.as_str())
}

/// The control-file writes that configure the device described by `param`:
/// one per attribute of the mapper, under the device's sysfs directory.
pub fn configure_writes(param: ZramDeviceParam) -> (r: Vec<(String, String)>)
    ensures
        r@.len() == 3,
        r@[0].0@ == joined(joined("/sys/block"@, basename_of(param.dev_path@)), "comp_algorithm"@)
            && r@[0].1@ == param.comp_alg@,
        r@[1].0@ == joined(joined("/sys/block"@, basename_of(param.dev_path@)), "mem_limit"@)
            && r@[1].1@ == param.mem_limit@,
        r@[2].0@ == joined(joined("/sys/block"@, basename_of(param.dev_path@)), "disksize"@)
            && r@[2].1@ == param.disk_size@,
{
    let dir = block_sysfs_dir(param.dev_path.as_str());
    let pairs = param.sysfs_mapper();
    write_plan(dir.as_str(), &pairs)
}

} // verus!
