//! Bcache pairing and tuning: the argument list for the external pairing
//! tool, the tuning directory of a paired device, and the mapping of
//! tuning values onto sysfs attribute writes.

use crate::paths::basename_of;
use crate::paths::joined;
use crate::paths::path_join;
use crate::sysfs::write_plan;
use crate::zram::block_sysfs_dir;
use vstd::prelude::*;

verus! {

/// Arguments for the pairing tool together with the post-creation tuning
/// values; used once for the invocation and once for tuning, so cloneable.
#[derive(Debug)]
pub struct MakeBcacheParam {
    pub cache_dev: String,
    pub backing_dev: String,
    pub bucket_size: String,
    pub block_size: String,
    pub cache_mode: String,
    pub sequential_cutoff: String,
}

impl MakeBcacheParam {
    /// The sysfs attribute-value list for post-creation tuning, in write
    /// order: sequential cutoff, then cache mode.
    pub fn sysfs_mapper(self) -> (r: Vec<(&'static str, String)>)
        ensures
            r@.len() == 2,
            r@[0].0@ == "sequential_cutoff"@ && r@[0].1@ == self.sequential_cutoff@,
            r@[1].0@ == "cache_mode"@ && r@[1].1@ == self.cache_mode@,
    {
        let mut r: Vec<(&'static str, String)> = Vec::new();
        r.push(("sequential_cutoff", self.sequential_cutoff));
        r.push(("cache_mode", self.cache_mode));
        r
    }
}

impl Clone for MakeBcacheParam {
    /// An identical copy: the parameters serve both the pairing invocation
    /// and the later tuning.
    fn clone(&self) -> (r: Self)
        ensures
            r == *self,
    {
        MakeBcacheParam {
            cache_dev: self.cache_dev.clone(),
            backing_dev: self.backing_dev.clone(),
            bucket_size: self.bucket_size.clone(),
            block_size: self.block_size.clone(),
            cache_mode: self.cache_mode.clone(),
            sequential_cutoff: self.sequential_cutoff.clone(),
        }
    }
}

impl Default for MakeBcacheParam {
    /// The stock parameters: no devices chosen yet, 4k blocks, 2M buckets,
    /// a 5M sequential cutoff, and writeback caching.
    fn default() -> (r: Self)
        ensures
            r.cache_dev@ == Seq::<char>::empty(),
            r.backing_dev@ == Seq::<char>::empty(),
            r.block_size@ == "4k"@,
            r.bucket_size@ == "2M"@,
            r.sequential_cutoff@ == "5M"@,
            r.cache_mode@ == "writeback"@,
    {
        MakeBcacheParam {
            cache_dev: String::new(),
            backing_dev: String::new(),
            block_size: String::from_str("4k"),
            bucket_size: String::from_str("2M"),
            sequential_cutoff: String::from_str("5M"),
            cache_mode: String::from_str("writeback"),
        }
    }
}

/// `args` is the pairing tool's argument list for `param`: wipe any
/// existing pairing, then block size, bucket size, cache device and
/// backing device, each after its flag.
pub open spec fn pairing_args_of(param: MakeBcacheParam, args: Seq<Seq<char>>) -> bool {
    &&& args.len() == 9
    &&& args[0] == "--wipe-bcache"@
    &&& args[1] == "--block"@
    &&& args[2] == param.block_size@
    &&& args[3] == "--bucket"@
    &&& args[4] == param.bucket_size@
    &&& args[5] == "-C"@
    &&& args[6] == param.cache_dev@
    &&& args[7] == "-B"@
    &&& args[8] == param.backing_dev@
}

/// The pairing tool's argument list for `param`.
pub fn make_bcache_args(param: &MakeBcacheParam) -> (r: Vec<String>)
    ensures
        pairing_args_of(*param, r.deep_view()),
{
    let mut r: Vec<String> = Vec::new();
    r.push(String::from_str("--wipe-bcache"));
    r.push(String::from_str("--block"));
    r.push(param.block_size.clone());
    r.push(String::from_str("--bucket"));
    r.push(param.bucket_size.clone());
    r.push(String::from_str("-C"));
    r.push(param.cache_dev.clone());
    r.push(String::from_str("-B"));
    r.push(param.backing_dev.clone());
    r
}

/// The tuning directory of a paired device: the `bcache` subdirectory of
/// its sysfs block directory.
pub open spec fn tuning_dir_of(dev_path: Seq<char>) -> Seq<char> {
    joined(joined("/sys/block"@, basename_of(dev_path)), "bcache"@)
}

/// The sysfs directory holding a paired device's tuning control files.
pub fn bcache_tuning_dir(dev_path: &str) -> (r: String)
    ensures
        r@ == tuning_dir_of(dev_path@),
{
    let dir = block_sysfs_dir(dev_path);
    path_join(dir.as_str(), "bcache")
}

/// The control-file writes that tune the resolved device `dev_path` with
/// the values of `param`, in mapper order.
pub fn tune_writes(dev_path: &str, param: MakeBcacheParam) -> (r: Vec<(String, String)>)
    ensures
        r@.len() == 2,
        r@[0].0@ == joined(tuning_dir_of(dev_path@), "sequential_cutoff"@) && r@[0].1@
            == param.sequential_cutoff@,
        r@[1].0@ == joined(tuning_dir_of(dev_path@), "cache_mode"@) && r@[1].1@
            == param.cache_mode@,
{
    let dir = bcache_tuning_dir(dev_path);
    let pairs = param.sysfs_mapper();
    write_plan(dir.as_str(), &pairs)
}

} // verus!
