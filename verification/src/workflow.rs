//! The orchestration state machine: one fixed provisioning workflow,
//! advanced one outside effect at a time.
//!
//! The machine owns every decision: which directory to list or check,
//! which control file to write and with what value, when to run the
//! pairing tool, when to wait for the kernel to settle, and when a failed
//! effect is fatal rather than a warning. The surrounding program only
//! performs the returned [`Action`] and hands the outcome back as an
//! [`Event`]; it decides nothing.

use crate::bcache::pairing_args_of;
use crate::bcache::MakeBcacheParam;
use crate::bcache::make_bcache_args;
use crate::bcache::tune_writes;
use crate::bcache::tuning_dir_of;
use crate::detach::binding_check;
use crate::detach::binding_dir_of;
use crate::detach::is_disk_style_name;
use crate::detach::stop_write;
use crate::enumerate::exclude_exact;
use crate::enumerate::filter_prefix;
use crate::enumerate::filtered_by_prefix;
use crate::enumerate::without_exact;
use crate::numbers::dec_str_of;
use crate::numbers::dec_val;
use crate::paths::basename_of;
use crate::paths::joined;
use crate::resolve::overlap_of;
use crate::resolve::resolution_ambiguous;
use crate::resolve::resolve_new_device;
use crate::resolve::resolved_device;
use crate::resolve::ResolveError;
use crate::zram::hot_add_body;
use crate::zram::hot_add_valid;
use crate::zram::parse_hot_add;
use crate::zram::zram_device_path;
use crate::zram::ZramDeviceParam;
use crate::zram::configure_writes;
use vstd::prelude::*;

verus! {

/// The configuration surface of one workflow run.
#[derive(Debug)]
pub struct Config {
    /// The slow device to pair a cache with.
    pub backing_device: String,
    /// A pre-selected cache device; when absent, one is acquired from the
    /// hot-add control file.
    pub cache_device: Option<String>,
    pub mem_limit: String,
    pub disk_size: String,
    pub comp_algorithm: String,
    pub block_size: String,
    pub bucket_size: String,
    pub cache_mode: String,
    pub sequential_cutoff: String,
}

/// A configuration with the stock tuning values: 3G memory limit, 3G disk
/// size, zstd compression, 4k blocks, 2M buckets, writeback caching and a
/// 5M sequential cutoff.
pub fn default_config(backing_device: String, cache_device: Option<String>) -> (r: Config)
    ensures
        r.backing_device == backing_device,
        r.cache_device == cache_device,
        r.mem_limit@ == "3G"@,
        r.disk_size@ == "3G"@,
        r.comp_algorithm@ == "zstd"@,
        r.block_size@ == "4k"@,
        r.bucket_size@ == "2M"@,
        r.cache_mode@ == "writeback"@,
        r.sequential_cutoff@ == "5M"@,
{
    Config {
        backing_device,
        cache_device,
        mem_limit: String::from_str("3G"),
        disk_size: String::from_str("3G"),
        comp_algorithm: String::from_str("zstd"),
        block_size: String::from_str("4k"),
        bucket_size: String::from_str("2M"),
        cache_mode: String::from_str("writeback"),
        sequential_cutoff: String::from_str("5M"),
    }
}

/// A condition after which no further step can be meaningfully attempted;
/// the run terminates with a diagnostic.
#[derive(Clone, Copy, Debug, PartialEq, Eq, Structural)]
pub enum FatalError {
    /// The device directory could not be listed.
    ListDirFailed,
    /// The backing device name is disk-style but too short to name its disk.
    InvalidBackingName,
    /// Detaching the existing binding was attempted but not honored.
    StopWriteFailed,
    /// The hot-add control file could not be read.
    HotAddUnreadable,
    /// The hot-add control file did not hold a valid device number.
    HotAddParse,
    /// The pairing tool could not be launched.
    ToolLaunchFailed,
    /// The created device could not be unambiguously identified.
    AmbiguousDevice(ResolveError),
}

impl FatalError {
    /// The diagnostic to terminate with.
    pub fn message(&self) -> (r: String)
        ensures
            *self is ListDirFailed ==> r@ == "failed to list dev ent"@,
            *self is InvalidBackingName ==> r@ == "invalid sd device name"@,
            *self is StopWriteFailed ==> r@ == "unable to stop bcache on backing device"@,
            *self is HotAddUnreadable ==> r@ == "failed to add zram dev"@,
            *self is HotAddParse ==> r@ == "failed to parse zram nr"@,
            *self is ToolLaunchFailed ==> r@ == "failed to exec make-bcache"@,
            *self is AmbiguousDevice ==> r@ == "unable to determine created bcache device"@,
    {
        match *self {
            FatalError::ListDirFailed => String::from_str("failed to list dev ent"),
            FatalError::InvalidBackingName => String::from_str("invalid sd device name"),
            FatalError::StopWriteFailed => String::from_str(
                "unable to stop bcache on backing device",
            ),
            FatalError::HotAddUnreadable => String::from_str("failed to add zram dev"),
            FatalError::HotAddParse => String::from_str("failed to parse zram nr"),
            FatalError::ToolLaunchFailed => String::from_str("failed to exec make-bcache"),
            FatalError::AmbiguousDevice(_) => String::from_str(
                "unable to determine created bcache device",
            ),
        }
    }
}

/// The outcome of the one outside effect the machine last asked for.
#[derive(Debug)]
pub enum Event {
    /// The device directory's entries as full paths, or `None` when the
    /// directory could not be listed.
    Entries(Option<Vec<String>>),
    /// Whether the asked-about directory is listable.
    DirChecked(bool),
    /// Whether the asked-for control-file write succeeded.
    Wrote(bool),
    /// The asked-for file's bytes, or `None` when it could not be read.
    ReadDone(Option<Vec<u8>>),
    /// Whether the pairing tool could be launched at all; its exit status
    /// is deliberately not judged here.
    ToolDone(bool),
    /// The settle delay has elapsed.
    Settled,
}

/// The one outside effect to perform next.
#[derive(Debug)]
pub enum Action {
    /// List the device directory; answer with [`Event::Entries`].
    ListDevDir,
    /// Ask whether `path` is a listable directory; answer with
    /// [`Event::DirChecked`].
    CheckDir { path: String },
    /// Write `value` into the control file at `path`; answer with
    /// [`Event::Wrote`].
    WriteFile { path: String, value: String },
    /// Read the file at `path`; answer with [`Event::ReadDone`].
    ReadFile { path: String },
    /// Run `program` with `args`, relaying its output; answer with
    /// [`Event::ToolDone`].
    RunTool { program: String, args: Vec<String> },
    /// Wait the fixed settle delay; answer with [`Event::Settled`].
    Settle,
    /// The workflow is complete.
    Finish,
    /// The workflow has hit a fatal condition and stops here.
    Fail(FatalError),
}

/// Where the workflow stands: which effect is outstanding.
#[derive(Clone, Copy, Debug, PartialEq, Eq, Structural)]
pub enum Phase {
    /// Listing the pre-existing zram devices.
    ListingZram,
    /// Listing the bcache devices for the before-snapshot.
    ListingBefore,
    /// Asking whether the backing device's binding directory is listable.
    CheckingBinding,
    /// Stopping an active binding on the backing device.
    Stopping,
    /// Waiting for the detach (or its skip) to settle.
    SettlingDetach,
    /// Reading the hot-add control file to acquire a cache device.
    ReadingHotAdd,
    /// Applying the zram configuration write at `idx` of the plan.
    WritingZram { idx: usize },
    /// Running the pairing tool.
    RunningTool,
    /// Waiting for the pairing to settle.
    SettlingPair,
    /// Listing the bcache devices for the after-snapshot.
    ListingAfter,
    /// Applying the tuning write at `idx` of the plan.
    Tuning { idx: usize },
    /// Registering the pre-selected cache device.
    Registering,
    /// Terminal: the workflow completed.
    Finished,
    /// Terminal: the workflow stopped on a fatal condition.
    Failed,
}

/// The orchestration state machine.
pub struct Workflow {
    pub config: Config,
    pub phase: Phase,
    /// The zram devices present at the start (informational).
    pub zram_devices: Vec<String>,
    /// The bcache snapshot taken before pairing; never mutated afterwards.
    pub before: Vec<String>,
    /// The bcache snapshot taken after pairing.
    pub after: Vec<String>,
    /// The backing device's binding directory, while it is being checked.
    pub detach_dir: String,
    /// The selected cache device path.
    pub cache_dev: String,
    /// The resolved, newly created bcache device.
    pub resolved: String,
    /// The parameters handed to the pairing tool and to tuning.
    pub pair_param: MakeBcacheParam,
    /// The pending control-file writes: full path and value, in order.
    pub plan: Vec<(String, String)>,
    /// The attribute name of each pending write, for warnings.
    pub plan_attrs: Vec<String>,
    /// The attributes whose best-effort write failed, in write order.
    pub warnings: Vec<String>,
}

/// The prefix under which zram devices appear.
pub open spec fn zram_prefix() -> Seq<char> {
    "/dev/zram"@
}

/// The prefix under which bcache devices appear; the bare prefix itself is
/// the control node, not a device.
pub open spec fn bcache_prefix() -> Seq<char> {
    "/dev/bcache"@
}

/// The bcache snapshot drawn from a full device listing: the entries under
/// the bcache prefix, the control node excluded.
pub open spec fn bcache_snapshot(entries: Seq<Seq<char>>) -> Seq<Seq<char>> {
    without_exact(bcache_prefix(), filtered_by_prefix(bcache_prefix(), entries))
}

/// The zram configuration writes for device `dev` under configuration
/// `cfg`: compression algorithm, memory limit, disk size, in that order,
/// each under the device's sysfs directory.
pub open spec fn zram_plan_of(cfg: Config, dev: Seq<char>) -> Seq<(Seq<char>, Seq<char>)> {
    let dir = joined("/sys/block"@, basename_of(dev));
    seq![
        (joined(dir, "comp_algorithm"@), cfg.comp_algorithm@),
        (joined(dir, "mem_limit"@), cfg.mem_limit@),
        (joined(dir, "disksize"@), cfg.disk_size@),
    ]
}

/// The tuning writes for the resolved device `dev` under configuration
/// `cfg`: sequential cutoff, then cache mode, under its tuning directory.
pub open spec fn tuning_plan_of(cfg: Config, dev: Seq<char>) -> Seq<(Seq<char>, Seq<char>)> {
    seq![
        (joined(tuning_dir_of(dev), "sequential_cutoff"@), cfg.sequential_cutoff@),
        (joined(tuning_dir_of(dev), "cache_mode"@), cfg.cache_mode@),
    ]
}

/// The global registration control file.
pub open spec fn register_path() -> Seq<char> {
    "/sys/fs/bcache/register"@
}

/// The hot-add control file that hands out the next device number.
pub open spec fn hot_add_path() -> Seq<char> {
    "/sys/class/zram-control/hot_add"@
}

impl Workflow {
    /// The machine's bookkeeping is consistent with its phase.
    pub open spec fn wf(self) -> bool {
        &&& self.plan@.len() == self.plan_attrs@.len()
        &&& (self.phase matches Phase::WritingZram { idx } ==> idx < self.plan@.len())
        &&& (self.phase matches Phase::Tuning { idx } ==> idx < self.plan@.len())
    }

    /// Which event the outstanding effect of `phase` answers with.
    pub open spec fn expects(self, event: Event) -> bool {
        match self.phase {
            Phase::ListingZram => event is Entries,
            Phase::ListingBefore => event is Entries,
            Phase::CheckingBinding => event is DirChecked,
            Phase::Stopping => event is Wrote,
            Phase::SettlingDetach => event is Settled,
            Phase::ReadingHotAdd => event is ReadDone,
            Phase::WritingZram { .. } => event is Wrote,
            Phase::RunningTool => event is ToolDone,
            Phase::SettlingPair => event is Settled,
            Phase::ListingAfter => event is Entries,
            Phase::Tuning { .. } => event is Wrote,
            Phase::Registering => event is Wrote,
            Phase::Finished => false,
            Phase::Failed => false,
        }
    }

    /// The fields the detach phases leave alone.
    pub open spec fn same_early(self, post: Workflow) -> bool {
        &&& post.config == self.config
        &&& post.zram_devices == self.zram_devices
        &&& post.before == self.before
        &&& post.warnings == self.warnings
    }

    /// The fields the configuration and tuning phases leave alone.
    pub open spec fn same_mid(self, post: Workflow) -> bool {
        &&& post.config == self.config
        &&& post.zram_devices == self.zram_devices
        &&& post.before == self.before
        &&& post.cache_dev == self.cache_dev
        &&& post.pair_param == self.pair_param
        &&& post.plan == self.plan
        &&& post.plan_attrs == self.plan_attrs
    }

    /// The machine has reached `post` by failing with `e`, and `a` says so.
    pub open spec fn failure(self, post: Workflow, a: Action, e: FatalError) -> bool {
        &&& post.phase is Failed
        &&& a == Action::Fail(e)
        &&& post.config == self.config
        &&& post.warnings == self.warnings
    }

    /// The cache device `dev` has been selected: the zram configuration
    /// plan for it is pending, its first write is asked for, and the
    /// pairing parameters are fixed.
    pub open spec fn selection_done(self, post: Workflow, a: Action, dev: Seq<char>) -> bool {
        &&& post.cache_dev@ == dev
        &&& post.phase == (Phase::WritingZram { idx: 0 })
        &&& post.plan.deep_view() == zram_plan_of(self.config, dev)
        &&& post.plan_attrs.deep_view() =~= seq!["comp_algorithm"@, "mem_limit"@, "disksize"@]
        &&& post.pair_param.cache_dev@ == dev
        &&& post.pair_param.backing_dev == self.config.backing_device
        &&& post.pair_param.block_size == self.config.block_size
        &&& post.pair_param.bucket_size == self.config.bucket_size
        &&& post.pair_param.cache_mode == self.config.cache_mode
        &&& post.pair_param.sequential_cutoff == self.config.sequential_cutoff
        &&& (a matches Action::WriteFile { path, value } && path@ == zram_plan_of(
            self.config,
            dev,
        )[0].0 && value@ == zram_plan_of(self.config, dev)[0].1)
        &&& post.config == self.config
        &&& post.zram_devices == self.zram_devices
        &&& post.before == self.before
        &&& post.warnings == self.warnings
    }

    /// The transition relation: from `self` under `event` to `post`,
    /// asking for `a`. Arms for events a phase never receives are vacuous;
    /// [`Workflow::expects`] rules them out.
    pub open spec fn step_spec(self, event: Event, post: Workflow, a: Action) -> bool {
        match self.phase {
            Phase::ListingZram => match event {
                Event::Entries(o) => match o {
                    None => self.failure(post, a, FatalError::ListDirFailed),
                    Some(es) => {
                        &&& post.zram_devices.deep_view() == filtered_by_prefix(
                            zram_prefix(),
                            es.deep_view(),
                        )
                        &&& post.phase is ListingBefore
                        &&& a is ListDevDir
                        &&& post.config == self.config
                        &&& post.warnings == self.warnings
                    },
                },
                _ => true,
            },
            Phase::ListingBefore => match event {
                Event::Entries(o) => match o {
                    None => self.failure(post, a, FatalError::ListDirFailed),
                    Some(es) => {
                        let name = basename_of(self.config.backing_device@);
                        &&& post.before.deep_view() == bcache_snapshot(es.deep_view())
                        &&& post.config == self.config
                        &&& post.zram_devices == self.zram_devices
                        &&& post.warnings == self.warnings
                        &&& if !is_disk_style_name(name) {
                            post.phase is SettlingDetach && a is Settle
                        } else if name.len() < 3 {
                            post.phase is Failed && a == Action::Fail(
                                FatalError::InvalidBackingName,
                            )
                        } else {
                            &&& post.detach_dir@ == binding_dir_of(name)
                            &&& post.phase is CheckingBinding
                            &&& (a matches Action::CheckDir { path } && path@ == binding_dir_of(
                                name,
                            ))
                        }
                    },
                },
                _ => true,
            },
            Phase::CheckingBinding => match event {
                Event::DirChecked(found) => {
                    &&& self.same_early(post)
                    &&& if found {
                        &&& post.phase is Stopping
                        &&& (a matches Action::WriteFile { path, value } && path@ == joined(
                            self.detach_dir@,
                            "stop"@,
                        ) && value@ == "1"@)
                    } else {
                        post.phase is SettlingDetach && a is Settle
                    }
                },
                _ => true,
            },
            Phase::Stopping => match event {
                Event::Wrote(ok) => {
                    if ok {
                        self.same_early(post) && post.phase is SettlingDetach && a is Settle
                    } else {
                        self.failure(post, a, FatalError::StopWriteFailed)
                    }
                },
                _ => true,
            },
            Phase::SettlingDetach => match event {
                Event::Settled => match self.config.cache_device {
                    Some(c) => self.selection_done(post, a, c@),
                    None => {
                        &&& self.same_early(post)
                        &&& post.phase is ReadingHotAdd
                        &&& (a matches Action::ReadFile { path } && path@ == hot_add_path())
                    },
                },
                _ => true,
            },
            Phase::ReadingHotAdd => match event {
                Event::ReadDone(o) => match o {
                    None => self.failure(post, a, FatalError::HotAddUnreadable),
                    Some(bytes) => {
                        if hot_add_valid(bytes@) {
                            self.selection_done(
                                post,
                                a,
                                "/dev/zram"@ + dec_str_of(dec_val(hot_add_body(bytes@))),
                            )
                        } else {
                            self.failure(post, a, FatalError::HotAddParse)
                        }
                    },
                },
                _ => true,
            },
            Phase::WritingZram { idx } => match event {
                Event::Wrote(ok) => {
                    &&& self.same_mid(post)
                    &&& (ok ==> post.warnings == self.warnings)
                    &&& (!ok ==> post.warnings.deep_view() == self.warnings.deep_view().push(
                        self.plan_attrs.deep_view()[idx as int],
                    ))
                    &&& if idx + 1 < self.plan@.len() {
                        &&& post.phase == (Phase::WritingZram { idx: (idx + 1) as usize })
                        &&& (a matches Action::WriteFile { path, value } && path@
                            == self.plan@[idx + 1].0@ && value@ == self.plan@[idx + 1].1@)
                    } else {
                        &&& post.phase is RunningTool
                        &&& (a matches Action::RunTool { program, args } && program@
                            == "make-bcache"@ && pairing_args_of(self.pair_param, args.deep_view()))
                    }
                },
                _ => true,
            },
            Phase::RunningTool => match event {
                Event::ToolDone(launched) => {
                    if launched {
                        self.same_mid(post) && post.warnings == self.warnings && post.phase
                            is SettlingPair && a is Settle
                    } else {
                        self.failure(post, a, FatalError::ToolLaunchFailed)
                    }
                },
                _ => true,
            },
            Phase::SettlingPair => match event {
                Event::Settled => {
                    &&& self.same_mid(post)
                    &&& post.warnings == self.warnings
                    &&& post.phase is ListingAfter
                    &&& a is ListDevDir
                },
                _ => true,
            },
            Phase::ListingAfter => match event {
                Event::Entries(o) => match o {
                    None => self.failure(post, a, FatalError::ListDirFailed),
                    Some(es) => {
                        let aft = bcache_snapshot(es.deep_view());
                        let bef = self.before.deep_view();
                        if resolution_ambiguous(bef, aft) {
                            let re = if overlap_of(bef, aft).len() > 1 {
                                ResolveError::TooManyOverlapping
                            } else {
                                ResolveError::NoCandidate
                            };
                            self.failure(post, a, FatalError::AmbiguousDevice(re))
                        } else {
                            let dev = resolved_device(bef, aft);
                            &&& post.after.deep_view() == aft
                            &&& post.resolved@ == dev
                            &&& post.phase == (Phase::Tuning { idx: 0 })
                            &&& post.plan.deep_view() == tuning_plan_of(self.config, dev)
                            &&& post.plan_attrs.deep_view() =~= seq![
                                "sequential_cutoff"@,
                                "cache_mode"@,
                            ]
                            &&& (a matches Action::WriteFile { path, value } && path@
                                == tuning_plan_of(self.config, dev)[0].0 && value@ == tuning_plan_of(
                                self.config,
                                dev,
                            )[0].1)
                            &&& post.config == self.config
                            &&& post.before == self.before
                            &&& post.cache_dev == self.cache_dev
                            &&& post.warnings == self.warnings
                        }
                    },
                },
                _ => true,
            },
            Phase::Tuning { idx } => match event {
                Event::Wrote(ok) => {
                    &&& self.same_mid(post)
                    &&& post.resolved == self.resolved
                    &&& (ok ==> post.warnings == self.warnings)
                    &&& (!ok ==> post.warnings.deep_view() == self.warnings.deep_view().push(
                        self.plan_attrs.deep_view()[idx as int],
                    ))
                    &&& if idx + 1 < self.plan@.len() {
                        &&& post.phase == (Phase::Tuning { idx: (idx + 1) as usize })
                        &&& (a matches Action::WriteFile { path, value } && path@
                            == self.plan@[idx + 1].0@ && value@ == self.plan@[idx + 1].1@)
                    } else {
                        match self.config.cache_device {
                            Some(c) => {
                                &&& post.phase is Registering
                                &&& (a matches Action::WriteFile { path, value } && path@
                                    == register_path() && value@ == c@)
                            },
                            None => post.phase is Finished && a is Finish,
                        }
                    }
                },
                _ => true,
            },
            Phase::Registering => match event {
                Event::Wrote(ok) => {
                    &&& self.same_mid(post)
                    &&& post.resolved == self.resolved
                    &&& (ok ==> post.warnings == self.warnings)
                    &&& (!ok ==> post.warnings.deep_view() == self.warnings.deep_view().push(
                        "register"@,
                    ))
                    &&& post.phase is Finished
                    &&& a is Finish
                },
                _ => true,
            },
            Phase::Finished => true,
            Phase::Failed => true,
        }
    }
}

impl Workflow {
    /// Stops the workflow on the fatal condition `e`.
    fn fail(&mut self, e: FatalError) -> (a: Action)
        requires
            old(self).wf(),
        ensures
            old(self).failure(*final(self), a, e),
            final(self).wf(),
            final(self).zram_devices == old(self).zram_devices,
            final(self).before == old(self).before,
    {
        self.phase = Phase::Failed;
        Action::Fail(e)
    }

    /// Fixes `dev` as the cache device: lays out its configuration writes
    /// and the pairing parameters, and asks for the first write.
    fn select_cache(&mut self, dev: String) -> (a: Action)
        ensures
            old(self).selection_done(*final(self), a, dev@),
            final(self).wf(),
    {
        self.cache_dev = dev;
        let zram_param = ZramDeviceParam {
            dev_path: self.cache_dev.clone(),
            mem_limit: self.config.mem_limit.clone(),
            disk_size: self.config.disk_size.clone(),
            comp_alg: self.config.comp_algorithm.clone(),
        };
        self.plan = configure_writes(zram_param);
        let mut attrs: Vec<String> = Vec::new();
        attrs.push(String::from_str("comp_algorithm"));
        attrs.push(String::from_str("mem_limit"));
        attrs.push(String::from_str("disksize"));
        self.plan_attrs = attrs;
        self.pair_param = MakeBcacheParam {
            cache_dev: self.cache_dev.clone(),
            backing_dev: self.config.backing_device.clone(),
            block_size: self.config.block_size.clone(),
            bucket_size: self.config.bucket_size.clone(),
            cache_mode: self.config.cache_mode.clone(),
            sequential_cutoff: self.config.sequential_cutoff.clone(),
        };
        self.phase = Phase::WritingZram { idx: 0 };
        proof {
            assert(self.plan.deep_view() =~~= zram_plan_of(old(self).config, dev@));
            assert(self.plan_attrs.deep_view() =~= seq![
                "comp_algorithm"@,
                "mem_limit"@,
                "disksize"@,
            ]);
        }
        Action::WriteFile { path: self.plan[0].0.clone(), value: self.plan[0].1.clone() }
    }

    /// Advances the machine one transition: consumes the outcome of the
    /// last asked-for effect and returns the next one.
    pub fn step(&mut self, event: Event) -> (a: Action)
        requires
            old(self).wf(),
            old(self).expects(event),
        ensures
            final(self).wf(),
            old(self).step_spec(event, *final(self), a),
    {
        let ph = self.phase;
        match ph {
            Phase::ListingZram => match event {
                Event::Entries(o) => match o {
                    None => self.fail(FatalError::ListDirFailed),
                    Some(es) => {
                        self.zram_devices = filter_prefix(&es, "/dev/zram");
                        self.phase = Phase::ListingBefore;
                        Action::ListDevDir
                    },
                },
                _ => unreached(),
            },
            Phase::ListingBefore => match event {
                Event::Entries(o) => match o {
                    None => self.fail(FatalError::ListDirFailed),
                    Some(es) => {
                        let matching = filter_prefix(&es, "/dev/bcache");
                        self.before = exclude_exact(&matching, "/dev/bcache");
                        match binding_check(self.config.backing_device.as_str()) {
                            Err(_) => self.fail(FatalError::InvalidBackingName),
                            Ok(None) => {
                                self.phase = Phase::SettlingDetach;
                                Action::Settle
                            },
                            Ok(Some(dir)) => {
                                self.detach_dir = dir;
                                self.phase = Phase::CheckingBinding;
                                Action::CheckDir { path: self.detach_dir.clone() }
                            },
                        }
                    },
                },
                _ => unreached(),
            },
            Phase::CheckingBinding => match event {
                Event::DirChecked(found) => {
                    if found {
                        let write = stop_write(self.detach_dir.as_str());
                        self.phase = Phase::Stopping;
                        Action::WriteFile { path: write.0, value: write.1 }
                    } else {
                        self.phase = Phase::SettlingDetach;
                        Action::Settle
                    }
                },
                _ => unreached(),
            },
            Phase::Stopping => match event {
                Event::Wrote(ok) => {
                    if ok {
                        self.phase = Phase::SettlingDetach;
                        Action::Settle
                    } else {
                        self.fail(FatalError::StopWriteFailed)
                    }
                },
                _ => unreached(),
            },
            Phase::SettlingDetach => match event {
                Event::Settled => {
                    let chosen: Option<String> = match &self.config.cache_device {
                        Some(c) => Some(c.clone()),
                        None => None,
                    };
                    match chosen {
                        Some(dev) => self.select_cache(dev),
                        None => {
                            self.phase = Phase::ReadingHotAdd;
                            Action::ReadFile {
                                path: String::from_str("/sys/class/zram-control/hot_add"),
                            }
                        },
                    }
                },
                _ => unreached(),
            },
            Phase::ReadingHotAdd => match event {
                Event::ReadDone(o) => match o {
                    None => self.fail(FatalError::HotAddUnreadable),
                    Some(bytes) => match parse_hot_add(bytes.as_slice()) {
                        None => self.fail(FatalError::HotAddParse),
                        Some(n) => {
                            let dev = zram_device_path(n);
                            self.select_cache(dev)
                        },
                    },
                },
                _ => unreached(),
            },
            Phase::WritingZram { idx } => match event {
                Event::Wrote(ok) => {
                    let n = self.plan.len();
                    assert(idx < n);
                    if !ok {
                        let ghost prev = self.warnings.deep_view();
                        self.warnings.push(self.plan_attrs[idx].clone());
                        proof {
                            assert(self.warnings.deep_view() =~= prev.push(
                                self.plan_attrs.deep_view()[idx as int],
                            ));
                        }
                    }
                    let next = idx + 1;
                    if next < n {
                        self.phase = Phase::WritingZram { idx: next };
                        Action::WriteFile {
                            path: self.plan[next].0.clone(),
                            value: self.plan[next].1.clone(),
                        }
                    } else {
                        self.phase = Phase::RunningTool;
                        let args = make_bcache_args(&self.pair_param);
                        Action::RunTool { program: String::from_str("make-bcache"), args }
                    }
                },
                _ => unreached(),
            },
            Phase::RunningTool => match event {
                Event::ToolDone(launched) => {
                    if launched {
                        self.phase = Phase::SettlingPair;
                        Action::Settle
                    } else {
                        self.fail(FatalError::ToolLaunchFailed)
                    }
                },
                _ => unreached(),
            },
            Phase::SettlingPair => match event {
                Event::Settled => {
                    self.phase = Phase::ListingAfter;
                    Action::ListDevDir
                },
                _ => unreached(),
            },
            Phase::ListingAfter => match event {
                Event::Entries(o) => match o {
                    None => self.fail(FatalError::ListDirFailed),
                    Some(es) => {
                        let matching = filter_prefix(&es, "/dev/bcache");
                        self.after = exclude_exact(&matching, "/dev/bcache");
                        match resolve_new_device(&self.before, &self.after) {
                            Err(e) => self.fail(FatalError::AmbiguousDevice(e)),
                            Ok(dev) => {
                                self.resolved = dev;
                                let tune_param = MakeBcacheParam {
                                    cache_dev: self.cache_dev.clone(),
                                    backing_dev: self.config.backing_device.clone(),
                                    block_size: self.config.block_size.clone(),
                                    bucket_size: self.config.bucket_size.clone(),
                                    cache_mode: self.config.cache_mode.clone(),
                                    sequential_cutoff: self.config.sequential_cutoff.clone(),
                                };
                                self.plan = tune_writes(self.resolved.as_str(), tune_param);
                                let mut attrs: Vec<String> = Vec::new();
                                attrs.push(String::from_str("sequential_cutoff"));
                                attrs.push(String::from_str("cache_mode"));
                                self.plan_attrs = attrs;
                                self.phase = Phase::Tuning { idx: 0 };
                                proof {
                                    assert(self.plan.deep_view() =~~= tuning_plan_of(
                                        old(self).config,
                                        self.resolved@,
                                    ));
                                    assert(self.plan_attrs.deep_view() =~= seq![
                                        "sequential_cutoff"@,
                                        "cache_mode"@,
                                    ]);
                                }
                                Action::WriteFile {
                                    path: self.plan[0].0.clone(),
                                    value: self.plan[0].1.clone(),
                                }
                            },
                        }
                    },
                },
                _ => unreached(),
            },
            Phase::Tuning { idx } => match event {
                Event::Wrote(ok) => {
                    let n = self.plan.len();
                    assert(idx < n);
                    if !ok {
                        let ghost prev = self.warnings.deep_view();
                        self.warnings.push(self.plan_attrs[idx].clone());
                        proof {
                            assert(self.warnings.deep_view() =~= prev.push(
                                self.plan_attrs.deep_view()[idx as int],
                            ));
                        }
                    }
                    let next = idx + 1;
                    if next < n {
                        self.phase = Phase::Tuning { idx: next };
                        Action::WriteFile {
                            path: self.plan[next].0.clone(),
                            value: self.plan[next].1.clone(),
                        }
                    } else {
                        let chosen: Option<String> = match &self.config.cache_device {
                            Some(c) => Some(c.clone()),
                            None => None,
                        };
                        match chosen {
                            Some(c) => {
                                self.phase = Phase::Registering;
                                Action::WriteFile {
                                    path: String::from_str("/sys/fs/bcache/register"),
                                    value: c,
                                }
                            },
                            None => {
                                self.phase = Phase::Finished;
                                Action::Finish
                            },
                        }
                    }
                },
                _ => unreached(),
            },
            Phase::Registering => match event {
                Event::Wrote(ok) => {
                    if !ok {
                        let ghost prev = self.warnings.deep_view();
                        self.warnings.push(String::from_str("register"));
                        proof {
                            assert(self.warnings.deep_view() =~= prev.push("register"@));
                        }
                    }
                    self.phase = Phase::Finished;
                    Action::Finish
                },
                _ => unreached(),
            },
            Phase::Finished => unreached(),
            Phase::Failed => unreached(),
        }
    }
}

/// A fresh machine for `config`; the first effect lists the device
/// directory for the zram snapshot.
pub fn start_workflow(config: Config) -> (r: (Workflow, Action))
    ensures
        r.0.config == config,
        r.0.phase is ListingZram,
        r.0.warnings@.len() == 0,
        r.0.wf(),
        r.1 is ListDevDir,
{
    let w = Workflow {
        config,
        phase: Phase::ListingZram,
        zram_devices: Vec::new(),
        before: Vec::new(),
        after: Vec::new(),
        detach_dir: String::new(),
        cache_dev: String::new(),
        resolved: String::new(),
        pair_param: MakeBcacheParam::default(),
        plan: Vec::new(),
        plan_attrs: Vec::new(),
        warnings: Vec::new(),
    };
    (w, Action::ListDevDir)
}

} // verus!
