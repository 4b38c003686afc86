use zram_bcache::workflow::default_config;
use zram_bcache::workflow::start_workflow;
use zram_bcache::workflow::Action;
use zram_bcache::workflow::Event;
use zram_bcache::workflow::FatalError;
use zram_bcache::workflow::Phase;
use zram_bcache::workflow::Workflow;

fn strings(items: &[&str]) -> Vec<String> {
    items.iter().map(|s| s.to_string()).collect()
}

fn expect_write(a: &Action) -> (String, String) {
    match a {
        Action::WriteFile { path, value } => (path.clone(), value.clone()),
        other => panic!("expected a write, got {:?}", other),
    }
}

/// Drives a fresh machine up to the point after the settle that follows
/// the detach decision, with no zram or bcache devices present and the
/// backing device showing no active binding.
fn up_to_selection(cache: Option<&str>) -> (Workflow, Action) {
    let config = default_config("/dev/sda7".to_string(), cache.map(|c| c.to_string()));
    let (mut wf, a) = start_workflow(config);
    assert!(matches!(a, Action::ListDevDir));
    let listing = strings(&["/dev/sda", "/dev/sda7"]);
    let a = wf.step(Event::Entries(Some(listing.clone())));
    assert!(matches!(a, Action::ListDevDir));
    assert!(wf.zram_devices.is_empty());
    let a = wf.step(Event::Entries(Some(listing)));
    assert!(wf.before.is_empty());
    match &a {
        Action::CheckDir { path } => assert_eq!(path, "/sys/block/sda/sda7/bcache"),
        other => panic!("expected the binding check, got {:?}", other),
    }
    let a = wf.step(Event::DirChecked(false));
    assert!(matches!(a, Action::Settle));
    let a = wf.step(Event::Settled);
    (wf, a)
}

#[test]
fn no_binding_means_no_stop_write() {
    // Up to the settle, the machine never asked for a write: the binding
    // directory was absent, so nothing was stopped and nothing failed.
    let (wf, _) = up_to_selection(Some("/dev/zram1"));
    assert!(wf.warnings.is_empty());
    assert!(!matches!(wf.phase, Phase::Failed));
}

#[test]
fn present_binding_gets_exactly_one_stop_write() {
    let config = default_config("/dev/sda7".to_string(), Some("/dev/zram1".to_string()));
    let (mut wf, _) = start_workflow(config);
    let listing = strings(&["/dev/sda", "/dev/sda7"]);
    wf.step(Event::Entries(Some(listing.clone())));
    let a = wf.step(Event::Entries(Some(listing)));
    assert!(matches!(a, Action::CheckDir { .. }));
    let a = wf.step(Event::DirChecked(true));
    let (path, value) = expect_write(&a);
    assert_eq!(path, "/sys/block/sda/sda7/bcache/stop");
    assert_eq!(value, "1");
    // The stop succeeded: the next effect is the settle, not another write.
    let a = wf.step(Event::Wrote(true));
    assert!(matches!(a, Action::Settle));
}

#[test]
fn refused_stop_write_is_fatal() {
    let config = default_config("/dev/sda7".to_string(), Some("/dev/zram1".to_string()));
    let (mut wf, _) = start_workflow(config);
    let listing = strings(&["/dev/sda", "/dev/sda7"]);
    wf.step(Event::Entries(Some(listing.clone())));
    wf.step(Event::Entries(Some(listing)));
    wf.step(Event::DirChecked(true));
    let a = wf.step(Event::Wrote(false));
    match a {
        Action::Fail(e) => {
            assert_eq!(e, FatalError::StopWriteFailed);
            assert_eq!(e.message(), "unable to stop bcache on backing device");
        },
        other => panic!("expected fatal stop failure, got {:?}", other),
    }
}

#[test]
fn non_disk_backing_skips_the_binding_check() {
    let config = default_config("/dev/vda1".to_string(), Some("/dev/zram1".to_string()));
    let (mut wf, _) = start_workflow(config);
    let listing = strings(&["/dev/vda", "/dev/vda1"]);
    wf.step(Event::Entries(Some(listing.clone())));
    let a = wf.step(Event::Entries(Some(listing)));
    assert!(matches!(a, Action::Settle));
}

#[test]
fn truncated_disk_name_is_fatal() {
    // A disk-style name too short to name its parent disk.
    let config = default_config("/dev/sd".to_string(), Some("/dev/zram1".to_string()));
    let (mut wf, _) = start_workflow(config);
    let listing = strings(&["/dev/sd"]);
    wf.step(Event::Entries(Some(listing.clone())));
    let a = wf.step(Event::Entries(Some(listing)));
    match a {
        Action::Fail(e) => {
            assert_eq!(e, FatalError::InvalidBackingName);
            assert_eq!(e.message(), "invalid sd device name");
        },
        other => panic!("expected fatal name failure, got {:?}", other),
    }
}

#[test]
fn unlistable_device_directory_is_fatal() {
    let config = default_config("/dev/sda7".to_string(), None);
    let (mut wf, _) = start_workflow(config);
    let a = wf.step(Event::Entries(None));
    match a {
        Action::Fail(e) => {
            assert_eq!(e, FatalError::ListDirFailed);
            assert_eq!(e.message(), "failed to list dev ent");
        },
        other => panic!("expected fatal listing failure, got {:?}", other),
    }
}

#[test]
fn hot_add_reply_selects_the_new_device() {
    let (mut wf, a) = up_to_selection(None);
    match &a {
        Action::ReadFile { path } => assert_eq!(path, "/sys/class/zram-control/hot_add"),
        other => panic!("expected the hot-add read, got {:?}", other),
    }
    let a = wf.step(Event::ReadDone(Some(b"3\n".to_vec())));
    assert_eq!(wf.cache_dev, "/dev/zram3");
    let (path, value) = expect_write(&a);
    assert_eq!(path, "/sys/block/zram3/comp_algorithm");
    assert_eq!(value, "zstd");
}

#[test]
fn malformed_hot_add_reply_is_fatal() {
    let (mut wf, _) = up_to_selection(None);
    let a = wf.step(Event::ReadDone(Some(b"x\n".to_vec())));
    match a {
        Action::Fail(e) => {
            assert_eq!(e, FatalError::HotAddParse);
            assert_eq!(e.message(), "failed to parse zram nr");
        },
        other => panic!("expected fatal parse failure, got {:?}", other),
    }
}

#[test]
fn unreadable_hot_add_file_is_fatal() {
    let (mut wf, _) = up_to_selection(None);
    let a = wf.step(Event::ReadDone(None));
    match a {
        Action::Fail(e) => assert_eq!(e, FatalError::HotAddUnreadable),
        other => panic!("expected fatal read failure, got {:?}", other),
    }
}

#[test]
fn failed_tuning_write_is_a_warning_not_fatal() {
    let (mut wf, a) = up_to_selection(Some("/dev/zram1"));
    let (path, _) = expect_write(&a);
    assert_eq!(path, "/sys/block/zram1/comp_algorithm");
    // The first zram write fails: one warning, and the next write is still
    // asked for.
    let a = wf.step(Event::Wrote(false));
    assert_eq!(wf.warnings, strings(&["comp_algorithm"]));
    let (path, _) = expect_write(&a);
    assert_eq!(path, "/sys/block/zram1/mem_limit");
}

#[test]
fn failed_tool_launch_is_fatal() {
    let (mut wf, a) = up_to_selection(Some("/dev/zram1"));
    expect_write(&a);
    wf.step(Event::Wrote(true));
    wf.step(Event::Wrote(true));
    let a = wf.step(Event::Wrote(true));
    assert!(matches!(a, Action::RunTool { .. }));
    let a = wf.step(Event::ToolDone(false));
    match a {
        Action::Fail(e) => {
            assert_eq!(e, FatalError::ToolLaunchFailed);
            assert_eq!(e.message(), "failed to exec make-bcache");
        },
        other => panic!("expected fatal launch failure, got {:?}", other),
    }
}

#[test]
fn ambiguous_resolution_is_fatal() {
    let (mut wf, a) = up_to_selection(Some("/dev/zram1"));
    expect_write(&a);
    wf.step(Event::Wrote(true));
    wf.step(Event::Wrote(true));
    let a = wf.step(Event::Wrote(true));
    assert!(matches!(a, Action::RunTool { .. }));
    let a = wf.step(Event::ToolDone(true));
    assert!(matches!(a, Action::Settle));
    let a = wf.step(Event::Settled);
    assert!(matches!(a, Action::ListDevDir));
    // Two devices appeared at once: the diff cannot name the created one.
    let listing = strings(&["/dev/sda", "/dev/sda7", "/dev/bcache0", "/dev/bcache1"]);
    let a = wf.step(Event::Entries(Some(listing)));
    match a {
        Action::Fail(e) => {
            assert!(matches!(e, FatalError::AmbiguousDevice(_)));
            assert_eq!(e.message(), "unable to determine created bcache device");
        },
        other => panic!("expected fatal ambiguity, got {:?}", other),
    }
}

#[test]
fn full_run_with_preselected_cache_device() {
    // End to end: no zram or bcache devices to begin with, backing device
    // /dev/sda7, pre-selected cache device /dev/zram1.
    let (mut wf, a) = up_to_selection(Some("/dev/zram1"));

    // Zram configuration: comp_algorithm=zstd, mem_limit=3G, disksize=3G.
    let (path, value) = expect_write(&a);
    assert_eq!((path.as_str(), value.as_str()), ("/sys/block/zram1/comp_algorithm", "zstd"));
    let a = wf.step(Event::Wrote(true));
    let (path, value) = expect_write(&a);
    assert_eq!((path.as_str(), value.as_str()), ("/sys/block/zram1/mem_limit", "3G"));
    let a = wf.step(Event::Wrote(true));
    let (path, value) = expect_write(&a);
    assert_eq!((path.as_str(), value.as_str()), ("/sys/block/zram1/disksize", "3G"));

    // Pairing invocation with the derived arguments.
    let a = wf.step(Event::Wrote(true));
    match &a {
        Action::RunTool { program, args } => {
            assert_eq!(program, "make-bcache");
            assert_eq!(
                *args,
                strings(&[
                    "--wipe-bcache", "--block", "4k", "--bucket", "2M", "-C", "/dev/zram1",
                    "-B", "/dev/sda7",
                ])
            );
        },
        other => panic!("expected the pairing invocation, got {:?}", other),
    }
    let a = wf.step(Event::ToolDone(true));
    assert!(matches!(a, Action::Settle));
    let a = wf.step(Event::Settled);
    assert!(matches!(a, Action::ListDevDir));

    // Exactly one new bcache device appeared and is resolved.
    let listing = strings(&["/dev/sda", "/dev/sda7", "/dev/bcache", "/dev/bcache0"]);
    let a = wf.step(Event::Entries(Some(listing)));
    assert_eq!(wf.resolved, "/dev/bcache0");

    // Tuning: sequential_cutoff=5M, cache_mode=writeback.
    let (path, value) = expect_write(&a);
    assert_eq!(
        (path.as_str(), value.as_str()),
        ("/sys/block/bcache0/bcache/sequential_cutoff", "5M")
    );
    let a = wf.step(Event::Wrote(true));
    let (path, value) = expect_write(&a);
    assert_eq!((path.as_str(), value.as_str()), ("/sys/block/bcache0/bcache/cache_mode", "writeback"));

    // Registration of the pre-selected cache device.
    let a = wf.step(Event::Wrote(true));
    let (path, value) = expect_write(&a);
    assert_eq!((path.as_str(), value.as_str()), ("/sys/fs/bcache/register", "/dev/zram1"));
    let a = wf.step(Event::Wrote(true));
    assert!(matches!(a, Action::Finish));
    assert!(matches!(wf.phase, Phase::Finished));
    assert!(wf.warnings.is_empty());
}

#[test]
fn acquired_cache_device_skips_registration() {
    // Without a pre-selected device the cache comes from hot-add, and the
    // registration write is not asked for.
    let (mut wf, _) = up_to_selection(None);
    let a = wf.step(Event::ReadDone(Some(b"0\n".to_vec())));
    expect_write(&a);
    wf.step(Event::Wrote(true));
    wf.step(Event::Wrote(true));
    let a = wf.step(Event::Wrote(true));
    assert!(matches!(a, Action::RunTool { .. }));
    let a = wf.step(Event::ToolDone(true));
    assert!(matches!(a, Action::Settle));
    let a = wf.step(Event::Settled);
    assert!(matches!(a, Action::ListDevDir));
    let listing = strings(&["/dev/sda", "/dev/sda7", "/dev/bcache0"]);
    let a = wf.step(Event::Entries(Some(listing)));
    expect_write(&a);
    let a = wf.step(Event::Wrote(true));
    expect_write(&a);
    let a = wf.step(Event::Wrote(true));
    assert!(matches!(a, Action::Finish));
    assert!(matches!(wf.phase, Phase::Finished));
}

#[test]
fn failed_registration_is_a_warning() {
    let (mut wf, a) = up_to_selection(Some("/dev/zram1"));
    expect_write(&a);
    wf.step(Event::Wrote(true));
    wf.step(Event::Wrote(true));
    let a = wf.step(Event::Wrote(true));
    assert!(matches!(a, Action::RunTool { .. }));
    wf.step(Event::ToolDone(true));
    let a = wf.step(Event::Settled);
    assert!(matches!(a, Action::ListDevDir));
    let listing = strings(&["/dev/sda", "/dev/sda7", "/dev/bcache0"]);
    wf.step(Event::Entries(Some(listing)));
    wf.step(Event::Wrote(true));
    let a = wf.step(Event::Wrote(true));
    let (path, _) = expect_write(&a);
    assert_eq!(path, "/sys/fs/bcache/register");
    let a = wf.step(Event::Wrote(false));
    assert!(matches!(a, Action::Finish));
    assert_eq!(wf.warnings, strings(&["register"]));
    assert!(matches!(wf.phase, Phase::Finished));
}
