use pura::error::ErrorType;
use pura::process::{environment, has_terminal, split_env};
use pura::rootfs::{
    default_devices, default_node_outcome, default_symlinks, option_effect_of, parse_mount_options,
    resolve_in_rootfs, setup_steps, SetupStep, MS_BIND, MS_NOSUID, MS_PRIVATE, MS_RDONLY, MS_REC,
};

fn strings(v: &[&str]) -> Vec<String> {
    v.iter().map(|s| s.to_string()).collect()
}

#[test]
fn mount_options_translate() {
    let o = parse_mount_options(&strings(&["nosuid", "ro", "mode=755", "rbind", "size=65536k"]));
    assert_eq!(o.flags, MS_NOSUID | MS_RDONLY | MS_BIND | MS_REC);
    assert_eq!(o.flags, 2 | 1 | 4096 | 16384);
    assert_eq!(o.data, "mode=755,size=65536k");
}

#[test]
fn mount_options_later_wins() {
    let o = parse_mount_options(&strings(&["ro", "rw", "rprivate"]));
    assert_eq!(o.flags, MS_PRIVATE | MS_REC);
    assert_eq!(o.data, "");
    let none = parse_mount_options(&Vec::new());
    assert_eq!(none.flags, 0);
    assert_eq!(none.data, "");
    assert_eq!(option_effect_of("rw"), Some((true, 1)));
    assert_eq!(option_effect_of("mode=1"), None);
}

#[test]
fn destinations_stay_in_rootfs() {
    assert_eq!(resolve_in_rootfs("/r", "/proc").unwrap(), "/r/proc");
    assert_eq!(resolve_in_rootfs("/r", "//dev/pts").unwrap(), "/r/dev/pts");
    assert_eq!(resolve_in_rootfs("/r", "a..b/..c").unwrap(), "/r/a..b/..c");
    for bad in ["/../etc", "..", "/a/..", "a/../../b"] {
        assert_eq!(resolve_in_rootfs("/r", bad).unwrap_err().err_type, ErrorType::Spec);
    }
}

#[test]
fn default_device_nodes() {
    let d = default_devices();
    let seen: Vec<(String, u64, u64)> = d.iter().map(|n| (n.path.clone(), n.major, n.minor)).collect();
    assert_eq!(
        seen,
        vec![
            ("/dev/null".to_string(), 1, 3),
            ("/dev/zero".to_string(), 1, 5),
            ("/dev/full".to_string(), 1, 7),
            ("/dev/random".to_string(), 1, 8),
            ("/dev/urandom".to_string(), 1, 9),
            ("/dev/tty".to_string(), 5, 0),
        ]
    );
    assert!(d.iter().all(|n| n.kind == 'c' && n.mode == 0o666));
}

#[test]
fn default_links() {
    let l = default_symlinks();
    assert_eq!(l.len(), 5);
    assert_eq!(l[0], ("/proc/self/fd".to_string(), "/dev/fd".to_string()));
    assert_eq!(l[4], ("/proc/kcore".to_string(), "/dev/core".to_string()));
}

#[test]
fn devices_rerun_on_same_rootfs() {
    assert!(default_node_outcome(None).is_ok());
    assert!(default_node_outcome(Some(17)).is_ok());
    assert_eq!(default_node_outcome(Some(1)).unwrap_err().err_type, ErrorType::Runtime);
}

#[test]
fn setup_order() {
    assert_eq!(
        setup_steps(true, true, true),
        vec![
            SetupStep::Terminal,
            SetupStep::BindRootfs,
            SetupStep::SpecMounts,
            SetupStep::SpecDevices,
            SetupStep::DefaultDevices,
            SetupStep::DefaultLinks,
            SetupStep::PivotRoot,
        ]
    );
    assert_eq!(
        setup_steps(false, false, false),
        vec![SetupStep::BindRootfs, SetupStep::DefaultDevices, SetupStep::DefaultLinks, SetupStep::PivotRoot]
    );
    assert_eq!(SetupStep::PivotRoot.failure_message("EINVAL"), "error pivot_root EINVAL");
}

#[test]
fn env_entries_split() {
    assert_eq!(split_env("A=b=c"), Some(("A".to_string(), "b=c".to_string())));
    assert_eq!(split_env("=x"), Some(("".to_string(), "x".to_string())));
    assert_eq!(split_env("PATH"), None);
    let e = environment(&strings(&["PATH=/bin", "JUNK", "TERM=xterm"]));
    assert_eq!(
        e,
        vec![("PATH".to_string(), "/bin".to_string()), ("TERM".to_string(), "xterm".to_string())]
    );
}

#[test]
fn terminal_flag() {
    assert!(has_terminal(Some(true)));
    assert!(!has_terminal(Some(false)));
    assert!(!has_terminal(None));
}
