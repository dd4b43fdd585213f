use rustcracker::config::{FsView, HypervisorConfig, JailerConfig, PathStatus};
use rustcracker::error::RtckErrorKind;
use rustcracker::firecracker::{Firecracker, FirecrackerAsync};
use rustcracker::microvm::{BootSource, Logger, Metrics, MicroVMConfig};

fn status(path: &str, exists: bool, is_file: bool) -> PathStatus {
    PathStatus { path: path.to_string(), exists, is_file, error: String::new() }
}

fn bare_config() -> HypervisorConfig {
    let mut c = HypervisorConfig::default();
    c.frck_bin = Some("/usr/bin/firecracker".to_string());
    c.socket_path = Some("/run/fc.sock".to_string());
    c.lock_path = Some("/run/fc.lock".to_string());
    c.log_path = Some("/var/log/fc.log".to_string());
    c.metrics_path = Some("/var/log/fc.metrics".to_string());
    c
}

#[test]
fn hypervisor_config_defaults() {
    let c = HypervisorConfig::default();
    assert_eq!(c.launch_timeout, 3);
    assert_eq!(c.poll_status_secs, 10);
    assert_eq!(c.socket_retry, 3);
    assert!(c.id.is_none() && c.using_jailer.is_none());
}

#[test]
fn bare_config_passes_with_binary_present() {
    let fs = FsView { entries: vec![status("/usr/bin/firecracker", true, true)] };
    assert!(bare_config().validate(&fs).is_ok());
    let f = Firecracker::from_config(&bare_config(), &fs).unwrap();
    assert_eq!(f.get_socket(), "/run/fc.sock");
    assert_eq!(f.launch_args(), vec!["--api-sock", "/run/fc.sock"]);
}

#[test]
fn occupied_socket_is_refused() {
    let fs = FsView {
        entries: vec![status("/usr/bin/firecracker", true, true), status("/run/fc.sock", true, false)],
    };
    let e = bare_config().validate(&fs).unwrap_err();
    assert_eq!(e.kind(), RtckErrorKind::Config);
    assert_eq!(e.message(), "Socket path occupied");
}

#[test]
fn missing_binary_is_reported_with_its_path() {
    let fs = FsView { entries: vec![] };
    let e = bare_config().validate(&fs).unwrap_err();
    assert_eq!(e.message(), "Firecracker binary not found, provided path: \"/usr/bin/firecracker\"");
    let mut c = bare_config();
    c.frck_bin = None;
    assert_eq!(c.validate(&fs).unwrap_err().message(), "Firecracker binary path not configured");
}

#[test]
fn jailer_config_requires_firecracker_in_exec_path() {
    let jc = JailerConfig {
        gid: Some(1),
        uid: Some(1),
        numa_node: None,
        exec_file: Some("/usr/bin/vmm".to_string()),
        jailer_bin: Some("/usr/bin/jailer".to_string()),
        chroot_base_dir: None,
        daemonize: None,
    };
    let fs = FsView { entries: vec![status("/usr/bin/vmm", true, true)] };
    assert_eq!(
        jc.validate(&fs).unwrap_err().message(),
        "Firecracker executable path must contain `firecracker`"
    );
    assert_eq!(
        JailerConfig::default().validate(&fs).unwrap_err().message(),
        "Firecracker executable file not configured"
    );
}

#[test]
fn probe_list_names_consulted_paths() {
    let c = bare_config();
    assert_eq!(c.paths_to_probe(), vec!["/run/fc.sock", "/usr/bin/firecracker"]);
}

#[test]
fn async_firecracker_gets_a_socket_from_its_id() {
    let mut c = bare_config();
    c.socket_path = None;
    let f = FirecrackerAsync::from_config_with_id(&c, "vm1".to_string()).unwrap();
    assert_eq!(f.get_socket_path(), "/run/firecracker-vm1.socket");
    assert!(f.stdout_to.is_none() && f.stderr_to.is_none());
    c.lock_path = None;
    assert_eq!(
        FirecrackerAsync::from_config_with_id(&c, "vm1".to_string()).unwrap_err().message(),
        "Missing lock path entry"
    );
}

fn microvm() -> MicroVMConfig {
    let mut m = MicroVMConfig::default();
    m.logger = Some(Logger {
        log_path: "firecracker.log".to_string(),
        level: None,
        show_level: None,
        show_log_origin: None,
        module: None,
    });
    m.metrics = Some(Metrics { metrics_path: "firecracker.metrics".to_string() });
    m.boot_source = Some(BootSource {
        kernel_image_path: "/img/vmlinux".to_string(),
        boot_args: Some("console=ttyS0".to_string()),
        initrd_path: None,
    });
    m
}

#[test]
fn microvm_config_checks_in_order() {
    let ok = FsView { entries: vec![status("/img/vmlinux", true, true)] };
    assert!(microvm().validate(&ok).is_ok());
    let log_taken = FsView {
        entries: vec![status("firecracker.log", true, true), status("/img/vmlinux", true, true)],
    };
    assert_eq!(microvm().validate(&log_taken).unwrap_err().message(), "Logger path occupied");
    let metrics_taken = FsView {
        entries: vec![status("firecracker.metrics", true, true), status("/img/vmlinux", true, true)],
    };
    assert_eq!(microvm().validate(&metrics_taken).unwrap_err().message(), "Metrics path occupied");
    let no_kernel = FsView { entries: vec![status("/img/vmlinux", true, false)] };
    assert_eq!(
        microvm().validate(&no_kernel).unwrap_err().message(),
        "Kernel image file not found at \"/img/vmlinux\""
    );
}

#[test]
fn fs_view_takes_first_entry_and_defaults_to_absent() {
    let fs = FsView {
        entries: vec![
            PathStatus { path: "/a".to_string(), exists: false, is_file: false, error: "gone".to_string() },
            status("/a", true, true),
        ],
    };
    assert_eq!(fs.status(&"/a".to_string()), (false, false));
    assert_eq!(fs.status(&"/b".to_string()), (false, false));
    assert_eq!(fs.error_of(&"/a".to_string()), "gone");
    assert_eq!(fs.error_of(&"/b".to_string()), "");
}

#[test]
fn instance_ids_are_at_most_64_characters() {
    let fs = FsView { entries: vec![status("/usr/bin/firecracker", true, true)] };
    let mut c = bare_config();
    c.id = Some("a".repeat(64));
    assert!(c.validate(&fs).is_ok());
    c.id = Some("a".repeat(65));
    let e = c.validate(&fs).unwrap_err();
    assert_eq!(e.kind(), RtckErrorKind::Config);
    assert_eq!(e.message(), "Instance id longer than 64 characters");
}
