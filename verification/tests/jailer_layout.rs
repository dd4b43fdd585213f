use rustcracker::config::{FsView, HypervisorConfig, JailerConfig, PathStatus};
use rustcracker::error::RtckErrorKind;
use rustcracker::firecracker::FirecrackerAsync;
use rustcracker::jailer::{Jailer, JailerAsync};

fn status(path: &str, exists: bool, is_file: bool) -> PathStatus {
    PathStatus { path: path.to_string(), exists, is_file, error: String::new() }
}

fn jailed_config() -> HypervisorConfig {
    let mut c = HypervisorConfig::default();
    c.id = Some("demo-instance".to_string());
    c.using_jailer = Some(true);
    c.frck_bin = Some("/usr/bin/firecracker".to_string());
    c.jailer_bin = Some("/usr/bin/jailer".to_string());
    c.jailer_config = Some(JailerConfig {
        gid: Some(100),
        uid: Some(123),
        numa_node: Some(0),
        exec_file: Some("/usr/bin/firecracker".to_string()),
        jailer_bin: Some("/usr/bin/jailer".to_string()),
        chroot_base_dir: Some("/srv/jailer".to_string()),
        daemonize: Some(false),
    });
    c.socket_path = Some("run/firecracker.socket".to_string());
    c.lock_path = Some("run/firecracker.lock".to_string());
    c.log_path = Some("var/log/firecracker.log".to_string());
    c
}

fn fs() -> FsView {
    FsView {
        entries: vec![
            status("/usr/bin/firecracker", true, true),
            status("/usr/bin/jailer", true, true),
        ],
    }
}

#[test]
fn jailer_from_config_takes_configured_entries() {
    let j = Jailer::from_config(&jailed_config(), &fs()).unwrap();
    assert_eq!(j.id, "demo-instance");
    assert_eq!(j.get_uid(), 123);
    assert_eq!(j.get_gid(), 100);
    assert_eq!(j.get_firecracker_exec_file(), "/usr/bin/firecracker");
    assert_eq!(j.chroot_base_dir, "/srv/jailer");
    assert!(j.get_jailer_workspace_dir().is_none());
}

#[test]
fn jail_lays_out_paths_below_the_workspace() {
    let mut j = Jailer::from_config(&jailed_config(), &fs()).unwrap();
    let inst = j.jail(false).unwrap();
    assert_eq!(inst, "/srv/jailer/firecracker/demo-instance");
    let ws = "/srv/jailer/firecracker/demo-instance/root";
    assert_eq!(j.get_jailer_workspace_dir().unwrap(), ws);
    assert_eq!(j.get_socket_path_exported().unwrap(), &format!("{ws}/run/firecracker.socket"));
    assert_eq!(j.get_lock_path_exported().unwrap(), &format!("{ws}/run/firecracker.lock"));
    assert_eq!(j.get_log_path_exported().unwrap(), &format!("{ws}/var/log/firecracker.log"));
    assert_eq!(j.get_metrics_path_exported().unwrap(), &format!("{ws}/run/firecracker.metrics"));
    for p in [
        j.get_socket_path_exported(),
        j.get_lock_path_exported(),
        j.get_log_path_exported(),
        j.get_metrics_path_exported(),
    ] {
        assert!(p.unwrap().starts_with(&format!("{ws}/")));
    }
}

#[test]
fn absolute_paths_are_taken_below_the_workspace() {
    let mut c = jailed_config();
    c.log_path = Some("/var/log/fc.log".to_string());
    let mut j = Jailer::from_config(&c, &fs()).unwrap();
    j.jail(false).unwrap();
    assert_eq!(
        j.get_log_path_exported().unwrap(),
        "/srv/jailer/firecracker/demo-instance/root/var/log/fc.log"
    );
}

#[test]
fn existing_workspace_is_a_conflict() {
    let mut j = Jailer::from_config(&jailed_config(), &fs()).unwrap();
    let e = j.jail(true).unwrap_err();
    assert_eq!(e.kind(), RtckErrorKind::Jailer);
    assert_eq!(e.message(), "Conflict instance name, please choose another one");
    assert!(j.get_jailer_workspace_dir().is_none());
}

#[test]
fn jailer_launch_arguments() {
    let j = Jailer::from_config(&jailed_config(), &fs()).unwrap();
    assert_eq!(
        j.launch_args(),
        vec![
            "--id", "demo-instance", "--uid", "123", "--gid", "100", "--exec-file",
            "/usr/bin/firecracker", "--chroot-base-dir", "/srv/jailer", "--", "--api-sock",
            "run/firecracker.socket",
        ]
    );
}

#[test]
fn missing_firecracker_binary_fails_the_check() {
    let view = FsView { entries: vec![status("/usr/bin/jailer", true, true)] };
    let e = Jailer::from_config(&jailed_config(), &view).unwrap_err();
    assert_eq!(e.kind(), RtckErrorKind::Config);
    assert_eq!(e.message(), "Firecracker executable file not found at \"/usr/bin/firecracker\"");
}

#[test]
fn missing_uid_is_reported_by_name() {
    let mut c = jailed_config();
    if let Some(jc) = c.jailer_config.as_mut() {
        jc.uid = None;
    }
    let e = Jailer::from_config(&c, &fs()).unwrap_err();
    assert_eq!(e.message(), "Missing jailer uid entry");
}

#[test]
fn path_under_jailer_for_defaults_and_relative_paths() {
    let j = Jailer::from_config(&jailed_config(), &fs()).unwrap();
    let ws = "/w/root".to_string();
    assert_eq!(
        j.get_x_path_under_jailer(&None, "run/firecracker.lock", "lock", &ws).unwrap(),
        Some("/w/root/run/firecracker.lock".to_string())
    );
    assert_eq!(
        j.get_x_path_under_jailer(&Some("/a/b".to_string()), "x", "log", &ws).unwrap(),
        Some("/w/root/a/b".to_string())
    );
}

#[test]
fn firecracker_from_a_laid_out_jail() {
    let mut ja = JailerAsync::from_config(&jailed_config()).unwrap();
    ja.jail(false).unwrap();
    let f = FirecrackerAsync::from_jailer(ja).unwrap();
    assert_eq!(f.bin, "/usr/bin/firecracker");
    assert_eq!(f.get_socket_path(), "/srv/jailer/firecracker/demo-instance/root/run/firecracker.socket");
    assert_eq!(f.launch_args(), vec!["--api-sock", f.socket.as_str()]);
}

#[test]
fn firecracker_from_an_unjailed_jailer_is_refused() {
    let ja = JailerAsync::from_config(&jailed_config()).unwrap();
    let e = FirecrackerAsync::from_jailer(ja).unwrap_err();
    assert_eq!(e.message(), "jailer without socket path exported");
}

#[test]
fn exported_socket_loses_one_leading_slash() {
    let mut c = jailed_config();
    c.socket_path = Some("/run/fc.sock".to_string());
    let mut j = Jailer::from_config(&c, &fs()).unwrap();
    assert!(j.get_socket_path_exported().is_none());
    let inst = j.jail(false).unwrap();
    assert_eq!(j.get_socket_path_exported().unwrap(), &format!("{inst}/root/run/fc.sock"));
}

#[test]
fn connecting_needs_an_exported_socket() {
    let mut j = Jailer::from_config(&jailed_config(), &fs()).unwrap();
    let e = j.connect_plan(3).unwrap_err();
    assert_eq!(e.kind(), RtckErrorKind::Jailer);
    assert_eq!(e.message(), "Missing exported socket path entry");
    let inst = j.jail(false).unwrap();
    let (socket, attempts) = j.connect_plan(2).unwrap();
    assert_eq!(socket, format!("{inst}/root/run/firecracker.socket"));
    assert_eq!(attempts.trying, 2);
    let mut attempts = attempts;
    attempts.failed();
    attempts.failed();
    assert_eq!(attempts.check().unwrap_err().message(), "Fail to connect unix socket after 2 tries");
    let ja = JailerAsync::from_config(&jailed_config()).unwrap();
    assert!(ja.connect_plan(1).is_err());
}
