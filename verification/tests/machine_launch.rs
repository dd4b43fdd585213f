use rustcracker::config::{FsView, PathStatus};
use rustcracker::handler::{
    Handler, HandlerKind, HandlerWork, Handlers, HandlersAdapter, LinkFilesToRootFSHandlerName, SetMetadataHandlerName,
    StartVMMHandlerName, ValidateNetworkCfgHandlerName,
};
use rustcracker::launch::{
    apply_chroot_strategy, handler_link_plan, handler_link_ready, jail_command, link_files, link_files_ready, machine_jail, try_link_files, start_vmm_check, start_vmm_result,
    HardLink, LaunchCommand,
};
use rustcracker::machine::{
    clear_file_result, Drive, MachineConfig, MachineConfiguration, MachineError, MachineJailerConfig, NetworkInterface,
    SeccompLevel, StdioTypes,
};

fn drive(id: &str, path: &str, root: bool) -> Drive {
    Drive { drive_id: id.to_string(), path_on_host: path.to_string(), is_root_device: root, is_read_only: false }
}

fn jailer_cfg() -> MachineJailerConfig {
    MachineJailerConfig {
        gid: Some(100),
        uid: Some(123),
        id: Some("vm1".to_string()),
        numa_node: Some(0),
        exec_file: Some("/usr/bin/firecracker".to_string()),
        jailer_binary: None,
        chroot_base_dir: None,
        daemonize: Some(true),
        chroot_strategy: None,
        stdout: Some(StdioTypes::Null),
        stderr: Some(StdioTypes::Piped),
        stdin: None,
        log_link_src: None,
        log_link_dest: None,
        metrics_link_src: None,
        metrics_link_dest: None,
    }
}

fn config() -> MachineConfig {
    MachineConfig {
        socket_path: Some("/run/fc.sock".to_string()),
        log_path: None,
        log_fifo: None,
        metrics_path: None,
        metrics_fifo: None,
        kernel_image_path: Some("/img/vmlinux".to_string()),
        initrd_path: None,
        kernel_args: None,
        drives: Some(vec![drive("rootfs", "/img/rootfs.ext4", true)]),
        network_interfaces: None,
        machine_cfg: Some(MachineConfiguration { vcpu_count: 2, mem_size_mib: 256, ht_enabled: None, track_dirty_pages: None }),
        disable_validation: false,
        enable_jailer: false,
        jailer_cfg: None,
        vmid: Some("vm1".to_string()),
        net_ns: None,
        seccomp_level: None,
        log_clear: None,
        metrics_clear: None,
        network_clear: None,
    }
}

fn status(path: &str, exists: bool) -> PathStatus {
    PathStatus { path: path.to_string(), exists, is_file: exists, error: if exists { String::new() } else { "No such file or directory (os error 2)".to_string() } }
}

fn err_text(e: &MachineError) -> String {
    e.to_text()
}

#[test]
fn paths_check_returns_the_socket_directory() {
    let fs = FsView { entries: vec![status("/img/vmlinux", true), status("/img/rootfs.ext4", true)] };
    assert_eq!(config().validate_paths(&fs).unwrap(), Some("/run".to_string()));
    assert!(config().validate_machine_cfg().is_ok());
}

#[test]
fn missing_kernel_image_message_names_path_and_cause() {
    let fs = FsView { entries: vec![status("/img/vmlinux", false)] };
    let e = config().validate_paths(&fs).unwrap_err();
    assert_eq!(
        err_text(&e),
        "Invalid configuration for the machine, reason: failed to stat kernel image path, Some(\n    \"/img/vmlinux\",\n): No such file or directory (os error 2)"
    );
}

#[test]
fn root_drive_and_socket_checks() {
    let fs = FsView { entries: vec![status("/img/vmlinux", true)] };
    let e = config().validate_paths(&fs).unwrap_err();
    assert!(matches!(e, MachineError::Validation(ref m) if m.starts_with("failed to stat host drive path, ")));
    let taken = FsView {
        entries: vec![status("/img/vmlinux", true), status("/img/rootfs.ext4", true), status("/run/fc.sock", true)],
    };
    let e = config().validate_paths(&taken).unwrap_err();
    assert!(matches!(e, MachineError::Validation(ref m) if m == "socket Some(\n    \"/run/fc.sock\",\n) already exists"));
    let mut c = config();
    c.socket_path = None;
    assert!(matches!(c.validate_paths(&taken), Err(MachineError::Validation(m)) if m == "no socket path provided"));
    let mut c = config();
    c.disable_validation = true;
    assert_eq!(c.validate_paths(&FsView { entries: vec![] }).unwrap(), None);
}

#[test]
fn machine_configuration_must_be_given() {
    let mut c = config();
    c.machine_cfg = None;
    assert!(matches!(c.validate_machine_cfg(), Err(MachineError::Validation(m)) if m == "no machine configuration provided"));
}

#[test]
fn network_check() {
    let mut c = config();
    assert!(matches!(c.validate_network(), Err(MachineError::Validation(m)) if m == "no network namespace provided"));
    c.net_ns = Some("/var/run/netns/vm1".to_string());
    assert!(matches!(c.validate_network(), Err(MachineError::Validation(m)) if m == "no network interface provided"));
    c.network_interfaces = Some(vec![NetworkInterface { iface_id: "eth0".to_string(), host_dev_name: "tap0".to_string(), guest_mac: None }]);
    assert!(c.validate_network().is_ok());
}

#[test]
fn jailer_config_check() {
    let mut c = config();
    assert!(matches!(c.validate_jailer_config(), Err(MachineError::ArgWrong(m)) if m == "Missing JailerConfig"));
    c.jailer_cfg = Some(jailer_cfg());
    assert!(c.validate_jailer_config().is_ok());
    let mut j = jailer_cfg();
    j.id = Some(String::new());
    c.jailer_cfg = Some(j);
    assert!(matches!(c.validate_jailer_config(), Err(MachineError::Validation(m)) if m == "id must be specified when using jailer mode"));
    c.jailer_cfg = Some(jailer_cfg());
    c.drives = Some(vec![drive("data", "/img/data.ext4", false)]);
    assert!(matches!(c.validate_jailer_config(), Err(MachineError::Validation(m)) if m == "A root drive must be present in the drive list"));
    c.initrd_path = Some("/img/initrd".to_string());
    assert!(c.validate_jailer_config().is_ok());
}

#[test]
fn jailer_handler_check_needs_a_strategy() {
    let mut c = config();
    assert!(c.jailer_handler_check().is_ok());
    c.jailer_cfg = Some(jailer_cfg());
    assert!(matches!(c.jailer_handler_check(), Err(MachineError::Validation(m)) if m == "chroot_startegy cannot be none"));
}

#[test]
fn seccomp_levels() {
    assert_eq!(SeccompLevel::Disable.value(), 0);
    assert_eq!(SeccompLevel::Basic.value(), 1);
    assert_eq!(SeccompLevel::Advanced.value(), 2);
    assert_eq!(config().with_seccomp_level(SeccompLevel::Advanced).seccomp_level, Some(2));
}

#[test]
fn direct_launch_command() {
    let (c, cmd) = machine_jail(config().with_seccomp_level(SeccompLevel::Basic)).unwrap();
    assert_eq!(c.socket_path, Some("/run/fc.sock".to_string()));
    match cmd {
        LaunchCommand::Vmm(b) => {
            assert_eq!(b.bin(), "firecracker");
            assert_eq!(b.command_args(), vec!["--api-sock", "/run/fc.sock", "--seccomp-level", "1", "--id", "vm1"]);
        }
        _ => panic!("expected a direct launch"),
    }
}

#[test]
fn jailed_launch_command_moves_the_socket() {
    let mut c = config();
    c.enable_jailer = true;
    c.socket_path = Some("run/fc.sock".to_string());
    c.net_ns = Some("/var/run/netns/vm1".to_string());
    c.jailer_cfg = Some(jailer_cfg());
    let (c2, cmd) = machine_jail(c).unwrap();
    assert_eq!(c2.socket_path, Some("/srv/jailer/firecracker/vm1/root/run/fc.sock".to_string()));
    match cmd {
        LaunchCommand::Jailer { builder, stdout, stderr, stdin } => {
            assert_eq!(builder.bin(), "jailer");
            assert_eq!(
                builder.args(),
                vec![
                    "--id", "vm1", "--uid", "123", "--gid", "100", "--exec-file", "/usr/bin/firecracker",
                    "--chroot-base-dir", "/srv/jailer", "--netns", "/var/run/netns/vm1", "--daemonize", "--",
                    "--api-sock", "run/fc.sock",
                ]
            );
            assert!(matches!(stdout, Some(StdioTypes::Null)));
            assert!(matches!(stderr, Some(StdioTypes::Piped)));
            assert!(stdin.is_none());
        }
        _ => panic!("expected a jailed launch"),
    }
}

#[test]
fn jail_errors() {
    let mut c = config();
    c.enable_jailer = true;
    assert!(matches!(machine_jail(c), Err(MachineError::Initialize(m)) if m == "jailer config was not set for use"));
    let mut c = config();
    c.enable_jailer = true;
    c.socket_path = None;
    c.jailer_cfg = Some(jailer_cfg());
    assert!(matches!(machine_jail(c), Err(MachineError::ArgWrong(m)) if m == "No socket_path provided"));
    let mut c = config();
    c.enable_jailer = true;
    let mut j = jailer_cfg();
    j.exec_file = Some("/".to_string());
    c.jailer_cfg = Some(j);
    assert!(matches!(machine_jail(c), Err(MachineError::ArgWrong(m)) if m == "malformed firecracker exec file name"));
}

#[test]
fn jailer_command_with_node_and_stream_choices() {
    let mut c = config();
    c.seccomp_level = Some(2);
    c.socket_path = None;
    c.jailer_cfg = Some(jailer_cfg());
    let l = jail_command(&c).unwrap();
    assert_eq!(l.program, "jailer");
    assert_eq!(
        l.args,
        vec![
            "--id", "vm1", "--uid", "123", "--gid", "100", "--exec-file", "/usr/bin/firecracker", "--node", "0",
            "--chroot-base-dir", "/srv/jailer", "--daemonize", "--", "--seccomp-level", "2", "--api-sock",
            "/run/firecracker.socket",
        ]
    );
    assert!(matches!(l.stdout, StdioTypes::Null));
    assert!(matches!(l.stderr, StdioTypes::Null));
    assert!(matches!(l.stdin, StdioTypes::Inherit));
    let mut c = config();
    assert!(matches!(jail_command(&c), Err(MachineError::Initialize(_))));
    let mut j = jailer_cfg();
    j.exec_file = Some("..".to_string());
    c.jailer_cfg = Some(j);
    assert!(matches!(jail_command(&c), Err(MachineError::FileError(m)) if m == "malformed firecracker exec file name"));
}

#[test]
fn chroot_strategy_adapts_handlers() {
    let mut handlers = Handlers::default();
    let j = jailer_cfg();
    assert!(matches!(apply_chroot_strategy(&j, &mut handlers), Err(MachineError::Initialize(m)) if m == "chroot strategy was not set for use"));
    let mut j = jailer_cfg();
    j.chroot_strategy = Some(HandlersAdapter::NaiveChrootStrategy {
        rootfs: "/srv/jailer/firecracker/vm1/root".to_string(),
        kernel_image_path: "/img/vmlinux".to_string(),
    });
    let before = handlers.fcinit.len();
    apply_chroot_strategy(&j, &mut handlers).unwrap();
    assert_eq!(handlers.fcinit.len(), before + 1);
    assert!(handlers.fcinit.has(HandlerKind::LinkFilesToRootFS));
}

fn jailed_config_with_files() -> MachineConfig {
    let mut c = config();
    c.enable_jailer = true;
    c.jailer_cfg = Some(jailer_cfg());
    c.initrd_path = Some("/img/initrd.img".to_string());
    c.drives = Some(vec![drive("rootfs", "/img/rootfs.ext4", true), drive("data", "/data/disk.img", false)]);
    c.log_fifo = Some("/tmp/fc.log.fifo".to_string());
    c
}

fn link(src: &str, dest: &str, owner: Option<(u32, u32)>) -> (String, String, Option<(u32, u32)>) {
    (src.to_string(), dest.to_string(), owner)
}

fn views(links: &[HardLink]) -> Vec<(String, String, Option<(u32, u32)>)> {
    links.iter().map(|l| (l.src.clone(), l.dest.clone(), l.owner)).collect()
}

#[test]
fn link_plan_links_every_file_into_the_jail() {
    let plan = link_files(jailed_config_with_files());
    let root = "/srv/jailer/firecracker/vm1/root";
    assert!(plan.failure.is_none());
    assert_eq!(
        views(&plan.links),
        vec![
            link("/img/vmlinux", &format!("{root}/vmlinux"), None),
            link("/img/initrd.img", &format!("{root}/initrd.img"), None),
            link("/img/rootfs.ext4", &format!("{root}/rootfs.ext4"), None),
            link("/data/disk.img", &format!("{root}/disk.img"), None),
            link("/tmp/fc.log.fifo", &format!("{root}/fc.log.fifo"), Some((123, 100))),
        ]
    );
    let c = plan.config;
    assert_eq!(c.kernel_image_path, Some("vmlinux".to_string()));
    assert_eq!(c.initrd_path, Some("initrd.img".to_string()));
    let ds = c.drives.unwrap();
    assert_eq!(ds[0].path_on_host, "rootfs.ext4");
    assert_eq!(ds[1].path_on_host, "disk.img");
    assert_eq!(c.log_fifo, Some("fc.log.fifo".to_string()));
    let j = c.jailer_cfg.unwrap();
    assert_eq!(j.log_link_src, Some("/tmp/fc.log.fifo".to_string()));
    assert_eq!(j.log_link_dest, Some(format!("{root}/fc.log.fifo")));
    for l in &plan.links {
        assert!(l.dest.starts_with(&format!("{root}/")));
    }
}

#[test]
fn link_plan_stops_at_an_unnamed_drive() {
    let mut c = jailed_config_with_files();
    c.drives = Some(vec![drive("rootfs", "/img/rootfs.ext4", true), drive("bad", "/data/..", false), drive("late", "/x/y", false)]);
    let plan = link_files(c);
    assert!(matches!(plan.failure, Some(MachineError::ArgWrong(ref m)) if m == "malformed drive file name"));
    assert_eq!(plan.links.len(), 3);
    let ds = plan.config.drives.unwrap();
    assert_eq!(ds[0].path_on_host, "rootfs.ext4");
    assert_eq!(ds[1].path_on_host, "/data/..");
    assert_eq!(ds[2].path_on_host, "/x/y");
}

#[test]
fn nothing_is_linked_without_the_jailer() {
    let plan = link_files(config());
    assert!(plan.links.is_empty());
    assert!(plan.failure.is_none());
}

#[test]
fn start_vmm_checks_and_results() {
    assert!(matches!(start_vmm_check(&None, true), Err(MachineError::ArgWrong(m)) if m == "start_vmm: no socket path provided"));
    assert!(matches!(start_vmm_check(&Some("/s".to_string()), false), Err(MachineError::Execute(m)) if m == "no command provided"));
    assert!(start_vmm_check(&Some("/s".to_string()), true).is_ok());
    let s = "/run/fc.sock".to_string();
    assert!(matches!(start_vmm_result(&s, Some("denied".to_string()), None), Err(MachineError::Execute(m)) if m == "failed to start vmm: denied"));
    assert!(matches!(start_vmm_result(&s, None, Some("timeout".to_string())), Err(MachineError::Initialize(m)) if m == "firecracker did not create API socket /run/fc.sock: timeout"));
    assert!(start_vmm_result(&s, None, None).is_ok());
}

#[test]
fn cleanup_removes_cleared_files_then_the_socket() {
    let mut c = jailed_config_with_files();
    c.log_path = Some("/var/log/fc.log".to_string());
    c.metrics_path = Some("/var/log/fc.metrics".to_string());
    assert_eq!(c.cleanup_paths(), vec!["/run/fc.sock"]);
    c.log_clear = Some(true);
    c.metrics_clear = Some(true);
    if let Some(j) = c.jailer_cfg.as_mut() {
        j.log_link_dest = Some("/srv/jailer/firecracker/vm1/root/fc.log.fifo".to_string());
    }
    assert_eq!(
        c.cleanup_paths(),
        vec![
            "/tmp/fc.log.fifo",
            "/var/log/fc.log",
            "/srv/jailer/firecracker/vm1/root/fc.log.fifo",
            "/var/log/fc.metrics",
            "/run/fc.sock",
        ]
    );
    assert!(!c.clears_network());
    c.network_clear = Some(true);
    assert!(c.clears_network());
}

#[test]
fn clearing_a_file() {
    let p = "/run/fc.sock".to_string();
    assert!(clear_file_result(&p, None, false).is_ok());
    assert!(matches!(clear_file_result(&p, Some("denied".to_string()), true),
        Err(MachineError::Cleaning(m)) if m == "fail to remove the file at /run/fc.sock: denied"));
    assert!(matches!(clear_file_result(&p, None, true),
        Err(MachineError::Cleaning(m)) if m == "fail to remove the file at /run/fc.sock, maybe a dir, non-exist file or permission deny"));
}

#[test]
fn linking_needs_the_entries_it_relies_on() {
    assert!(link_files_ready(&config()));
    assert!(link_files_ready(&jailed_config_with_files()));
    let mut c = jailed_config_with_files();
    c.jailer_cfg.as_mut().unwrap().exec_file = None;
    assert!(!link_files_ready(&c));
    assert!(try_link_files(c).is_none());
    let mut c = jailed_config_with_files();
    c.jailer_cfg.as_mut().unwrap().uid = None;
    assert!(!link_files_ready(&c));
    let mut c = jailed_config_with_files();
    c.jailer_cfg.as_mut().unwrap().uid = None;
    c.log_fifo = None;
    assert!(link_files_ready(&c));
    let mut c = jailed_config_with_files();
    c.drives = None;
    assert!(try_link_files(c).is_none());
    let mut c = jailed_config_with_files();
    c.kernel_image_path = Some("/img/..".to_string());
    c.drives = None;
    let plan = try_link_files(c).unwrap();
    assert!(matches!(plan.failure, Some(MachineError::ArgWrong(ref m)) if m == "malformed kernel image path"));
    assert_eq!(plan.links.len(), 0);
    assert_eq!(try_link_files(jailed_config_with_files()).unwrap().links.len(), 5);
}

#[test]
fn link_files_handler_plans_its_links() {
    let mut c = jailed_config_with_files();
    c.metrics_fifo = Some(String::new());
    assert!(handler_link_ready(&c));
    let plan = handler_link_plan(c, &"vmlinux.bin".to_string()).unwrap();
    let root = "/srv/jailer/firecracker/vm1/root";
    assert!(plan.failure.is_none());
    assert_eq!(
        views(&plan.links),
        vec![
            link("/img/vmlinux", &format!("{root}/vmlinux.bin"), None),
            link("/img/initrd.img", &format!("{root}/initrd.img"), None),
            link("/img/rootfs.ext4", &format!("{root}/rootfs.ext4"), None),
            link("/data/disk.img", &format!("{root}/disk.img"), None),
            link("/tmp/fc.log.fifo", &format!("{root}/fc.log.fifo"), Some((123, 100))),
        ]
    );
    let c = plan.config;
    assert_eq!(c.kernel_image_path, Some("vmlinux.bin".to_string()));
    assert_eq!(c.initrd_path, Some("initrd.img".to_string()));
    assert_eq!(c.log_fifo, Some("fc.log.fifo".to_string()));
    assert_eq!(c.metrics_fifo, Some(String::new()));
    assert!(c.jailer_cfg.unwrap().log_link_src.is_none());
}

#[test]
fn link_files_handler_errors() {
    let e = handler_link_plan(config(), &"k".to_string()).unwrap_err();
    assert!(matches!(e, MachineError::FileError(ref m) if m == "jailer config was not set for use"));
    let mut c = jailed_config_with_files();
    c.jailer_cfg.as_mut().unwrap().exec_file = Some("/usr/bin/..".to_string());
    let e = handler_link_plan(c, &"k".to_string()).unwrap_err();
    assert!(matches!(e, MachineError::FileError(ref m) if m == "malformed firecracker exec file name"));
    let mut c = jailed_config_with_files();
    c.drives = Some(vec![drive("rootfs", "/img/rootfs.ext4", true), drive("bad", "/data/..", false)]);
    let plan = handler_link_plan(c, &"k".to_string()).unwrap();
    assert!(matches!(plan.failure, Some(MachineError::FileError(ref m)) if m == "malformed drive file name"));
    assert_eq!(plan.links.len(), 3);
    assert_eq!(plan.config.kernel_image_path, Some("/img/vmlinux".to_string()));
    assert_eq!(plan.config.drives.unwrap()[0].path_on_host, "rootfs.ext4");
    let mut c = jailed_config_with_files();
    c.initrd_path = Some("/img/..".to_string());
    let plan = handler_link_plan(c, &"k".to_string()).unwrap();
    assert!(matches!(plan.failure, Some(MachineError::FileError(ref m)) if m == "malformed initrd path"));
    assert_eq!(plan.links.len(), 1);
    let mut c = jailed_config_with_files();
    c.jailer_cfg.as_mut().unwrap().uid = None;
    assert!(!handler_link_ready(&c));
}

#[test]
fn handlers_name_their_work() {
    let mut c = config();
    c.net_ns = None;
    match (Handler::NetworkConfigValidationHandler { name: ValidateNetworkCfgHandlerName }).work(&c) {
        HandlerWork::Done(Err(MachineError::Validation(m))) => assert_eq!(m, "no network namespace provided"),
        _ => panic!("expected the network check"),
    }
    assert!(matches!((Handler::StartVMMHandler { name: StartVMMHandlerName }).work(&c), HandlerWork::StartVmm));
    match (Handler::NewSetMetadataHandler { name: SetMetadataHandlerName, data: "{}".to_string() }).work(&c) {
        HandlerWork::SetMetadata(d) => assert_eq!(d, "{}"),
        _ => panic!("expected metadata"),
    }
    match (Handler::LinkFilesHandler { name: LinkFilesToRootFSHandlerName, kernel_image_file_name: "vmlinux".to_string() }).work(&c) {
        HandlerWork::LinkFiles(k) => assert_eq!(k, "vmlinux"),
        _ => panic!("expected linking"),
    }
}
