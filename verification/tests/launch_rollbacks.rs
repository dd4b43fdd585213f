use rustcracker::command_builder::JailerCommandBuilder as MachineJailerCommand;
use rustcracker::jailer_command::JailerCommandBuilder;
use rustcracker::config::HypervisorConfig;
use rustcracker::firecracker::FirecrackerAsync;
use rustcracker::hypervisor::{clears_jailer, record_rollback, LaunchEvent, Rollback};
use rustcracker::machine::Drive;
use rustcracker::microvm::{jailed_boot_source, jailed_drive, mount_source, BootSource};

#[test]
fn jailed_launch_stacks_its_rollbacks() {
    let mut stack: Vec<Rollback> = Vec::new();
    record_rollback(&mut stack, LaunchEvent::Jailed("/srv/jailer/firecracker/vm1".to_string()));
    record_rollback(&mut stack, LaunchEvent::Spawned(42));
    record_rollback(&mut stack, LaunchEvent::SocketReady("/run/fc.sock".to_string()));
    record_rollback(&mut stack, LaunchEvent::LockOpened("/tmp/fc.lock".to_string()));
    assert_eq!(stack.len(), 4);
    assert!(matches!(&stack[0], Rollback::Jailing { instance_dir } if instance_dir == "/srv/jailer/firecracker/vm1"));
    assert!(matches!(&stack[1], Rollback::RemoveFsLock { path } if path == "/tmp/fc.lock"));
    assert!(matches!(&stack[2], Rollback::RemoveSocket { path } if path == "/run/fc.sock"));
    assert!(matches!(&stack[3], Rollback::StopProcess { pid: 42 }));
}

#[test]
fn bare_launch_stacks_its_rollbacks() {
    let mut stack: Vec<Rollback> = Vec::new();
    record_rollback(&mut stack, LaunchEvent::Spawned(7));
    record_rollback(&mut stack, LaunchEvent::SocketReady("/run/firecracker-a.socket".to_string()));
    record_rollback(&mut stack, LaunchEvent::LockOpened("/tmp/a.lock".to_string()));
    record_rollback(&mut stack, LaunchEvent::Mounted("/srv/ws/kernel".to_string()));
    assert_eq!(stack.len(), 4);
    assert!(matches!(&stack[0], Rollback::StopProcess { pid: 7 }));
    assert!(matches!(&stack[1], Rollback::Umount { mount_point } if mount_point == "/srv/ws/kernel"));
    assert!(matches!(&stack[2], Rollback::RemoveFsLock { path } if path == "/tmp/a.lock"));
    assert!(matches!(&stack[3], Rollback::RemoveSocket { .. }));
}

#[test]
fn jailer_directory_is_kept_unless_asked() {
    let mut c = HypervisorConfig::default();
    assert!(!clears_jailer(&c));
    c.clear_jailer = Some(false);
    assert!(!clears_jailer(&c));
    c.clear_jailer = Some(true);
    assert!(clears_jailer(&c));
}

#[test]
fn client_jailer_arguments_carry_the_node() {
    let b = JailerCommandBuilder::new()
        .with_id(&"vm1".to_string())
        .with_uid(&123)
        .with_gid(&100)
        .with_exec_file("/usr/bin/firecracker".to_string())
        .with_numa_node(&0)
        .with_chroot_base_dir("/srv/jailer".to_string())
        .with_daemonize(&true)
        .with_firecracker_args(vec!["--api-sock".to_string(), "/run/fc.sock".to_string()]);
    assert_eq!(
        b.args(),
        vec![
            "--id", "vm1", "--uid", "123", "--gid", "100", "--exec-file", "/usr/bin/firecracker",
            "--node", "0", "--chroot-base-dir", "/srv/jailer", "--daemonize", "--", "--api-sock",
            "/run/fc.sock",
        ]
    );
    let m = MachineJailerCommand::new()
        .with_id(&"vm1".to_string())
        .with_uid(&123)
        .with_gid(&100)
        .with_exec_file("/usr/bin/firecracker".to_string())
        .with_numa_node(&0)
        .with_chroot_base_dir("/srv/jailer".to_string())
        .with_daemonize(&true)
        .with_firecracker_args(vec!["--api-sock".to_string(), "/run/fc.sock".to_string()]);
    assert_eq!(
        m.args(),
        vec![
            "--id", "vm1", "--uid", "123", "--gid", "100", "--exec-file", "/usr/bin/firecracker",
            "--chroot-base-dir", "/srv/jailer", "--daemonize", "--", "--api-sock", "/run/fc.sock",
        ]
    );
}

#[test]
fn bare_firecracker_gets_the_default_socket() {
    let mut c = HypervisorConfig::default();
    c.id = Some("abc".to_string());
    c.frck_bin = Some("/usr/bin/firecracker".to_string());
    c.lock_path = Some("/tmp/fc.lock".to_string());
    c.log_path = Some("/tmp/fc.log".to_string());
    c.metrics_path = Some("/tmp/fc.metrics".to_string());
    let f = FirecrackerAsync::from_config(&c).unwrap();
    assert_eq!(f.get_socket_path(), "/run/firecracker-abc.socket");
}

#[test]
fn kernel_and_initrd_are_seen_under_the_jail() {
    let b = BootSource {
        kernel_image_path: "/img/kernels/vmlinux".to_string(),
        boot_args: Some("console=ttyS0".to_string()),
        initrd_path: Some("/img/initrd.img".to_string()),
    };
    let (dir, name) = mount_source(&b.kernel_image_path, "invalid path", "invalid kernel image file path").unwrap();
    assert_eq!(dir, "/img/kernels");
    let (_, initrd_name) = mount_source(&"/img/initrd.img".to_string(), "invalid path", "invalid kernel image file path").unwrap();
    let j = jailed_boot_source(&b, &name, &Some(initrd_name));
    assert_eq!(j.kernel_image_path, "/kernel/vmlinux");
    assert_eq!(j.initrd_path, Some("initrd/initrd.img".to_string()));
    assert_eq!(j.boot_args, Some("console=ttyS0".to_string()));
    let plain = BootSource { kernel_image_path: "/k".to_string(), boot_args: None, initrd_path: None };
    let j = jailed_boot_source(&plain, &"k".to_string(), &None);
    assert_eq!(j.kernel_image_path, "/kernel/k");
    assert_eq!(j.initrd_path, None);
}

#[test]
fn drives_are_seen_under_the_jail() {
    let d = Drive {
        drive_id: "rootfs".to_string(),
        path_on_host: "/img/rootfs.ext4".to_string(),
        is_root_device: true,
        is_read_only: false,
    };
    let (mount_point, j) = jailed_drive(&d, &"/srv/jailer/firecracker/vm1/root".to_string(), &"rootfs.ext4".to_string());
    assert_eq!(mount_point, "/srv/jailer/firecracker/vm1/root/drivesrootfs");
    assert_eq!(j.path_on_host, "/drivesrootfs/rootfs.ext4");
    assert_eq!(j.drive_id, "rootfs");
    assert!(j.is_root_device);
    assert!(!j.is_read_only);
}

#[test]
fn unset_ids_are_random_version_four_uuids() {
    let mut c = HypervisorConfig::default();
    c.frck_bin = Some("/usr/bin/firecracker".to_string());
    c.lock_path = Some("/tmp/fc.lock".to_string());
    c.log_path = Some("/tmp/fc.log".to_string());
    c.metrics_path = Some("/tmp/fc.metrics".to_string());
    let f = FirecrackerAsync::from_config(&c).unwrap();
    let id: Vec<char> = f.id.chars().collect();
    assert_eq!(id.len(), 36);
    for (i, ch) in id.iter().enumerate() {
        if i == 8 || i == 13 || i == 18 || i == 23 {
            assert_eq!(*ch, '-');
        } else {
            assert!(ch.is_ascii_hexdigit() && !ch.is_ascii_uppercase());
        }
    }
    assert_eq!(id[14], '4');
    assert!("89ab".contains(id[19]));
    assert_eq!(f.get_socket_path(), format!("/run/firecracker-{}.socket", f.id));
    let g = FirecrackerAsync::from_config(&c).unwrap();
    assert_ne!(f.id, g.id);
}

#[test]
fn bare_firecracker_keeps_the_redirections() {
    let mut c = HypervisorConfig::default();
    c.id = Some("abc".to_string());
    c.frck_bin = Some("/usr/bin/firecracker".to_string());
    c.lock_path = Some("/tmp/fc.lock".to_string());
    c.log_path = Some("/tmp/fc.log".to_string());
    c.metrics_path = Some("/tmp/fc.metrics".to_string());
    c.stdout_to = Some("/tmp/fc.out".to_string());
    let f = FirecrackerAsync::from_config(&c).unwrap();
    assert_eq!(f.stdout_to, Some("/tmp/fc.out".to_string()));
    assert_eq!(f.stderr_to, None);
}
