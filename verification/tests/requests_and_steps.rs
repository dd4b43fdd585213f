use rustcracker::client::{ClientRequest, FirecrackerClient};
use rustcracker::error::RtckErrorKind;
use rustcracker::machine::{Drive, MachineConfiguration, NetworkInterface};
use rustcracker::microvm::{mount_source, Balloon, ConfigStep, MicroVMConfig, Vsock};
use rustcracker::pool::{PoolReply, PoolRequest};

#[test]
fn pool_requests_are_framed_per_endpoint() {
    assert_eq!(
        PoolRequest::GetFirecrackerVersion.request_text(),
        "GET /version HTTP/1.1\r\nContent-Type: application/json\r\n\r\n"
    );
    assert_eq!(
        PoolRequest::PutGuestDriveById { drive_id: "rootfs".to_string(), body: "{}".to_string() }.request_text(),
        "PUT /drives/rootfs HTTP/1.1\r\nContent-Type: application/json\r\nContent-Length: 2\r\n\r\n{}"
    );
    assert_eq!(
        PoolRequest::PatchVm("{\"state\":\"Paused\"}".to_string()).request_text(),
        "PATCH /vm HTTP/1.1\r\nContent-Type: application/json\r\nContent-Length: 18\r\n\r\n{\"state\":\"Paused\"}"
    );
    assert!(PoolRequest::DescribeInstance.request_text().starts_with("GET / HTTP/1.1\r\n"));
    assert!(PoolRequest::PutMmdsConfig("{}".to_string()).request_text().starts_with("PUT /mmds/config "));
}

#[test]
fn pool_replies_hand_back_status_or_body() {
    let reply = "HTTP/1.1 200 OK\r\nContent-Type: application/json\r\n\r\n{\"id\":\"vm1\"}".to_string();
    match PoolRequest::DescribeInstance.reply(reply.clone()) {
        PoolReply::Body(b) => assert_eq!(b, "{\"id\":\"vm1\"}"),
        _ => panic!("expected a body"),
    }
    match PoolRequest::PutLogger("{}".to_string()).reply("HTTP/1.1 204 \r\n\r\n".to_string()) {
        PoolReply::Status(c, t) => {
            assert_eq!(c, "204");
            assert_eq!(t, "No Content");
        }
        _ => panic!("expected a status"),
    }
}

#[test]
fn client_requests() {
    assert_eq!(ClientRequest::GetBalloon.method(), "GET");
    assert_eq!(ClientRequest::PutBalloon.method(), "PUT");
    assert_eq!(ClientRequest::PutGuestNetworkInterfaceById("eth0".to_string()).path(), "/network-interfaces/eth0");
    assert_eq!(ClientRequest::CreateSyncAction.path(), "actions");
    assert_eq!(ClientRequest::PutLogger.outcome(true), Err("putLogger".to_string()));
    assert_eq!(ClientRequest::PutLogger.outcome(false), Ok(()));
    assert_eq!(ClientRequest::GetBalloon.outcome(true), Ok(()));
    let c = FirecrackerClient::new("/tmp/fc.sock".to_string(), "/usr/bin/firecracker".to_string());
    assert_eq!(c.get_socket_path(), "/tmp/fc.sock");
    assert_eq!(
        c.launch_command(),
        ("sudo".to_string(), vec!["/usr/bin/firecracker".to_string(), "--api-sock".to_string(), "/tmp/fc.sock".to_string()])
    );
}

fn full_microvm() -> MicroVMConfig {
    let mut m = MicroVMConfig::default();
    m.drives = Some(vec![Drive {
        drive_id: "rootfs".to_string(),
        path_on_host: "/img/rootfs.ext4".to_string(),
        is_root_device: true,
        is_read_only: false,
    }]);
    m.network_interfaces = Some(vec![NetworkInterface { iface_id: "eth0".to_string(), host_dev_name: "tap0".to_string(), guest_mac: None }]);
    m.vsock_devices = Some(vec![Vsock { vsock_id: Some("1".to_string()), guest_cid: 3, uds_path: "/tmp/v.sock".to_string() }]);
    m.machine_config = Some(MachineConfiguration { vcpu_count: 4, mem_size_mib: 256, ht_enabled: Some(false), track_dirty_pages: None });
    m.balloon = Some(Balloon { amount_mib: 64, deflate_on_oom: true, stats_polling_interval_s: None });
    m.init_metadata = Some("Hello there!".to_string());
    m
}

#[test]
fn configure_steps_follow_the_fixed_order() {
    let steps = full_microvm().configure_steps();
    let names: Vec<String> = steps.iter().map(|s| s.failure().message().clone()).collect();
    assert_eq!(
        names,
        vec![
            "fail to configure drive rootfs, rollback",
            "fail to configure network eth0, rollback",
            "fail to configure vsock Some(\"1\"), rollback",
            "fail to configure machine, rollback",
            "fail to configure balloon, rollback",
            "fail to configure initial metadata, rollback",
        ]
    );
    assert!(MicroVMConfig::default().configure_steps().is_empty());
    let e = ConfigStep::Logger.failure();
    assert_eq!(e.kind(), RtckErrorKind::Hypervisor);
    assert_eq!(e.message(), "fail to configure logger, rollback");
    assert_eq!(ConfigStep::Vsock(None).failure().message(), "fail to configure vsock None, rollback");
}

#[test]
fn mount_sources() {
    assert_eq!(
        mount_source(&"/img/kernels/vmlinux".to_string(), "invalid path", "invalid kernel image file path").unwrap(),
        ("/img/kernels".to_string(), "vmlinux".to_string())
    );
    let e = mount_source(&"/".to_string(), "invalid path", "invalid kernel image file path").unwrap_err();
    assert_eq!(e.message(), "invalid path");
    let e = mount_source(&"/img/..".to_string(), "Invalid drive path, got /img/..", "invalid drive file path").unwrap_err();
    assert_eq!(e.kind(), RtckErrorKind::Config);
    assert_eq!(e.message(), "invalid drive file path");
    let e = mount_source(&"/".to_string(), "Invalid kernel image path, got /", "Invalid kernel image path, got /").unwrap_err();
    assert_eq!(e.message(), "Invalid kernel image path, got /");
}
