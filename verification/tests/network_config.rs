use rustcracker::network::{
    CNIConfiguration, IPConfiguration, IpAddr, Ipv4Addr, KernelArgs, StaticNetworkConfiguration,
    UniNetworkInterface, UniNetworkInterfaceError, UniNetworkInterfaces,
};

fn cni(name: Option<&str>, config: Option<()>) -> CNIConfiguration {
    CNIConfiguration {
        network_name: name.map(|s| s.to_string()),
        network_config: config,
        if_name: None,
        vm_if_name: None,
        args: None,
        bin_path: None,
        conf_dir: None,
        cache_dir: None,
        container_id: "vm1".to_string(),
        net_ns_path: None,
        force: false,
    }
}

fn ip_config(nameservers: Vec<&str>) -> IPConfiguration {
    IPConfiguration {
        ip_addr: Ipv4Addr { a: 10, b: 0, c: 0, d: 2 },
        ip_mask: Ipv4Addr { a: 255, b: 255, c: 255, d: 0 },
        gateway: IpAddr::V4(Ipv4Addr { a: 10, b: 0, c: 0, d: 1 }),
        nameservers: nameservers.into_iter().map(|s| s.to_string()).collect(),
        if_name: "eth0".to_string(),
    }
}

fn message(e: UniNetworkInterfaceError) -> String {
    match e {
        UniNetworkInterfaceError::Configuration(m) => m,
        UniNetworkInterfaceError::Validation(m) => m,
    }
}

#[test]
fn cni_needs_exactly_one_network() {
    assert!(cni(Some("fcnet"), None).validate().is_ok());
    assert!(cni(None, Some(())).validate().is_ok());
    assert_eq!(
        message(cni(None, None).validate().unwrap_err()),
        "must specify either network_name or network_config in CNIConfiguration"
    );
    assert_eq!(
        message(cni(Some("fcnet"), Some(())).validate().unwrap_err()),
        "must not specify both network_name and network_config in CNIConfiguration"
    );
}

#[test]
fn cni_defaults_fill_unset_directories() {
    let mut c = cni(Some("fcnet"), None);
    c.conf_dir = Some("/my/conf".to_string());
    c.set_defaults();
    assert_eq!(c.bin_path, Some("/opt/bin/CNI".to_string()));
    assert_eq!(c.conf_dir, Some("/my/conf".to_string()));
    assert_eq!(c.cache_dir, Some("/var/lib/cni/vm1".to_string()));
}

#[test]
fn ip_boot_parameter() {
    assert_eq!(
        ip_config(vec!["8.8.8.8", "1.1.1.1"]).ip_boot_param(),
        "10.0.0.2::10.0.0.1:255.255.255.0::eth0:off:8.8.8.8:1.1.1.1:"
    );
    assert_eq!(ip_config(vec![]).ip_boot_param(), "10.0.0.2::10.0.0.1:255.255.255.0::eth0:off:::");
}

#[test]
fn ip_configuration_checks() {
    assert!(ip_config(vec!["a", "b"]).validate().is_ok());
    assert_eq!(
        message(ip_config(vec!["a", "b", "c"]).validate().unwrap_err()),
        "cannot specify more than 2 nameservers"
    );
    let mut v6 = ip_config(vec![]);
    v6.gateway = IpAddr::V6("::1".to_string());
    assert_eq!(
        message(v6.validate().unwrap_err()),
        "invalid ip, only ipv4 address are supported: ::1"
    );
}

fn static_iface(ip: Option<IPConfiguration>) -> UniNetworkInterface {
    UniNetworkInterface {
        static_configuration: Some(StaticNetworkConfiguration {
            mac_address: "AA:FC:00:00:00:01".to_string(),
            host_dev_name: Some("tap0".to_string()),
            ip_configuration: ip,
        }),
        cni_configuration: None,
        allow_mmds: None,
    }
}

#[test]
fn interfaces_checked_against_kernel_args() {
    let one = UniNetworkInterfaces(vec![static_iface(Some(ip_config(vec![])))]);
    assert!(one.validate(KernelArgs(vec![("console".to_string(), Some("ttyS0".to_string()))])).is_ok());
    let e = one
        .validate(KernelArgs(vec![("ip".to_string(), Some("dhcp".to_string()))]))
        .unwrap_err();
    assert!(matches!(e, UniNetworkInterfaceError::Configuration(ref m)
        if m == "CNIConfiguration or IPConfiguration cannot be specified when \"ip=\" provided in kernel boot args, value found: dhcp"));
    let two = UniNetworkInterfaces(vec![static_iface(Some(ip_config(vec![]))), static_iface(None)]);
    assert_eq!(
        message(two.validate(KernelArgs(vec![])).unwrap_err()),
        "cannot specify CNIConfiguration or IPconfiguration when multiple network interfaces are provided"
    );
    let empty = UniNetworkInterfaces(vec![UniNetworkInterface { static_configuration: None, cni_configuration: None, allow_mmds: None }]);
    assert_eq!(
        message(empty.validate(KernelArgs(vec![])).unwrap_err()),
        "must specify at least one of CNIConfiguration or StaticConfiguration"
    );
}

#[test]
fn finding_cni_and_static_ip_interfaces() {
    let ifaces = UniNetworkInterfaces(vec![
        static_iface(None),
        UniNetworkInterface { static_configuration: None, cni_configuration: Some(cni(Some("n"), None)), allow_mmds: None },
        static_iface(Some(ip_config(vec![]))),
    ]);
    assert!(ifaces.cni_interface().unwrap().cni_configuration.is_some());
    assert!(ifaces.static_ip_interface().unwrap().static_configuration.as_ref().unwrap().ip_configuration.is_some());
    let k = KernelArgs(vec![("quiet".to_string(), None)]);
    assert_eq!(k.get(&"quiet".to_string()), Some(None));
    assert_eq!(k.get(&"ip".to_string()), None);
}

#[test]
fn address_texts() {
    assert_eq!(Ipv4Addr { a: 169, b: 254, c: 169, d: 254 }.to_text(), "169.254.169.254");
    assert!(IpAddr::V4(Ipv4Addr { a: 1, b: 2, c: 3, d: 4 }).is_ipv4());
    assert!(!IpAddr::V6("fe80::1".to_string()).is_ipv4());
}

#[test]
fn static_and_cni_together_are_refused() {
    let both = UniNetworkInterfaces(vec![UniNetworkInterface {
        static_configuration: static_iface(None).static_configuration,
        cni_configuration: Some(cni(Some("fcnet"), None)),
        allow_mmds: None,
    }]);
    let e = both.validate(KernelArgs(vec![])).unwrap_err();
    assert!(matches!(e, UniNetworkInterfaceError::Configuration(ref m)
        if m == "cannot specify both CNIConfiguration and StaticConfiguration"));
}

#[test]
fn kernel_args_insert_keeps_keys_unique() {
    let mut k = KernelArgs::new();
    k.insert("console".to_string(), Some("ttyS0".to_string()));
    k.insert("ip".to_string(), Some("dhcp".to_string()));
    k.insert("console".to_string(), None);
    assert_eq!(k.0.len(), 2);
    assert_eq!(k.get(&"console".to_string()), Some(None));
    assert_eq!(k.get(&"ip".to_string()), Some(Some("dhcp".to_string())));
}
