//! Network interfaces of a microVM: static or CNI configuration, their
//! checks, and the `ip=` kernel boot parameter of a static IP configuration.
use vstd::prelude::*;
use vstd::string::*;
use crate::paths::{join, path_join};
use crate::text::{decimal, push_decimal};

verus! {

/// Errors in the network interface configuration.
#[derive(Debug)]
pub enum UniNetworkInterfaceError {
    Configuration(String),
    Validation(String),
}

/// The variant of a network configuration error.
#[derive(Clone, Copy, Debug, PartialEq, Eq, Structural)]
pub enum NetworkErrorKind {
    Configuration,
    Validation,
}

/// A network error as a variant and the text of its message.
pub open spec fn net_err_view(e: UniNetworkInterfaceError) -> (NetworkErrorKind, Seq<char>) {
    match e {
        UniNetworkInterfaceError::Configuration(m) => (NetworkErrorKind::Configuration, m@),
        UniNetworkInterfaceError::Validation(m) => (NetworkErrorKind::Validation, m@),
    }
}

fn net_error(k: NetworkErrorKind, prefix: &str) -> (e: UniNetworkInterfaceError)
    ensures
        net_err_view(e) == (k, prefix@),
{
    match k {
        NetworkErrorKind::Configuration => UniNetworkInterfaceError::Configuration(String::from_str(prefix)),
        NetworkErrorKind::Validation => UniNetworkInterfaceError::Validation(String::from_str(prefix)),
    }
}

/// The CNI parameters used to make the network namespace and tap device of an
/// interface.
#[derive(Debug)]
pub struct CNIConfiguration {
    /// The network whose configuration is used (this or `network_config`).
    pub network_name: Option<String>,
    /// A parsed network configuration (this or `network_name`).
    pub network_config: Option<()>,
    /// CNI_IFNAME.
    pub if_name: Option<String>,
    /// The interface name in the VM.
    pub vm_if_name: Option<String>,
    /// CNI_ARGS.
    pub args: Option<Vec<(String, String)>>,
    /// Where CNI plugin binaries are sought.
    pub bin_path: Option<String>,
    /// Where CNI configuration files are sought.
    pub conf_dir: Option<String>,
    /// Where CNI results are cached.
    pub cache_dir: Option<String>,
    /// CNI_CONTAINERID, the VM's id.
    pub container_id: String,
    /// The network namespace path.
    pub net_ns_path: Option<String>,
    /// Whether to go on when deleting a pre-existing network fails.
    pub force: bool,
}

/// What `CNIConfiguration::validate` decides: exactly one of the network
/// name and the network configuration must be given.
pub open spec fn cni_valid(c: CNIConfiguration) -> bool {
    c.network_name is Some != c.network_config is Some
}

impl CNIConfiguration {
    /// Exactly one of the network name and the network configuration must be given.
    pub fn validate(&self) -> (r: Result<(), UniNetworkInterfaceError>)
        ensures
            r is Ok <==> cni_valid(*self),
            r matches Err(e) ==> net_err_view(e) == (NetworkErrorKind::Validation, if self.network_name is None {
                "must specify either network_name or network_config in CNIConfiguration"@
            } else {
                "must not specify both network_name and network_config in CNIConfiguration"@
            }),
    {
        if self.network_name.is_none() && self.network_config.is_none() {
            return Err(net_error(NetworkErrorKind::Validation, "must specify either network_name or network_config in CNIConfiguration"));
        }
        if self.network_name.is_some() && self.network_config.is_some() {
            return Err(net_error(NetworkErrorKind::Validation, "must not specify both network_name and network_config in CNIConfiguration"));
        }
        Ok(())
    }

    /// Fills the directories that are not set: plugins in `/opt/bin/CNI`,
    /// configuration in `/etc/cni/conf.d`, cache in `/var/lib/cni/<container id>`.
    pub fn set_defaults(&mut self)
        ensures
            final(self).bin_path matches Some(p) && p@ == match old(self).bin_path {
                Some(q) => q@,
                None => "/opt/bin/CNI"@,
            },
            final(self).conf_dir matches Some(p) && p@ == match old(self).conf_dir {
                Some(q) => q@,
                None => "/etc/cni/conf.d"@,
            },
            final(self).cache_dir matches Some(p) && p@ == match old(self).cache_dir {
                Some(q) => q@,
                None => join("/var/lib/cni"@, old(self).container_id@),
            },
            final(self).network_name == old(self).network_name,
            final(self).network_config == old(self).network_config,
            final(self).if_name == old(self).if_name,
            final(self).vm_if_name == old(self).vm_if_name,
            final(self).args == old(self).args,
            final(self).container_id == old(self).container_id,
            final(self).net_ns_path == old(self).net_ns_path,
            final(self).force == old(self).force,
    {
        if self.bin_path.is_none() {
            self.bin_path = Some(String::from_str("/opt/bin/CNI"));
        }
        if self.conf_dir.is_none() {
            self.conf_dir = Some(String::from_str("/etc/cni/conf.d"));
        }
        if self.cache_dir.is_none() {
            self.cache_dir = Some(path_join("/var/lib/cni", self.container_id.as_str()));
        }
    }
}

/// An IPv4 address.
#[derive(Clone, Copy, Debug, PartialEq, Eq, Structural)]
pub struct Ipv4Addr {
    pub a: u8,
    pub b: u8,
    pub c: u8,
    pub d: u8,
}

/// An IPv4 address, or an IPv6 address held as the text std writes for it.
#[derive(Debug)]
pub enum IpAddr {
    V4(Ipv4Addr),
    V6(String),
}

/// The dotted decimal text of an IPv4 address.
pub open spec fn ipv4_text(a: Ipv4Addr) -> Seq<char> {
    decimal(a.a as nat) + "."@ + decimal(a.b as nat) + "."@ + decimal(a.c as nat) + "."@
        + decimal(a.d as nat)
}

/// The text of an address.
pub open spec fn ip_text(a: IpAddr) -> Seq<char> {
    match a {
        IpAddr::V4(v) => ipv4_text(v),
        IpAddr::V6(s) => s@,
    }
}

impl Ipv4Addr {
    /// The dotted decimal text of the address.
    pub fn to_text(&self) -> (t: String)
        ensures
            t@ == ipv4_text(*self),
    {
        let mut t = String::new();
        push_decimal(&mut t, self.a as u64);
        t.append(".");
        push_decimal(&mut t, self.b as u64);
        t.append(".");
        push_decimal(&mut t, self.c as u64);
        t.append(".");
        push_decimal(&mut t, self.d as u64);
        assert(t@ =~= ipv4_text(*self));
        t
    }
}

impl IpAddr {
    /// Whether this is an IPv4 address.
    pub fn is_ipv4(&self) -> (b: bool)
        ensures
            b == self is V4,
    {
        match self {
            IpAddr::V4(_) => true,
            IpAddr::V6(_) => false,
        }
    }

    /// The text of the address.
    pub fn to_text(&self) -> (t: String)
        ensures
            t@ == ip_text(*self),
    {
        match self {
            IpAddr::V4(v) => v.to_text(),
            IpAddr::V6(s) => s.clone(),
        }
    }
}

/// A static IP, gateway and up to two DNS nameservers configured in the VM at
/// boot.
#[derive(Debug)]
pub struct IPConfiguration {
    pub ip_addr: Ipv4Addr,
    pub ip_mask: Ipv4Addr,
    pub gateway: IpAddr,
    pub nameservers: Vec<String>,
    pub if_name: String,
}

/// The n-th nameserver, or nothing when there are fewer.
pub open spec fn nameserver_at(ns: Seq<String>, i: int) -> Seq<char> {
    if i < ns.len() {
        ns[i]@
    } else {
        Seq::empty()
    }
}

/// The `ip=` boot parameter: client IP, no server, gateway, mask, no host
/// name, device, no autoconfiguration, the first two nameservers, no NTP
/// server, joined by `:`.
pub open spec fn ip_boot_param_text(c: IPConfiguration) -> Seq<char> {
    ipv4_text(c.ip_addr) + ":"@ + ":"@ + ip_text(c.gateway) + ":"@ + ipv4_text(c.ip_mask) + ":"@ + ":"@
        + c.if_name@ + ":"@ + "off"@ + ":"@ + nameserver_at(c.nameservers@, 0) + ":"@
        + nameserver_at(c.nameservers@, 1) + ":"@
}

/// The error of an IP configuration that fails its check.
pub open spec fn ip_config_error(c: IPConfiguration) -> (NetworkErrorKind, Seq<char>) {
    if !(c.gateway is V4) {
        (NetworkErrorKind::Validation, "invalid ip, only ipv4 address are supported: "@ + ip_text(c.gateway))
    } else {
        (NetworkErrorKind::Validation, "cannot specify more than 2 nameservers"@)
    }
}

impl IPConfiguration {
    /// Only an IPv4 gateway and at most two nameservers are accepted.
    pub fn validate(&self) -> (r: Result<(), UniNetworkInterfaceError>)
        ensures
            r is Ok <==> (self.gateway is V4 && self.nameservers@.len() <= 2),
            r matches Err(e) ==> net_err_view(e) == ip_config_error(*self),
    {
        if !self.gateway.is_ipv4() {
            let mut m = String::from_str("invalid ip, only ipv4 address are supported: ");
            let g = self.gateway.to_text();
            m.append(g.as_str());
            return Err(UniNetworkInterfaceError::Validation(m));
        }
        if self.nameservers.len() > 2 {
            return Err(net_error(NetworkErrorKind::Validation, "cannot specify more than 2 nameservers"));
        }
        Ok(())
    }

    /// The argument of `ip=` in the kernel boot parameters for this configuration.
    pub fn ip_boot_param(&self) -> (s: String)
        ensures
            s@ == ip_boot_param_text(*self),
    {
        let mut s = self.ip_addr.to_text();
        s.append(":");
        s.append(":");
        let g = self.gateway.to_text();
        s.append(g.as_str());
        s.append(":");
        let m = self.ip_mask.to_text();
        s.append(m.as_str());
        s.append(":");
        s.append(":");
        s.append(self.if_name.as_str());
        s.append(":");
        s.append("off");
        s.append(":");
        if self.nameservers.len() > 0 {
            s.append(self.nameservers[0].as_str());
        }
        s.append(":");
        if self.nameservers.len() > 1 {
            s.append(self.nameservers[1].as_str());
        }
        s.append(":");
        assert(s@ =~= ip_boot_param_text(*self));
        s
    }
}

/// A static configuration of an interface: the guest MAC address, the host's
/// tap device and an optional IP configuration.
#[derive(Debug)]
pub struct StaticNetworkConfiguration {
    pub mac_address: String,
    pub host_dev_name: Option<String>,
    pub ip_configuration: Option<IPConfiguration>,
}

/// Whether a static configuration passes its check.
pub open spec fn static_valid(c: StaticNetworkConfiguration) -> bool {
    &&& c.host_dev_name matches Some(n) && n@.len() > 0
    &&& c.ip_configuration matches Some(ip) ==> ip.gateway is V4 && ip.nameservers@.len() <= 2
}

/// The error of a static configuration that fails its check.
pub open spec fn static_config_error(c: StaticNetworkConfiguration) -> (NetworkErrorKind, Seq<char>) {
    if !(c.host_dev_name matches Some(n) && n@.len() > 0) {
        (NetworkErrorKind::Validation, "host_dev_name must be provided if StaticNetworkConfiguration is provided"@)
    } else {
        ip_config_error(c.ip_configuration->0)
    }
}

impl StaticNetworkConfiguration {
    /// The tap device must be named; an IP configuration must pass its check.
    pub fn validate(&self) -> (r: Result<(), UniNetworkInterfaceError>)
        ensures
            r is Ok <==> static_valid(*self),
            r matches Err(e) ==> net_err_view(e) == static_config_error(*self),
    {
        let named = match &self.host_dev_name {
            Some(n) => n.as_str().unicode_len() > 0,
            None => false,
        };
        if !named {
            return Err(net_error(NetworkErrorKind::Validation, "host_dev_name must be provided if StaticNetworkConfiguration is provided"));
        }
        if let Some(ip) = &self.ip_configuration {
            return ip.validate();
        }
        Ok(())
    }
}

/// One network interface of a microVM: configured statically or through CNI.
#[derive(Debug)]
pub struct UniNetworkInterface {
    pub static_configuration: Option<StaticNetworkConfiguration>,
    pub cni_configuration: Option<CNIConfiguration>,
    /// Whether the MMDS is available on this interface.
    pub allow_mmds: Option<bool>,
}

/// The network interfaces a VM is configured to use.
#[derive(Debug)]
pub struct UniNetworkInterfaces(pub Vec<UniNetworkInterface>);

/// Kernel boot arguments: each key with its value, if it has one. They
/// stand for a map: a well-formed list holds each key once.
#[derive(Debug)]
pub struct KernelArgs(pub Vec<(String, Option<String>)>);

/// Whether no key occurs twice.
pub open spec fn kernel_keys_unique(args: Seq<(String, Option<String>)>) -> bool {
    forall|i: int, j: int| 0 <= i < j < args.len() ==> #[trigger] args[i].0@ != #[trigger] args[j].0@
}

/// The text view of an optional value.
pub open spec fn opt_text(o: Option<String>) -> Option<Seq<char>> {
    match o {
        Some(v) => Some(v@),
        None => None,
    }
}

/// The value of a kernel argument: `None` when the key is absent, `Some(None)`
/// when it has no value.
pub open spec fn kernel_arg(args: Seq<(String, Option<String>)>, key: Seq<char>) -> Option<Option<Seq<char>>>
    decreases args.len(),
{
    if args.len() == 0 {
        None
    } else if args[0].0@ == key {
        Some(match args[0].1 {
            Some(v) => Some(v@),
            None => None,
        })
    } else {
        kernel_arg(args.drop_first(), key)
    }
}

/// In arguments whose keys are unique, the value found for a key is that
/// of the one pair holding the key.
pub proof fn lemma_kernel_arg_unique(args: Seq<(String, Option<String>)>, i: int)
    requires
        kernel_keys_unique(args),
        0 <= i < args.len(),
    ensures
        kernel_arg(args, args[i].0@) == Some(opt_text(args[i].1)),
    decreases args.len(),
{
    if i > 0 {
        assert(args[0].0@ != args[i].0@);
        let rest = args.drop_first();
        assert(rest[i - 1] == args[i]);
        assert forall|a: int, b: int| 0 <= a < b < rest.len() implies #[trigger] rest[a].0@ != #[trigger] rest[b].0@ by {
            assert(rest[a] == args[a + 1] && rest[b] == args[b + 1]);
        }
        lemma_kernel_arg_unique(rest, i - 1);
    }
}

/// A key absent from the arguments has no value.
pub proof fn lemma_kernel_arg_absent(args: Seq<(String, Option<String>)>, key: Seq<char>)
    requires
        forall|i: int| 0 <= i < args.len() ==> #[trigger] args[i].0@ != key,
    ensures
        kernel_arg(args, key) is None,
    decreases args.len(),
{
    if args.len() > 0 {
        let rest = args.drop_first();
        assert forall|i: int| 0 <= i < rest.len() implies #[trigger] rest[i].0@ != key by {
            assert(rest[i] == args[i + 1]);
        }
        lemma_kernel_arg_absent(rest, key);
    }
}

impl KernelArgs {
    /// Whether each key occurs once.
    pub open spec fn well_formed(&self) -> bool {
        kernel_keys_unique(self.0@)
    }

    /// No arguments.
    pub fn new() -> (k: Self)
        ensures
            k.well_formed(),
            k.0@.len() == 0,
    {
        KernelArgs(Vec::new())
    }

    /// Sets the value of a key, as a map's insert does: the key's pair is
    /// replaced where the key is present, added at the end otherwise. The
    /// other keys keep their values.
    pub fn insert(&mut self, key: String, value: Option<String>)
        requires
            old(self).well_formed(),
        ensures
            final(self).well_formed(),
            kernel_arg(final(self).0@, key@) == Some(opt_text(value)),
            forall|k: Seq<char>| k != key@ ==> kernel_arg(#[trigger] final(self).0@, k) == kernel_arg(old(self).0@, k),
    {
        let ghost before = self.0@;
        let mut i: usize = 0;
        while i < self.0.len() && self.0[i].0 != key
            invariant
                i <= self.0@.len(),
                self.0@ == before,
                forall|j: int| 0 <= j < i ==> #[trigger] self.0@[j].0@ != key@,
            decreases self.0@.len() - i,
        {
            i = i + 1;
        }
        if i < self.0.len() {
            let ghost k0 = self.0@[i as int].0;
            self.0.set(i, (key, value));
            proof {
                assert forall|a: int, b: int| 0 <= a < b < self.0@.len() implies #[trigger] self.0@[a].0@ != #[trigger] self.0@[b].0@ by {
                    assert(self.0@[a].0@ == before[a].0@ && self.0@[b].0@ == before[b].0@ || a == i || b == i);
                    if a == i {
                        assert(before[b].0@ != before[a].0@);
                    } else if b == i {
                        assert(before[a].0@ != before[b].0@);
                    }
                }
                lemma_kernel_arg_unique(self.0@, i as int);
                assert forall|k: Seq<char>| k != key@ implies kernel_arg(#[trigger] self.0@, k) == kernel_arg(before, k) by {
                    if exists|j: int| 0 <= j < before.len() && before[j].0@ == k {
                        let j = choose|j: int| 0 <= j < before.len() && before[j].0@ == k;
                        lemma_kernel_arg_unique(before, j);
                        assert(j != i);
                        assert(self.0@[j] == before[j]);
                        lemma_kernel_arg_unique(self.0@, j);
                    } else {
                        lemma_kernel_arg_absent(before, k);
                        assert forall|j: int| 0 <= j < self.0@.len() implies #[trigger] self.0@[j].0@ != k by {
                            if j != i {
                                assert(self.0@[j] == before[j]);
                            }
                        }
                        lemma_kernel_arg_absent(self.0@, k);
                    }
                }
            }
        } else {
            self.0.push((key, value));
            proof {
                let n = before.len() as int;
                assert forall|a: int, b: int| 0 <= a < b < self.0@.len() implies #[trigger] self.0@[a].0@ != #[trigger] self.0@[b].0@ by {
                    if b < n {
                        assert(self.0@[a] == before[a] && self.0@[b] == before[b]);
                    } else {
                        assert(self.0@[a] == before[a]);
                    }
                }
                lemma_kernel_arg_unique(self.0@, n);
                assert forall|k: Seq<char>| k != key@ implies kernel_arg(#[trigger] self.0@, k) == kernel_arg(before, k) by {
                    if exists|j: int| 0 <= j < before.len() && before[j].0@ == k {
                        let j = choose|j: int| 0 <= j < before.len() && before[j].0@ == k;
                        lemma_kernel_arg_unique(before, j);
                        assert(self.0@[j] == before[j]);
                        lemma_kernel_arg_unique(self.0@, j);
                    } else {
                        lemma_kernel_arg_absent(before, k);
                        assert forall|j: int| 0 <= j < self.0@.len() implies #[trigger] self.0@[j].0@ != k by {
                            if j < n {
                                assert(self.0@[j] == before[j]);
                            }
                        }
                        lemma_kernel_arg_absent(self.0@, k);
                    }
                }
            }
        }
    }

    /// The value of a kernel argument, as `kernel_arg` says.
    pub fn get(&self, key: &String) -> (r: Option<Option<String>>)
        ensures
            match r {
                None => kernel_arg(self.0@, key@) is None,
                Some(None) => kernel_arg(self.0@, key@) == Some(None::<Seq<char>>),
                Some(Some(v)) => kernel_arg(self.0@, key@) == Some(Some(v@)),
            },
    {
        let mut i: usize = 0;
        assert(self.0@.skip(0) =~= self.0@);
        while i < self.0.len()
            invariant
                i <= self.0@.len(),
                kernel_arg(self.0@, key@) == kernel_arg(self.0@.skip(i as int), key@),
            decreases self.0@.len() - i,
        {
            assert(self.0@.skip(i as int).drop_first() =~= self.0@.skip(i + 1));
            if self.0[i].0 == *key {
                return Some(self.0[i].1.clone());
            }
            i = i + 1;
        }
        None
    }
}

/// The error of one interface, among `n` interfaces, under kernel argument
/// `ip` (`None` when it passes): at least one of CNI and static configuration,
/// and not both; CNI or a static IP only for a single interface and without `ip=` in the
/// kernel arguments; then the CNI and static configurations' own checks.
pub open spec fn iface_error(i: UniNetworkInterface, n: nat, ip_arg: Option<Option<Seq<char>>>) -> Option<(NetworkErrorKind, Seq<char>)> {
    let has_cni = i.cni_configuration is Some;
    let has_static = i.static_configuration is Some;
    let has_static_ip = has_static && i.static_configuration->0.ip_configuration is Some;
    if !has_cni && !has_static {
        Some((NetworkErrorKind::Configuration, "must specify at least one of CNIConfiguration or StaticConfiguration"@))
    } else if has_cni && has_static {
        Some((NetworkErrorKind::Configuration, "cannot specify both CNIConfiguration and StaticConfiguration"@))
    } else if (has_cni || has_static_ip) && n > 1 {
        Some((NetworkErrorKind::Configuration, "cannot specify CNIConfiguration or IPconfiguration when multiple network interfaces are provided"@))
    } else if (has_cni || has_static_ip) && ip_arg matches Some(Some(v)) {
        Some((NetworkErrorKind::Configuration, "CNIConfiguration or IPConfiguration cannot be specified when \"ip=\" provided in kernel boot args, value found: "@ + ip_arg->0->0))
    } else if has_cni && !cni_valid(i.cni_configuration->0) {
        Some((NetworkErrorKind::Validation, if i.cni_configuration->0.network_name is None {
            "must specify either network_name or network_config in CNIConfiguration"@
        } else {
            "must not specify both network_name and network_config in CNIConfiguration"@
        }))
    } else if has_static && !static_valid(i.static_configuration->0) {
        Some(static_config_error(i.static_configuration->0))
    } else {
        None
    }
}

/// The first error among the interfaces, in order.
pub open spec fn ifaces_error(s: Seq<UniNetworkInterface>, n: nat, ip_arg: Option<Option<Seq<char>>>) -> Option<(NetworkErrorKind, Seq<char>)>
    decreases s.len(),
{
    if s.len() == 0 {
        None
    } else {
        match iface_error(s[0], n, ip_arg) {
            Some(e) => Some(e),
            None => ifaces_error(s.drop_first(), n, ip_arg),
        }
    }
}

/// The position of the first interface with a CNI configuration.
pub open spec fn first_cni(s: Seq<UniNetworkInterface>) -> Option<int>
    decreases s.len(),
{
    if s.len() == 0 {
        None
    } else if s[0].cni_configuration is Some {
        Some(0)
    } else {
        match first_cni(s.drop_first()) {
            Some(i) => Some(i + 1),
            None => None,
        }
    }
}

/// The position of the first interface with a static IP configuration.
pub open spec fn first_static_ip(s: Seq<UniNetworkInterface>) -> Option<int>
    decreases s.len(),
{
    if s.len() == 0 {
        None
    } else if s[0].static_configuration matches Some(c) && c.ip_configuration is Some {
        Some(0)
    } else {
        match first_static_ip(s.drop_first()) {
            Some(i) => Some(i + 1),
            None => None,
        }
    }
}

fn iface_check(i: &UniNetworkInterface, n: usize, ip_arg: &Option<Option<String>>) -> (r: Result<(), UniNetworkInterfaceError>)
    ensures
        match iface_error(*i, n as nat, match *ip_arg {
            None => None,
            Some(None) => Some(None),
            Some(Some(v)) => Some(Some(v@)),
        }) {
            None => r is Ok,
            Some(e) => r matches Err(x) && net_err_view(x) == e,
        },
{
    let has_cni = i.cni_configuration.is_some();
    let has_static = i.static_configuration.is_some();
    let has_static_ip = match &i.static_configuration {
        Some(c) => c.ip_configuration.is_some(),
        None => false,
    };
    if !has_cni && !has_static {
        return Err(net_error(NetworkErrorKind::Configuration, "must specify at least one of CNIConfiguration or StaticConfiguration"));
    }
    if has_cni && has_static {
        return Err(net_error(NetworkErrorKind::Configuration, "cannot specify both CNIConfiguration and StaticConfiguration"));
    }
    if has_cni || has_static_ip {
        if n > 1 {
            return Err(net_error(NetworkErrorKind::Configuration, "cannot specify CNIConfiguration or IPconfiguration when multiple network interfaces are provided"));
        }
        if let Some(Some(v)) = ip_arg {
            let mut m = String::from_str("CNIConfiguration or IPConfiguration cannot be specified when \"ip=\" provided in kernel boot args, value found: ");
            m.append(v.as_str());
            return Err(UniNetworkInterfaceError::Configuration(m));
        }
    }
    if let Some(c) = &i.cni_configuration {
        let r = c.validate();
        if r.is_err() {
            return r;
        }
    }
    if let Some(c) = &i.static_configuration {
        let r = c.validate();
        if r.is_err() {
            return r;
        }
    }
    Ok(())
}

impl UniNetworkInterfaces {
    /// Checks every interface in order against the kernel arguments and
    /// returns the first error.
    pub fn validate(&self, kernel_args: KernelArgs) -> (r: Result<(), UniNetworkInterfaceError>)
        ensures
            match ifaces_error(self.0@, self.0@.len(), kernel_arg(kernel_args.0@, "ip"@)) {
                None => r is Ok,
                Some(e) => r matches Err(x) && net_err_view(x) == e,
            },
    {
        let key = String::from_str("ip");
        let ip_arg = kernel_args.get(&key);
        let n = self.0.len();
        let ghost ka = kernel_arg(kernel_args.0@, "ip"@);
        let mut i: usize = 0;
        assert(self.0@.skip(0) =~= self.0@);
        while i < n
            invariant
                i <= n == self.0@.len(),
                ka == kernel_arg(kernel_args.0@, "ip"@),
                ka == match ip_arg {
                    None => None,
                    Some(None) => Some(None),
                    Some(Some(v)) => Some(Some(v@)),
                },
                ifaces_error(self.0@, n as nat, ka) == ifaces_error(self.0@.skip(i as int), n as nat, ka),
            decreases n - i,
        {
            assert(self.0@.skip(i as int).drop_first() =~= self.0@.skip(i + 1));
            assert(self.0@.skip(i as int)[0] == self.0@[i as int]);
            let r = iface_check(&self.0[i], n, &ip_arg);
            if r.is_err() {
                assert(iface_error(self.0@[i as int], n as nat, ka) is Some);
                assert(ifaces_error(self.0@.skip(i as int), n as nat, ka) == iface_error(self.0@[i as int], n as nat, ka));
                return r;
            }
            i = i + 1;
        }
        Ok(())
    }

    /// The first interface with a CNI configuration, if any.
    pub fn cni_interface(&self) -> (r: Option<&UniNetworkInterface>)
        ensures
            match first_cni(self.0@) {
                Some(i) => r matches Some(x) && *x == self.0@[i],
                None => r is None,
            },
    {
        let mut i: usize = 0;
        assert(self.0@.skip(0) =~= self.0@);
        while i < self.0.len()
            invariant
                i <= self.0@.len(),
                first_cni(self.0@) == match first_cni(self.0@.skip(i as int)) {
                    Some(k) => Some(k + i),
                    None => None,
                },
            decreases self.0@.len() - i,
        {
            assert(self.0@.skip(i as int).drop_first() =~= self.0@.skip(i + 1));
            if self.0[i].cni_configuration.is_some() {
                return Some(&self.0[i]);
            }
            i = i + 1;
        }
        None
    }

    /// The first interface with a static IP configuration, if any.
    pub fn static_ip_interface(&self) -> (r: Option<&UniNetworkInterface>)
        ensures
            match first_static_ip(self.0@) {
                Some(i) => r matches Some(x) && *x == self.0@[i],
                None => r is None,
            },
    {
        let mut i: usize = 0;
        assert(self.0@.skip(0) =~= self.0@);
        while i < self.0.len()
            invariant
                i <= self.0@.len(),
                first_static_ip(self.0@) == match first_static_ip(self.0@.skip(i as int)) {
                    Some(k) => Some(k + i),
                    None => None,
                },
            decreases self.0@.len() - i,
        {
            assert(self.0@.skip(i as int).drop_first() =~= self.0@.skip(i + 1));
            let found = match &self.0[i].static_configuration {
                Some(c) => c.ip_configuration.is_some(),
                None => false,
            };
            if found {
                return Some(&self.0[i]);
            }
            i = i + 1;
        }
        None
    }
}

} // verus!
