//! The configuration of a microVM, its check, and the order in which its
//! parts are put to Firecracker when the microVM is started.
use vstd::prelude::*;
use vstd::string::*;
use crate::config::{path_debug, probe, FsView, Outcome, PathStatus, debug_path, outcome_of};
use crate::error::{err_view, RtckError, RtckErrorKind};
use crate::machine::{Drive, MachineConfiguration, NetworkInterface};
use crate::network::Ipv4Addr;
use crate::paths::{file_name, join, parent, path_file_name, path_join, path_parent};

verus! {

/// Firecracker's logger settings.
#[derive(Debug)]
pub struct Logger {
    /// Where Firecracker writes its log, as Firecracker sees it.
    pub log_path: String,
    pub level: Option<String>,
    pub show_level: Option<bool>,
    pub show_log_origin: Option<bool>,
    pub module: Option<String>,
}

/// Firecracker's metrics settings.
#[derive(Debug)]
pub struct Metrics {
    /// Where Firecracker writes its metrics, as Firecracker sees it.
    pub metrics_path: String,
}

/// What the guest boots.
#[derive(Debug)]
pub struct BootSource {
    pub kernel_image_path: String,
    pub boot_args: Option<String>,
    pub initrd_path: Option<String>,
}

/// A vsock device.
#[derive(Debug)]
pub struct Vsock {
    pub vsock_id: Option<String>,
    pub guest_cid: u32,
    pub uds_path: String,
}

/// A balloon device.
#[derive(Debug)]
pub struct Balloon {
    pub amount_mib: i64,
    pub deflate_on_oom: bool,
    pub stats_polling_interval_s: Option<i64>,
}

/// A CPU template, held as the JSON body it is put to Firecracker with.
#[derive(Debug)]
pub struct CpuConfig {
    pub json: String,
}

/// An entropy device, held as the JSON body it is put to Firecracker with.
#[derive(Debug)]
pub struct EntropyDevice {
    pub json: String,
}

/// The configuration of a microVM.
#[derive(Debug)]
pub struct MicroVMConfig {
    pub logger: Option<Logger>,
    pub metrics: Option<Metrics>,
    /// Kernel image, initrd image (optional) and kernel arguments.
    pub boot_source: Option<BootSource>,
    pub drives: Option<Vec<Drive>>,
    pub network_interfaces: Option<Vec<NetworkInterface>>,
    pub vsock_devices: Option<Vec<Vsock>>,
    pub cpu_config: Option<CpuConfig>,
    pub machine_config: Option<MachineConfiguration>,
    /// The VM's id.
    pub vmid: Option<String>,
    /// The network namespace to join.
    pub net_ns: Option<String>,
    /// The IPv4 address guests reach the metadata service at.
    pub mmds_address: Option<Ipv4Addr>,
    pub balloon: Option<Balloon>,
    pub entropy_device: Option<EntropyDevice>,
    /// The initial content of the metadata service.
    pub init_metadata: Option<String>,
}

impl Default for MicroVMConfig {
    /// A configuration with nothing set.
    fn default() -> (c: Self)
        ensures
            c.logger is None && c.metrics is None && c.boot_source is None && c.drives is None
                && c.network_interfaces is None && c.vsock_devices is None && c.cpu_config is None
                && c.machine_config is None && c.vmid is None && c.net_ns is None
                && c.mmds_address is None && c.balloon is None && c.entropy_device is None
                && c.init_metadata is None,
    {
        MicroVMConfig {
            logger: None,
            metrics: None,
            boot_source: None,
            drives: None,
            network_interfaces: None,
            vsock_devices: None,
            cpu_config: None,
            machine_config: None,
            vmid: None,
            net_ns: None,
            mmds_address: None,
            balloon: None,
            entropy_device: None,
            init_metadata: None,
        }
    }
}

/// What `MicroVMConfig::validate` decides: the log and metrics paths, where
/// given, must not exist yet; the kernel image, where a boot source is
/// given, must be an existing regular file.
pub open spec fn microvm_config_outcome(c: MicroVMConfig, fs: Seq<PathStatus>) -> Outcome {
    if c.logger matches Some(l) && probe(fs, l.log_path@).0 {
        Err((RtckErrorKind::Config, "Logger path occupied"@))
    } else if c.metrics matches Some(m) && probe(fs, m.metrics_path@).0 {
        Err((RtckErrorKind::Config, "Metrics path occupied"@))
    } else if c.boot_source matches Some(b) && (!probe(fs, b.kernel_image_path@).0 || !probe(fs, b.kernel_image_path@).1) {
        Err((RtckErrorKind::Config, "Kernel image file not found at "@ + path_debug(c.boot_source->0.kernel_image_path@)))
    } else {
        Ok(())
    }
}

impl MicroVMConfig {
    /// The paths whose status `validate` may consult.
    pub open spec fn consulted_paths(self) -> Seq<Seq<char>> {
        (match self.logger { Some(l) => seq![l.log_path@], None => Seq::empty() })
            + (match self.metrics { Some(m) => seq![m.metrics_path@], None => Seq::empty() })
            + (match self.boot_source { Some(b) => seq![b.kernel_image_path@], None => Seq::empty() })
    }

    /// Checks the microVM configuration against the looked-up file system.
    pub fn validate(&self, fs: &FsView) -> (r: Result<(), RtckError>)
        ensures
            outcome_of(r) == microvm_config_outcome(*self, fs.entries@),
    {
        if let Some(l) = &self.logger {
            let (present, _) = fs.status(&l.log_path);
            if present {
                return Err(RtckError::Config(String::from_str("Logger path occupied")));
            }
        }
        if let Some(m) = &self.metrics {
            let (present, _) = fs.status(&m.metrics_path);
            if present {
                return Err(RtckError::Config(String::from_str("Metrics path occupied")));
            }
        }
        if let Some(b) = &self.boot_source {
            let (present, is_file) = fs.status(&b.kernel_image_path);
            if !present || !is_file {
                let mut m = String::from_str("Kernel image file not found at ");
                let d = debug_path(b.kernel_image_path.as_str());
                m.append(d.as_str());
                return Err(RtckError::Config(m));
            }
        }
        Ok(())
    }
}

/// A part of the microVM's configuration as it is put to Firecracker.
#[derive(Debug)]
pub enum ConfigStep {
    Logger,
    Metrics,
    BootSource,
    /// A drive, by its id.
    Drive(String),
    /// A network interface, by its id.
    NetworkInterface(String),
    /// A vsock device, by its (optional) id.
    Vsock(Option<String>),
    Cpu,
    Machine,
    Balloon,
    Entropy,
    InitMetadata,
}

/// The steps of a list of drives.
pub open spec fn drive_steps(ds: Seq<Drive>) -> Seq<ConfigStep> {
    ds.map_values(|d: Drive| ConfigStep::Drive(d.drive_id))
}

/// The steps of a list of network interfaces.
pub open spec fn iface_steps(ns: Seq<NetworkInterface>) -> Seq<ConfigStep> {
    ns.map_values(|n: NetworkInterface| ConfigStep::NetworkInterface(n.iface_id))
}

/// The steps of a list of vsock devices.
pub open spec fn vsock_steps(vs: Seq<Vsock>) -> Seq<ConfigStep> {
    vs.map_values(|v: Vsock| ConfigStep::Vsock(v.vsock_id))
}

/// One step when a part is present.
pub open spec fn step_if(present: bool, s: ConfigStep) -> Seq<ConfigStep> {
    if present { seq![s] } else { Seq::empty() }
}

/// The order in which the parts of a configuration are put: logger,
/// metrics, boot source, each drive, each network interface, each vsock
/// device, CPU template, machine configuration, balloon, entropy device and
/// initial metadata, each where it is given.
pub open spec fn config_steps(c: MicroVMConfig) -> Seq<ConfigStep> {
    step_if(c.logger is Some, ConfigStep::Logger)
        + step_if(c.metrics is Some, ConfigStep::Metrics)
        + step_if(c.boot_source is Some, ConfigStep::BootSource)
        + (match c.drives { Some(ds) => drive_steps(ds@), None => Seq::empty() })
        + (match c.network_interfaces { Some(ns) => iface_steps(ns@), None => Seq::empty() })
        + (match c.vsock_devices { Some(vs) => vsock_steps(vs@), None => Seq::empty() })
        + step_if(c.cpu_config is Some, ConfigStep::Cpu)
        + step_if(c.machine_config is Some, ConfigStep::Machine)
        + step_if(c.balloon is Some, ConfigStep::Balloon)
        + step_if(c.entropy_device is Some, ConfigStep::Entropy)
        + step_if(c.init_metadata is Some, ConfigStep::InitMetadata)
}

fn push_step(v: &mut Vec<ConfigStep>, present: bool, s: ConfigStep)
    ensures
        final(v)@ == old(v)@ + step_if(present, s),
{
    if present {
        v.push(s);
    } else {
        assert(old(v)@ + step_if(present, s) =~= old(v)@);
    }
}

fn push_drive_steps(v: &mut Vec<ConfigStep>, o: &Option<Vec<Drive>>)
    ensures
        final(v)@ == old(v)@ + match *o { Some(ds) => drive_steps(ds@), None => Seq::empty() },
{
    let ghost before = v@;
    if let Some(ds) = o {
        let mut i: usize = 0;
        while i < ds.len()
            invariant
                i <= ds@.len(),
                v@ == before + drive_steps(ds@.take(i as int)),
            decreases ds@.len() - i,
        {
            v.push(ConfigStep::Drive(ds[i].drive_id.clone()));
            assert(drive_steps(ds@.take(i + 1)) =~= drive_steps(ds@.take(i as int)).push(ConfigStep::Drive(ds@[i as int].drive_id)));
            i = i + 1;
        }
        assert(ds@.take(ds@.len() as int) =~= ds@);
    } else {
        assert(v@ =~= before + Seq::<ConfigStep>::empty());
    }
}

fn push_iface_steps(v: &mut Vec<ConfigStep>, o: &Option<Vec<NetworkInterface>>)
    ensures
        final(v)@ == old(v)@ + match *o { Some(ns) => iface_steps(ns@), None => Seq::empty() },
{
    let ghost before = v@;
    if let Some(ns) = o {
        let mut i: usize = 0;
        while i < ns.len()
            invariant
                i <= ns@.len(),
                v@ == before + iface_steps(ns@.take(i as int)),
            decreases ns@.len() - i,
        {
            v.push(ConfigStep::NetworkInterface(ns[i].iface_id.clone()));
            assert(iface_steps(ns@.take(i + 1)) =~= iface_steps(ns@.take(i as int)).push(ConfigStep::NetworkInterface(ns@[i as int].iface_id)));
            i = i + 1;
        }
        assert(ns@.take(ns@.len() as int) =~= ns@);
    } else {
        assert(v@ =~= before + Seq::<ConfigStep>::empty());
    }
}

fn push_vsock_steps(v: &mut Vec<ConfigStep>, o: &Option<Vec<Vsock>>)
    ensures
        final(v)@ == old(v)@ + match *o { Some(vs) => vsock_steps(vs@), None => Seq::empty() },
{
    let ghost before = v@;
    if let Some(vs) = o {
        let mut i: usize = 0;
        while i < vs.len()
            invariant
                i <= vs@.len(),
                v@ == before + vsock_steps(vs@.take(i as int)),
            decreases vs@.len() - i,
        {
            let id = match &vs[i].vsock_id {
                Some(s) => Some(s.clone()),
                None => None,
            };
            v.push(ConfigStep::Vsock(id));
            assert(vsock_steps(vs@.take(i + 1)) =~= vsock_steps(vs@.take(i as int)).push(ConfigStep::Vsock(vs@[i as int].vsock_id)));
            i = i + 1;
        }
        assert(vs@.take(vs@.len() as int) =~= vs@);
    } else {
        assert(v@ =~= before + Seq::<ConfigStep>::empty());
    }
}

impl MicroVMConfig {
    /// The parts of the configuration to put to Firecracker, in order.
    pub fn configure_steps(&self) -> (v: Vec<ConfigStep>)
        ensures
            v@ == config_steps(*self),
    {
        let mut v: Vec<ConfigStep> = Vec::new();
        push_step(&mut v, self.logger.is_some(), ConfigStep::Logger);
        push_step(&mut v, self.metrics.is_some(), ConfigStep::Metrics);
        push_step(&mut v, self.boot_source.is_some(), ConfigStep::BootSource);
        push_drive_steps(&mut v, &self.drives);
        push_iface_steps(&mut v, &self.network_interfaces);
        push_vsock_steps(&mut v, &self.vsock_devices);
        push_step(&mut v, self.cpu_config.is_some(), ConfigStep::Cpu);
        push_step(&mut v, self.machine_config.is_some(), ConfigStep::Machine);
        push_step(&mut v, self.balloon.is_some(), ConfigStep::Balloon);
        push_step(&mut v, self.entropy_device.is_some(), ConfigStep::Entropy);
        push_step(&mut v, self.init_metadata.is_some(), ConfigStep::InitMetadata);
        assert(v@ =~= config_steps(*self));
        v
    }
}

/// `{:?}` of an optional text.
pub uninterp spec fn opt_text_debug(o: Option<Seq<char>>) -> Seq<char>;

/// Formats an optional text with `{:?}`. Claims that the result is that
/// function of the value alone.
#[verifier::external_body]
fn debug_opt_text(o: &Option<String>) -> (s: String)
    ensures
        s@ == opt_text_debug(match o {
            Some(t) => Some(t@),
            None => None,
        }),
{
    format!("{:?}", o)
}

/// The message given when Firecracker refuses a step.
pub open spec fn step_failure_text(s: ConfigStep) -> Seq<char> {
    match s {
        ConfigStep::Logger => "fail to configure logger, rollback"@,
        ConfigStep::Metrics => "fail to configure metrics, rollback"@,
        ConfigStep::BootSource => "fail to configure boot source, rollback"@,
        ConfigStep::Drive(id) => "fail to configure drive "@ + id@ + ", rollback"@,
        ConfigStep::NetworkInterface(id) => "fail to configure network "@ + id@ + ", rollback"@,
        ConfigStep::Vsock(id) => "fail to configure vsock "@ + opt_text_debug(match id {
            Some(t) => Some(t@),
            None => None,
        }) + ", rollback"@,
        ConfigStep::Cpu => "fail to configure CPU, rollback"@,
        ConfigStep::Machine => "fail to configure machine, rollback"@,
        ConfigStep::Balloon => "fail to configure balloon, rollback"@,
        ConfigStep::Entropy => "fail to configure entropy device, rollback"@,
        ConfigStep::InitMetadata => "fail to configure initial metadata, rollback"@,
    }
}

fn framed(prefix: &str, middle: &str) -> (s: String)
    ensures
        s@ == prefix@ + middle@ + ", rollback"@,
{
    let mut m = String::from_str(prefix);
    m.append(middle);
    m.append(", rollback");
    m
}

impl ConfigStep {
    /// The hypervisor error given when Firecracker refuses this step.
    pub fn failure(&self) -> (e: RtckError)
        ensures
            err_view(e) == (RtckErrorKind::Hypervisor, step_failure_text(*self)),
    {
        let m = match self {
            ConfigStep::Logger => String::from_str("fail to configure logger, rollback"),
            ConfigStep::Metrics => String::from_str("fail to configure metrics, rollback"),
            ConfigStep::BootSource => String::from_str("fail to configure boot source, rollback"),
            ConfigStep::Drive(id) => framed("fail to configure drive ", id.as_str()),
            ConfigStep::NetworkInterface(id) => framed("fail to configure network ", id.as_str()),
            ConfigStep::Vsock(id) => {
                let d = debug_opt_text(id);
                framed("fail to configure vsock ", d.as_str())
            },
            ConfigStep::Cpu => String::from_str("fail to configure CPU, rollback"),
            ConfigStep::Machine => String::from_str("fail to configure machine, rollback"),
            ConfigStep::Balloon => String::from_str("fail to configure balloon, rollback"),
            ConfigStep::Entropy => String::from_str("fail to configure entropy device, rollback"),
            ConfigStep::InitMetadata => String::from_str("fail to configure initial metadata, rollback"),
        };
        RtckError::Hypervisor(m)
    }
}

/// Where a file bind-mounted into the jail comes from: the directory of its
/// canonical path, and its file name. The directory is mounted; the file is
/// then reached through the mount point. A path without a directory gives
/// `parent_error`, one without a file name `name_error`.
pub fn mount_source(canonical: &String, parent_error: &str, name_error: &str) -> (r: Result<(String, String), RtckError>)
    ensures
        match path_parent(canonical@) {
            None => r matches Err(e) && err_view(e) == (RtckErrorKind::Config, parent_error@),
            Some(d) => match path_file_name(canonical@) {
                None => r matches Err(e) && err_view(e) == (RtckErrorKind::Config, name_error@),
                Some(n) => r matches Ok((sd, sn)) && sd@ == d && sn@ == n,
            },
        },
{
    let dir = match parent(canonical.as_str()) {
        None => {
            return Err(RtckError::Config(String::from_str(parent_error)));
        },
        Some(d) => d,
    };
    match file_name(canonical.as_str()) {
        None => Err(RtckError::Config(String::from_str(name_error))),
        Some(n) => Ok((dir, n)),
    }
}

/// The boot source as Firecracker sees it inside the jail once the kernel's
/// directory is mounted at `kernel` and the initrd's at `initrd`: the kernel
/// image at `/kernel/<kernel file>`, the initrd image (where there is one)
/// at `initrd/<initrd file>`, the boot arguments unchanged.
pub fn jailed_boot_source(b: &BootSource, kernel_file: &String, initrd_file: &Option<String>) -> (r: BootSource)
    ensures
        r.kernel_image_path@ == join("/kernel"@, kernel_file@),
        r.boot_args == b.boot_args,
        match (b.initrd_path, *initrd_file) {
            (Some(_), Some(f)) => r.initrd_path matches Some(p) && p@ == join("initrd"@, f@),
            _ => r.initrd_path == b.initrd_path,
        },
{
    let initrd_path = match (&b.initrd_path, initrd_file) {
        (Some(_), Some(f)) => Some(path_join("initrd", f.as_str())),
        (Some(p), None) => Some(p.clone()),
        (None, _) => None,
    };
    BootSource {
        kernel_image_path: path_join("/kernel", kernel_file.as_str()),
        boot_args: match &b.boot_args {
            Some(a) => Some(a.clone()),
            None => None,
        },
        initrd_path,
    }
}

/// The directory a drive's file is mounted at inside the jail:
/// `drives<id>`.
pub open spec fn drive_dir_name(id: Seq<char>) -> Seq<char> {
    "drives"@ + id
}

/// A drive as Firecracker sees it inside the jail once its file's directory
/// is mounted at `<workspace>/drives<id>`: backed by `/drives<id>/<file>`,
/// all else unchanged. Also gives the mount point under the workspace.
pub fn jailed_drive(d: &Drive, workspace: &String, drive_file: &String) -> (r: (String, Drive))
    ensures
        r.0@ == join(workspace@, drive_dir_name(d.drive_id@)),
        r.1 == (Drive { path_on_host: r.1.path_on_host, ..*d }),
        r.1.path_on_host@ == join("/drives"@ + d.drive_id@, drive_file@),
{
    let mut dir = String::from_str("drives");
    dir.append(d.drive_id.as_str());
    let mount_point = path_join(workspace.as_str(), dir.as_str());
    let mut jailed = String::from_str("/drives");
    jailed.append(d.drive_id.as_str());
    let path = path_join(jailed.as_str(), drive_file.as_str());
    (mount_point, d.with_path(path))
}

/// The synchronous hypervisor's boot-source step requires a boot source:
/// without one it is a configuration error.
pub fn require_boot_source(b: &Option<BootSource>) -> (r: Result<(), RtckError>)
    ensures
        b is Some ==> r is Ok,
        b is None ==> (r matches Err(e)
            && err_view(e) == (RtckErrorKind::Config, "Must specify BootSource config in MicroVMConfig passed in"@)),
{
    match b {
        Some(_) => Ok(()),
        None => Err(RtckError::Config(String::from_str("Must specify BootSource config in MicroVMConfig passed in"))),
    }
}

/// Whether a step puts a part that comes after the boot source: a drive, a
/// network interface, a vsock device, the CPU template, the machine
/// configuration, the balloon, the entropy device or the initial metadata.
pub open spec fn after_boot_source(s: ConfigStep) -> bool {
    !(s is Logger || s is Metrics || s is BootSource)
}

/// Appending steps that all come after the boot source keeps a sequence's
/// first `k` steps and keeps everything from `k` on after the boot source.
proof fn lemma_append_after(a: Seq<ConfigStep>, b: Seq<ConfigStep>, k: int)
    requires
        0 <= k <= a.len(),
        forall|i: int| k <= i < a.len() ==> after_boot_source(#[trigger] a[i]),
        forall|i: int| 0 <= i < b.len() ==> after_boot_source(#[trigger] b[i]),
    ensures
        forall|i: int| k <= i < (a + b).len() ==> after_boot_source(#[trigger] (a + b)[i]),
        forall|i: int| 0 <= i < k ==> (#[trigger] (a + b)[i]) == a[i],
{
    assert forall|i: int| k <= i < (a + b).len() implies after_boot_source(#[trigger] (a + b)[i]) by {
        if i >= a.len() {
            assert((a + b)[i] == b[i - a.len()]);
        }
    }
}

/// The logger, metrics and boot-source steps, where given.
spec fn opening_steps(c: MicroVMConfig) -> Seq<ConfigStep> {
    let logger_and_metrics = step_if(c.logger is Some, ConfigStep::Logger) + step_if(c.metrics is Some, ConfigStep::Metrics);
    logger_and_metrics + step_if(c.boot_source is Some, ConfigStep::BootSource)
}

/// The opening steps followed by the device steps.
spec fn opening_and_devices(c: MicroVMConfig) -> Seq<ConfigStep> {
    opening_steps(c)
        + (match c.drives { Some(ds) => drive_steps(ds@), None => Seq::empty() })
        + (match c.network_interfaces { Some(ns) => iface_steps(ns@), None => Seq::empty() })
        + (match c.vsock_devices { Some(vs) => vsock_steps(vs@), None => Seq::empty() })
}

proof fn lemma_devices_after_opening(c: MicroVMConfig)
    ensures
        opening_and_devices(c).len() >= opening_steps(c).len(),
        forall|i: int| 0 <= i < opening_steps(c).len() ==> #[trigger] opening_and_devices(c)[i] == opening_steps(c)[i],
        forall|i: int| opening_steps(c).len() <= i < opening_and_devices(c).len()
            ==> after_boot_source(#[trigger] opening_and_devices(c)[i]),
{
    let p = opening_steps(c);
    let k = p.len() as int;
    let d = match c.drives { Some(ds) => drive_steps(ds@), None => Seq::empty() };
    let n = match c.network_interfaces { Some(ns) => iface_steps(ns@), None => Seq::empty() };
    let w = match c.vsock_devices { Some(vs) => vsock_steps(vs@), None => Seq::empty() };
    assert forall|i: int| 0 <= i < d.len() implies after_boot_source(#[trigger] d[i]) by {}
    assert forall|i: int| 0 <= i < n.len() implies after_boot_source(#[trigger] n[i]) by {}
    assert forall|i: int| 0 <= i < w.len() implies after_boot_source(#[trigger] w[i]) by {}
    let s1 = p + d;
    lemma_append_after(p, d, k);
    let s2 = s1 + n;
    lemma_append_after(s1, n, k);
    lemma_append_after(s2, w, k);
    assert forall|i: int| 0 <= i < k implies #[trigger] opening_and_devices(c)[i] == p[i] by {
        assert(s1[i] == p[i]);
        assert(s2[i] == s1[i]);
        assert((s2 + w)[i] == s2[i]);
    }
}

proof fn lemma_steps_after_opening(c: MicroVMConfig)
    ensures
        config_steps(c).len() >= opening_steps(c).len(),
        forall|i: int| 0 <= i < opening_steps(c).len() ==> #[trigger] config_steps(c)[i] == opening_steps(c)[i],
        forall|i: int| opening_steps(c).len() <= i < config_steps(c).len() ==> after_boot_source(#[trigger] config_steps(c)[i]),
{
    lemma_devices_after_opening(c);
    let k = opening_steps(c).len() as int;
    let s3 = opening_and_devices(c);
    let t4 = step_if(c.cpu_config is Some, ConfigStep::Cpu);
    let s4 = s3 + t4;
    lemma_append_after(s3, t4, k);
    let t5 = step_if(c.machine_config is Some, ConfigStep::Machine);
    let s5 = s4 + t5;
    lemma_append_after(s4, t5, k);
    let t6 = step_if(c.balloon is Some, ConfigStep::Balloon);
    let s6 = s5 + t6;
    lemma_append_after(s5, t6, k);
    let t7 = step_if(c.entropy_device is Some, ConfigStep::Entropy);
    let s7 = s6 + t7;
    lemma_append_after(s6, t7, k);
    let t8 = step_if(c.init_metadata is Some, ConfigStep::InitMetadata);
    let v = s7 + t8;
    lemma_append_after(s7, t8, k);
    assert(v == config_steps(c));
    assert forall|i: int| 0 <= i < k implies #[trigger] config_steps(c)[i] == opening_steps(c)[i] by {
        assert(s4[i] == s3[i]);
        assert(s5[i] == s4[i]);
        assert(s6[i] == s5[i]);
        assert(s7[i] == s6[i]);
        assert(v[i] == s7[i]);
    }
}

proof fn lemma_opening_steps(c: MicroVMConfig)
    ensures
        ({
            let p = opening_steps(c);
            let k = (if c.logger is Some { 1int } else { 0int }) + (if c.metrics is Some { 1int } else { 0int });
            &&& p.len() == k + (if c.boot_source is Some { 1int } else { 0int })
            &&& forall|i: int| 0 <= i < k ==> (#[trigger] p[i] is Logger || p[i] is Metrics)
            &&& c.boot_source is Some ==> p[k] is BootSource
        }),
{
    let h = step_if(c.logger is Some, ConfigStep::Logger) + step_if(c.metrics is Some, ConfigStep::Metrics);
    let p = opening_steps(c);
    assert forall|i: int| 0 <= i < h.len() implies (#[trigger] p[i] is Logger || p[i] is Metrics) by {
        assert(p[i] == h[i]);
    }
    if c.boot_source is Some {
        assert(p[h.len() as int] is BootSource);
    }
}

/// The boot source is put exactly when the configuration has one, once,
/// right after the logger and metrics (those given) and before every
/// drive, network interface, vsock device and later part.
pub proof fn lemma_boot_source_step(c: MicroVMConfig)
    ensures
        ({
            let v = config_steps(c);
            let k = (if c.logger is Some { 1int } else { 0int }) + (if c.metrics is Some { 1int } else { 0int });
            &&& c.boot_source is Some ==> k < v.len() && v[k] is BootSource
            &&& forall|i: int| 0 <= i < v.len() && (#[trigger] v[i]) is BootSource ==> c.boot_source is Some && i == k
            &&& forall|i: int| 0 <= i < k ==> (#[trigger] v[i] is Logger || v[i] is Metrics)
            &&& forall|i: int| 0 <= i < v.len() && after_boot_source(#[trigger] v[i]) ==> i >= k + (if c.boot_source is Some { 1int } else { 0int })
        }),
{
    lemma_steps_after_opening(c);
    lemma_opening_steps(c);
    let p = opening_steps(c);
    let v = config_steps(c);
    let k = (if c.logger is Some { 1int } else { 0int }) + (if c.metrics is Some { 1int } else { 0int });
    assert forall|i: int| 0 <= i < v.len() && (#[trigger] v[i]) is BootSource implies c.boot_source is Some && i == k by {
        if i < p.len() {
            assert(v[i] == p[i]);
        }
    }
    assert forall|i: int| 0 <= i < k implies (#[trigger] v[i] is Logger || v[i] is Metrics) by {
        assert(v[i] == p[i]);
    }
    assert forall|i: int| 0 <= i < v.len() && after_boot_source(#[trigger] v[i]) implies i >= p.len() by {
        if i < p.len() {
            assert(v[i] == p[i]);
        }
    }
    if c.boot_source is Some {
        assert(v[k] == p[k]);
    }
}

/// The number of steps of an optional part: one when it is given.
pub open spec fn one_if(b: bool) -> int {
    if b { 1 } else { 0 }
}

proof fn lemma_device_positions(c: MicroVMConfig)
    ensures
        ({
            let o = opening_steps(c);
            let a = opening_and_devices(c);
            let ds: Seq<Drive> = match c.drives { Some(x) => x@, None => Seq::empty() };
            let ns: Seq<NetworkInterface> = match c.network_interfaces { Some(x) => x@, None => Seq::empty() };
            let vs: Seq<Vsock> = match c.vsock_devices { Some(x) => x@, None => Seq::empty() };
            &&& a.len() == o.len() + ds.len() + ns.len() + vs.len()
            &&& forall|i: int| 0 <= i < o.len() ==> #[trigger] a[i] == o[i]
            &&& forall|i: int| 0 <= i < ds.len() ==> a[o.len() + i] == ConfigStep::Drive((#[trigger] ds[i]).drive_id)
            &&& forall|i: int| 0 <= i < ns.len() ==> a[o.len() + ds.len() + i] == ConfigStep::NetworkInterface((#[trigger] ns[i]).iface_id)
            &&& forall|i: int| 0 <= i < vs.len() ==> a[o.len() + ds.len() + ns.len() + i] == ConfigStep::Vsock((#[trigger] vs[i]).vsock_id)
        }),
{
    let o = opening_steps(c);
    let ds: Seq<Drive> = match c.drives { Some(x) => x@, None => Seq::empty() };
    let ns: Seq<NetworkInterface> = match c.network_interfaces { Some(x) => x@, None => Seq::empty() };
    let vs: Seq<Vsock> = match c.vsock_devices { Some(x) => x@, None => Seq::empty() };
    let d = match c.drives { Some(x) => drive_steps(x@), None => Seq::empty() };
    let n = match c.network_interfaces { Some(x) => iface_steps(x@), None => Seq::empty() };
    let w = match c.vsock_devices { Some(x) => vsock_steps(x@), None => Seq::empty() };
    assert(d.len() == ds.len() && n.len() == ns.len() && w.len() == vs.len());
    let a = o + d + n + w;
    assert(a == opening_and_devices(c));
    let k = o.len() as int;
    assert forall|i: int| 0 <= i < k implies #[trigger] a[i] == o[i] by {
        assert((o + d)[i] == o[i]);
        assert((o + d + n)[i] == (o + d)[i]);
    }
    assert forall|i: int| 0 <= i < ds.len() implies a[k + i] == ConfigStep::Drive((#[trigger] ds[i]).drive_id) by {
        assert(d[i] == ConfigStep::Drive(ds[i].drive_id));
        assert((o + d)[k + i] == d[i]);
        assert((o + d + n)[k + i] == (o + d)[k + i]);
    }
    assert forall|i: int| 0 <= i < ns.len() implies a[k + ds.len() + i] == ConfigStep::NetworkInterface((#[trigger] ns[i]).iface_id) by {
        assert(n[i] == ConfigStep::NetworkInterface(ns[i].iface_id));
        assert((o + d + n)[k + ds.len() + i] == n[i]);
    }
    assert forall|i: int| 0 <= i < vs.len() implies a[k + ds.len() + ns.len() + i] == ConfigStep::Vsock((#[trigger] vs[i]).vsock_id) by {
        assert(w[i] == ConfigStep::Vsock(vs[i].vsock_id));
    }
}

#[verifier::spinoff_prover]
proof fn lemma_closing_positions(c: MicroVMConfig)
    ensures
        ({
            let v = config_steps(c);
            let a = opening_and_devices(c);
            let t = a.len() as int;
            let cpu = one_if(c.cpu_config is Some);
            let mc = one_if(c.machine_config is Some);
            let bal = one_if(c.balloon is Some);
            let ent = one_if(c.entropy_device is Some);
            &&& v.len() == t + cpu + mc + bal + ent + one_if(c.init_metadata is Some)
            &&& forall|i: int| 0 <= i < t ==> #[trigger] v[i] == a[i]
            &&& c.cpu_config is Some ==> v[t] is Cpu
            &&& c.machine_config is Some ==> v[t + cpu] is Machine
            &&& c.balloon is Some ==> v[t + cpu + mc] is Balloon
            &&& c.entropy_device is Some ==> v[t + cpu + mc + bal] is Entropy
            &&& c.init_metadata is Some ==> v[t + cpu + mc + bal + ent] is InitMetadata
        }),
{
    let a = opening_and_devices(c);
    let t4 = step_if(c.cpu_config is Some, ConfigStep::Cpu);
    let t5 = step_if(c.machine_config is Some, ConfigStep::Machine);
    let t6 = step_if(c.balloon is Some, ConfigStep::Balloon);
    let t7 = step_if(c.entropy_device is Some, ConfigStep::Entropy);
    let t8 = step_if(c.init_metadata is Some, ConfigStep::InitMetadata);
    let s4 = a + t4;
    let s5 = s4 + t5;
    let s6 = s5 + t6;
    let s7 = s6 + t7;
    let v = s7 + t8;
    assert(v == config_steps(c));
    let t = a.len() as int;
    assert forall|i: int| 0 <= i < t implies #[trigger] v[i] == a[i] by {
        assert(s4[i] == a[i]);
        assert(s5[i] == s4[i]);
        assert(s6[i] == s5[i]);
        assert(s7[i] == s6[i]);
    }
    let x5 = t + t4.len();
    let x6 = x5 + t5.len();
    let x7 = x6 + t6.len();
    let x8 = x7 + t7.len();
    if c.cpu_config is Some {
        assert(s4[t] == t4[0]);
        assert(s5[t] == s4[t]);
        assert(s6[t] == s5[t]);
        assert(s7[t] == s6[t]);
        assert(v[t] == s7[t]);
    }
    if c.machine_config is Some {
        assert(s5[x5] == t5[0]);
        assert(s6[x5] == s5[x5]);
        assert(s7[x5] == s6[x5]);
        assert(v[x5] == s7[x5]);
    }
    if c.balloon is Some {
        assert(s6[x6] == t6[0]);
        assert(s7[x6] == s6[x6]);
        assert(v[x6] == s7[x6]);
    }
    if c.entropy_device is Some {
        assert(s7[x7] == t7[0]);
        assert(v[x7] == s7[x7]);
    }
    if c.init_metadata is Some {
        assert(v[x8] == t8[0]);
    }
}

/// The configure steps in place, up to the devices: the logger first, then
/// the metrics, the boot source, each drive by its id in the order of the
/// drive list, each network interface by its id, each vsock device by its
/// id, each where given.
pub proof fn lemma_config_steps_devices(c: MicroVMConfig)
    ensures
        ({
            let v = config_steps(c);
            let ds: Seq<Drive> = match c.drives { Some(x) => x@, None => Seq::empty() };
            let ns: Seq<NetworkInterface> = match c.network_interfaces { Some(x) => x@, None => Seq::empty() };
            let vs: Seq<Vsock> = match c.vsock_devices { Some(x) => x@, None => Seq::empty() };
            let l = one_if(c.logger is Some);
            let p = l + one_if(c.metrics is Some) + one_if(c.boot_source is Some);
            &&& v.len() >= p + ds.len() + ns.len() + vs.len()
            &&& c.logger is Some ==> v[0] is Logger
            &&& c.metrics is Some ==> v[l] is Metrics
            &&& forall|i: int| 0 <= i < ds.len() ==> v[p + i] == ConfigStep::Drive((#[trigger] ds[i]).drive_id)
            &&& forall|i: int| 0 <= i < ns.len() ==> v[p + ds.len() + i] == ConfigStep::NetworkInterface((#[trigger] ns[i]).iface_id)
            &&& forall|i: int| 0 <= i < vs.len() ==> v[p + ds.len() + ns.len() + i] == ConfigStep::Vsock((#[trigger] vs[i]).vsock_id)
        }),
{
    lemma_device_positions(c);
    lemma_closing_positions(c);
    lemma_opening_steps(c);
    let o = opening_steps(c);
    let h = step_if(c.logger is Some, ConfigStep::Logger) + step_if(c.metrics is Some, ConfigStep::Metrics);
    assert(o == h + step_if(c.boot_source is Some, ConfigStep::BootSource));
    let a = opening_and_devices(c);
    let v = config_steps(c);
    if c.logger is Some {
        assert(v[0] == a[0] && a[0] == o[0] && o[0] == h[0]);
    }
    if c.metrics is Some {
        let l = one_if(c.logger is Some);
        assert(v[l] == a[l] && a[l] == o[l] && o[l] == h[l]);
    }
}

/// The configure steps in place, after the devices: the CPU template,
/// machine configuration, balloon, entropy device and initial metadata,
/// each where given; and nothing else is put.
pub proof fn lemma_config_steps_closing(c: MicroVMConfig)
    ensures
        ({
            let v = config_steps(c);
            let ds: Seq<Drive> = match c.drives { Some(x) => x@, None => Seq::empty() };
            let ns: Seq<NetworkInterface> = match c.network_interfaces { Some(x) => x@, None => Seq::empty() };
            let vs: Seq<Vsock> = match c.vsock_devices { Some(x) => x@, None => Seq::empty() };
            let t = one_if(c.logger is Some) + one_if(c.metrics is Some) + one_if(c.boot_source is Some)
                + ds.len() + ns.len() + vs.len();
            let cpu = one_if(c.cpu_config is Some);
            let mc = one_if(c.machine_config is Some);
            let bal = one_if(c.balloon is Some);
            let ent = one_if(c.entropy_device is Some);
            &&& v.len() == t + cpu + mc + bal + ent + one_if(c.init_metadata is Some)
            &&& c.cpu_config is Some ==> v[t] is Cpu
            &&& c.machine_config is Some ==> v[t + cpu] is Machine
            &&& c.balloon is Some ==> v[t + cpu + mc] is Balloon
            &&& c.entropy_device is Some ==> v[t + cpu + mc + bal] is Entropy
            &&& c.init_metadata is Some ==> v[t + cpu + mc + bal + ent] is InitMetadata
        }),
{
    lemma_device_positions(c);
    lemma_closing_positions(c);
    lemma_opening_steps(c);
}

} // verus!
