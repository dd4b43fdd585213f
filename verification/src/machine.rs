//! A microVM machine's configuration and the checks made on it before the
//! machine is set up. What the checks learn of the file system is handed in
//! as an `FsView`.
use vstd::prelude::*;
use vstd::string::*;
use crate::config::{probe, probe_error, FsView, PathStatus};
use crate::handler::HandlersAdapter;
use crate::paths::{parent, path_parent};

verus! {

/// Errors met while preparing, running or cleaning up a microVM.
#[derive(Debug)]
pub enum MachineError {
    /// Failure when creating a file or directory.
    FileCreation(String),
    /// A file is missing.
    FileMissing(String),
    /// Failure when removing a file.
    FileRemoving(String),
    /// Failure when accessing a file.
    FileAccess(String),
    /// A path could not be used (e.g. it has no file name).
    FileError(String),
    /// The configuration failed its check.
    Validation(String),
    /// An argument is missing or wrong.
    ArgWrong(String),
    /// Putting the initial configuration failed.
    Initialize(String),
    /// The process did not start or run properly.
    Execute(String),
    /// Cleaning up failed.
    Cleaning(String),
    /// The agent could not talk to Firecracker.
    Agent(String),
}

/// The variant of a machine error, without its message.
#[derive(Clone, Copy, PartialEq, Eq, Structural, Debug)]
pub enum MachineErrorKind {
    FileCreation,
    FileMissing,
    FileRemoving,
    FileAccess,
    FileError,
    Validation,
    ArgWrong,
    Initialize,
    Execute,
    Cleaning,
    Agent,
}

/// A machine error as a variant and the text of its message.
pub open spec fn machine_err_view(e: MachineError) -> (MachineErrorKind, Seq<char>) {
    match e {
        MachineError::FileCreation(m) => (MachineErrorKind::FileCreation, m@),
        MachineError::FileMissing(m) => (MachineErrorKind::FileMissing, m@),
        MachineError::FileRemoving(m) => (MachineErrorKind::FileRemoving, m@),
        MachineError::FileAccess(m) => (MachineErrorKind::FileAccess, m@),
        MachineError::FileError(m) => (MachineErrorKind::FileError, m@),
        MachineError::Validation(m) => (MachineErrorKind::Validation, m@),
        MachineError::ArgWrong(m) => (MachineErrorKind::ArgWrong, m@),
        MachineError::Initialize(m) => (MachineErrorKind::Initialize, m@),
        MachineError::Execute(m) => (MachineErrorKind::Execute, m@),
        MachineError::Cleaning(m) => (MachineErrorKind::Cleaning, m@),
        MachineError::Agent(m) => (MachineErrorKind::Agent, m@),
    }
}

/// The text a machine error is displayed as: what went wrong, then the
/// reason.
pub open spec fn machine_error_text(e: MachineError) -> Seq<char> {
    let (k, m) = machine_err_view(e);
    match k {
        MachineErrorKind::FileCreation => "Could not create file or directory, reason: "@ + m,
        MachineErrorKind::FileMissing => "Could not find file, reason: "@ + m,
        MachineErrorKind::FileRemoving => "Could not remove file, reason: "@ + m,
        MachineErrorKind::FileAccess => "Unable to access file, reason: "@ + m,
        MachineErrorKind::FileError => "Could not set up environment(e.g. file, linking) the machine, reason: "@ + m,
        MachineErrorKind::Validation => "Invalid configuration for the machine, reason: "@ + m,
        MachineErrorKind::ArgWrong => "Missing arguments, reason: "@ + m,
        MachineErrorKind::Initialize => "Could not put initial configuration for the machine, reason: "@ + m,
        MachineErrorKind::Execute => "Fail to start or run the machine, reason: "@ + m,
        MachineErrorKind::Cleaning => "Could not clean up the machine properly, reason: "@ + m,
        MachineErrorKind::Agent => "Agent could not communicate with firecracker process, reason: "@ + m,
    }
}

fn reason_text(prefix: &str, m: &String) -> (s: String)
    ensures
        s@ == prefix@ + m@,
{
    let mut s = String::from_str(prefix);
    s.append(m.as_str());
    s
}

impl MachineError {
    /// The text this error is displayed as.
    pub fn to_text(&self) -> (s: String)
        ensures
            s@ == machine_error_text(*self),
    {
        match self {
            MachineError::FileCreation(m) => reason_text("Could not create file or directory, reason: ", m),
            MachineError::FileMissing(m) => reason_text("Could not find file, reason: ", m),
            MachineError::FileRemoving(m) => reason_text("Could not remove file, reason: ", m),
            MachineError::FileAccess(m) => reason_text("Unable to access file, reason: ", m),
            MachineError::FileError(m) => reason_text("Could not set up environment(e.g. file, linking) the machine, reason: ", m),
            MachineError::Validation(m) => reason_text("Invalid configuration for the machine, reason: ", m),
            MachineError::ArgWrong(m) => reason_text("Missing arguments, reason: ", m),
            MachineError::Initialize(m) => reason_text("Could not put initial configuration for the machine, reason: ", m),
            MachineError::Execute(m) => reason_text("Fail to start or run the machine, reason: ", m),
            MachineError::Cleaning(m) => reason_text("Could not clean up the machine properly, reason: ", m),
            MachineError::Agent(m) => reason_text("Agent could not communicate with firecracker process, reason: ", m),
        }
    }
}

/// Where a standard stream of a spawned process goes.
#[derive(Debug)]
pub enum StdioTypes {
    /// The null device.
    Null,
    /// A pipe to the parent process.
    Piped,
    /// The parent's own stream.
    Inherit,
    /// A file opened at a path.
    From { path: String },
    /// An open file descriptor.
    FromRawFd { fd: i32 },
}

impl StdioTypes {
    /// A copy of this stream choice.
    pub fn duplicate(&self) -> (s: StdioTypes)
        ensures
            s == *self,
    {
        match self {
            StdioTypes::Null => StdioTypes::Null,
            StdioTypes::Piped => StdioTypes::Piped,
            StdioTypes::Inherit => StdioTypes::Inherit,
            StdioTypes::From { path } => StdioTypes::From { path: path.clone() },
            StdioTypes::FromRawFd { fd } => StdioTypes::FromRawFd { fd: *fd },
        }
    }
}

/// A copy of an optional stream choice.
pub fn duplicate_stdio(o: &Option<StdioTypes>) -> (r: Option<StdioTypes>)
    ensures
        r == *o,
{
    match o {
        Some(s) => Some(s.duplicate()),
        None => None,
    }
}

/// How restrictive the seccomp filters installed in Firecracker are.
#[derive(Debug)]
pub enum SeccompLevel {
    /// No filtering (the default).
    Disable,
    /// Syscalls not whitelisted by Firecracker are refused.
    Basic,
    /// Further checks on the parameters of the allowed syscalls.
    Advanced,
}

/// The number Firecracker takes for a seccomp level.
pub open spec fn seccomp_value(l: SeccompLevel) -> usize {
    match l {
        SeccompLevel::Disable => 0,
        SeccompLevel::Basic => 1,
        SeccompLevel::Advanced => 2,
    }
}

impl SeccompLevel {
    /// The number Firecracker takes for this level: 0, 1 or 2.
    pub fn value(&self) -> (v: usize)
        ensures
            v == seccomp_value(*self),
    {
        match self {
            SeccompLevel::Disable => 0,
            SeccompLevel::Basic => 1,
            SeccompLevel::Advanced => 2,
        }
    }
}

/// A block device made available to the microVM.
#[derive(Debug)]
pub struct Drive {
    pub drive_id: String,
    /// The backing file on the host.
    pub path_on_host: String,
    pub is_root_device: bool,
    pub is_read_only: bool,
}

impl Drive {
    /// A copy of this drive.
    pub fn duplicate(&self) -> (d: Drive)
        ensures
            d == *self,
    {
        Drive {
            drive_id: self.drive_id.clone(),
            path_on_host: self.path_on_host.clone(),
            is_root_device: self.is_root_device,
            is_read_only: self.is_read_only,
        }
    }

    /// The same drive backed by `path`.
    pub fn with_path(&self, path: String) -> (d: Drive)
        ensures
            d == (Drive { path_on_host: path, ..*self }),
    {
        Drive {
            drive_id: self.drive_id.clone(),
            path_on_host: path,
            is_root_device: self.is_root_device,
            is_read_only: self.is_read_only,
        }
    }
}

/// A tap device made available to the microVM.
#[derive(Debug)]
pub struct NetworkInterface {
    pub iface_id: String,
    pub host_dev_name: String,
    pub guest_mac: Option<String>,
}

/// The microVM's machine configuration.
#[derive(Debug)]
pub struct MachineConfiguration {
    pub vcpu_count: u64,
    pub mem_size_mib: u64,
    pub ht_enabled: Option<bool>,
    pub track_dirty_pages: Option<bool>,
}

/// Configuration of the jailer a machine is started under.
#[derive(Debug)]
pub struct MachineJailerConfig {
    /// The gid the jailer switches to as it execs the target binary.
    pub gid: Option<u32>,
    /// The uid the jailer switches to as it execs the target binary.
    pub uid: Option<u32>,
    /// The VM's id: alphanumeric characters and hyphens, at most 64.
    pub id: Option<String>,
    /// The NUMA node the process is assigned to.
    pub numa_node: Option<usize>,
    /// The Firecracker binary the jailer execs.
    pub exec_file: Option<String>,
    /// The jailer binary (default `jailer`).
    pub jailer_binary: Option<String>,
    /// Where chroot jails are built (default `/srv/jailer`).
    pub chroot_base_dir: Option<String>,
    /// Whether to call setsid() and redirect the standard streams to /dev/null.
    pub daemonize: Option<bool>,
    /// How files are brought into the root drive.
    pub chroot_strategy: Option<HandlersAdapter>,
    pub stdout: Option<StdioTypes>,
    pub stderr: Option<StdioTypes>,
    pub stdin: Option<StdioTypes>,
    /// The log fifo outside the jail, once it is linked in.
    pub log_link_src: Option<String>,
    /// The log fifo's link inside the jail.
    pub log_link_dest: Option<String>,
    /// The metrics fifo outside the jail, once it is linked in.
    pub metrics_link_src: Option<String>,
    /// The metrics fifo's link inside the jail.
    pub metrics_link_dest: Option<String>,
}

/// The user-configurable settings of a machine.
#[derive(Debug)]
pub struct MachineConfig {
    /// Where Firecracker's control socket is created.
    pub socket_path: Option<String>,
    /// Firecracker's log file (unused when `log_fifo` is set).
    pub log_path: Option<String>,
    /// Firecracker's log named pipe.
    pub log_fifo: Option<String>,
    /// Firecracker's metrics file (unused when `metrics_fifo` is set).
    pub metrics_path: Option<String>,
    /// Firecracker's metrics named pipe.
    pub metrics_fifo: Option<String>,
    /// The uncompressed ELF kernel image.
    pub kernel_image_path: Option<String>,
    /// The initrd image (optional).
    pub initrd_path: Option<String>,
    /// The kernel command line.
    pub kernel_args: Option<String>,
    pub drives: Option<Vec<Drive>>,
    pub network_interfaces: Option<Vec<NetworkInterface>>,
    pub machine_cfg: Option<MachineConfiguration>,
    /// Skips the checks (for mock testing).
    pub disable_validation: bool,
    /// Whether the jailer is used.
    pub enable_jailer: bool,
    pub jailer_cfg: Option<MachineJailerConfig>,
    /// The VM's id.
    pub vmid: Option<String>,
    /// The network namespace to join.
    pub net_ns: Option<String>,
    /// 0 (disabled), 1 (basic) or 2 (advanced).
    pub seccomp_level: Option<usize>,
    /// Whether log files are removed with the machine.
    pub log_clear: Option<bool>,
    /// Whether metrics files are removed with the machine.
    pub metrics_clear: Option<bool>,
    /// Whether networking is cleared with the machine.
    pub network_clear: Option<bool>,
}

impl MachineConfig {
    /// Sets the seccomp level to the number of `level`.
    pub fn with_seccomp_level(self, level: SeccompLevel) -> (c: Self)
        ensures
            c == (MachineConfig { seccomp_level: Some(seccomp_value(level)), ..self }),
    {
        let v = level.value();
        MachineConfig { seccomp_level: Some(v), ..self }
    }
}

/// A machine error's view, or success.
pub type MachineOutcome<T> = Result<T, (MachineErrorKind, Seq<char>)>;

/// The backing file of the first root drive, if any.
pub open spec fn first_root_path(ds: Seq<Drive>) -> Option<Seq<char>>
    decreases ds.len(),
{
    if ds.len() == 0 {
        None
    } else if ds[0].is_root_device {
        Some(ds[0].path_on_host@)
    } else {
        first_root_path(ds.drop_first())
    }
}

/// Whether some drive is a root drive.
pub open spec fn has_root_drive(ds: Seq<Drive>) -> bool {
    exists|i: int| 0 <= i < ds.len() && #[trigger] ds[i].is_root_device
}

/// `{:#?}` of `Some(PathBuf::from(p))`.
pub uninterp spec fn some_path_pretty(p: Seq<char>) -> Seq<char>;

/// Formats `Some(PathBuf::from(p))` with `{:#?}`. Claims that the text is
/// that function of the path alone.
#[verifier::external_body]
fn pretty_some_path(p: &str) -> (s: String)
    ensures
        s@ == some_path_pretty(p@),
{
    format!("{:#?}", Some(std::path::PathBuf::from(p)))
}

/// The message of a failed lookup: `<what>, <path>: <error>`.
pub open spec fn stat_failure(what: Seq<char>, p: Seq<char>, fs: Seq<PathStatus>) -> Seq<char> {
    what + some_path_pretty(p) + ": "@ + probe_error(fs, p)
}

/// What `validate_paths` decides: with validation on, the kernel image must
/// be given and exist; the initrd image and the first root drive's file,
/// where given, must exist; the socket path must be given, not exist yet and
/// have a parent directory, which is returned to be created.
pub open spec fn config_paths_outcome(c: MachineConfig, fs: Seq<PathStatus>) -> MachineOutcome<Option<Seq<char>>> {
    if c.disable_validation {
        Ok(None)
    } else {
        match c.kernel_image_path {
            None => Err((MachineErrorKind::Validation, "no kernel image path provided"@)),
            Some(k) => if !probe(fs, k@).0 {
                Err((MachineErrorKind::Validation, stat_failure("failed to stat kernel image path, "@, k@, fs)))
            } else if c.initrd_path matches Some(i) && !probe(fs, i@).0 {
                Err((MachineErrorKind::Validation, stat_failure("failed to stat initrd image path, "@, c.initrd_path->0@, fs)))
            } else if c.drives matches Some(ds) && first_root_path(ds@) matches Some(r) && !probe(fs, r).0 {
                Err((MachineErrorKind::Validation, stat_failure("failed to stat host drive path, "@, first_root_path(c.drives->0@)->0, fs)))
            } else {
                match c.socket_path {
                    None => Err((MachineErrorKind::Validation, "no socket path provided"@)),
                    Some(s) => if probe(fs, s@).0 {
                        Err((MachineErrorKind::Validation, "socket "@ + some_path_pretty(s@) + " already exists"@))
                    } else {
                        match path_parent(s@) {
                            None => Err((MachineErrorKind::Validation, "invalid directory where the socket is to be generated: "@ + s@)),
                            Some(d) => Ok(Some(d)),
                        }
                    },
                }
            }
        }
    }
}

/// With validation on, the path check passes only when every file the
/// machine boots from is there (the kernel image, the initrd image when one
/// is given, the first root drive's file) and the socket is not; and any
/// refusal is a validation error.
pub proof fn lemma_paths_checked(c: MachineConfig, fs: Seq<PathStatus>)
    requires
        !c.disable_validation,
    ensures
        config_paths_outcome(c, fs) is Ok ==> {
            &&& c.kernel_image_path is Some && probe(fs, c.kernel_image_path->0@).0
            &&& c.initrd_path is Some ==> probe(fs, c.initrd_path->0@).0
            &&& (c.drives is Some && first_root_path(c.drives->0@) is Some) ==> probe(fs, first_root_path(c.drives->0@)->0).0
            &&& c.socket_path is Some && !probe(fs, c.socket_path->0@).0
        },
        config_paths_outcome(c, fs) matches Err(e) ==> e.0 == MachineErrorKind::Validation,
        (c.initrd_path is Some && !probe(fs, c.initrd_path->0@).0) ==> config_paths_outcome(c, fs) is Err,
{
}

/// The view of a checked result.
pub open spec fn machine_outcome<T>(r: Result<T, MachineError>) -> MachineOutcome<T> {
    match r {
        Ok(v) => Ok(v),
        Err(e) => Err(machine_err_view(e)),
    }
}

/// The view of a result that carries an optional path.
pub open spec fn path_outcome(r: Result<Option<String>, MachineError>) -> MachineOutcome<Option<Seq<char>>> {
    match r {
        Ok(Some(p)) => Ok(Some(p@)),
        Ok(None) => Ok(None),
        Err(e) => Err(machine_err_view(e)),
    }
}

fn validation_error(msg: &str) -> (e: MachineError)
    ensures
        machine_err_view(e) == (MachineErrorKind::Validation, msg@),
{
    MachineError::Validation(String::from_str(msg))
}

fn stat_error(what: &str, p: &String, fs: &FsView) -> (e: MachineError)
    ensures
        machine_err_view(e) == (MachineErrorKind::Validation, stat_failure(what@, p@, fs.entries@)),
{
    let mut m = String::from_str(what);
    let d = pretty_some_path(p.as_str());
    m.append(d.as_str());
    m.append(": ");
    let err = fs.error_of(p);
    m.append(err.as_str());
    MachineError::Validation(m)
}

fn first_root_drive(ds: &Vec<Drive>) -> (r: Option<&String>)
    ensures
        match r {
            Some(p) => first_root_path(ds@) == Some(p@),
            None => first_root_path(ds@) is None,
        },
{
    let mut i: usize = 0;
    assert(ds@.skip(0) =~= ds@);
    while i < ds.len()
        invariant
            i <= ds@.len(),
            first_root_path(ds@) == first_root_path(ds@.skip(i as int)),
        decreases ds@.len() - i,
    {
        assert(ds@.skip(i as int).drop_first() =~= ds@.skip(i + 1));
        if ds[i].is_root_device {
            return Some(&ds[i].path_on_host);
        }
        i = i + 1;
    }
    None
}

fn any_root_drive(ds: &Vec<Drive>) -> (b: bool)
    ensures
        b == has_root_drive(ds@),
{
    let mut i: usize = 0;
    while i < ds.len()
        invariant
            i <= ds@.len(),
            forall|j: int| 0 <= j < i ==> !(#[trigger] ds@[j]).is_root_device,
        decreases ds@.len() - i,
    {
        if ds[i].is_root_device {
            return true;
        }
        i = i + 1;
    }
    false
}

impl MachineConfig {
    /// The paths whose status `validate_paths` may consult.
    pub open spec fn consulted_paths(self) -> Seq<Seq<char>> {
        (match self.kernel_image_path { Some(k) => seq![k@], None => Seq::empty() })
            + (match self.initrd_path { Some(i) => seq![i@], None => Seq::empty() })
            + (match self.drives {
                Some(ds) => match first_root_path(ds@) { Some(r) => seq![r], None => Seq::empty() },
                None => Seq::empty(),
            })
            + (match self.socket_path { Some(s) => seq![s@], None => Seq::empty() })
    }

    /// The first part of the configuration check: the files it names.
    /// Returns the directory to create for the socket (`None` when
    /// validation is disabled); the machine configuration is checked once it
    /// exists, by `validate_machine_cfg`.
    pub fn validate_paths(&self, fs: &FsView) -> (r: Result<Option<String>, MachineError>)
        ensures
            path_outcome(r) == config_paths_outcome(*self, fs.entries@),
    {
        if self.disable_validation {
            return Ok(None);
        }
        match &self.kernel_image_path {
            None => {
                return Err(validation_error("no kernel image path provided"));
            },
            Some(k) => {
                let (present, _) = fs.status(k);
                if !present {
                    return Err(stat_error("failed to stat kernel image path, ", k, fs));
                }
            },
        }
        if let Some(i) = &self.initrd_path {
            let (present, _) = fs.status(i);
            if !present {
                return Err(stat_error("failed to stat initrd image path, ", i, fs));
            }
        }
        if let Some(ds) = &self.drives {
            if let Some(root) = first_root_drive(ds) {
                let (present, _) = fs.status(root);
                if !present {
                    return Err(stat_error("failed to stat host drive path, ", root, fs));
                }
            }
        }
        match &self.socket_path {
            None => Err(validation_error("no socket path provided")),
            Some(s) => {
                let (present, _) = fs.status(s);
                if present {
                    let mut m = String::from_str("socket ");
                    let d = pretty_some_path(s.as_str());
                    m.append(d.as_str());
                    m.append(" already exists");
                    return Err(MachineError::Validation(m));
                }
                match parent(s.as_str()) {
                    None => {
                        let mut m = String::from_str("invalid directory where the socket is to be generated: ");
                        m.append(s.as_str());
                        Err(MachineError::Validation(m))
                    },
                    Some(d) => Ok(Some(d)),
                }
            },
        }
    }
}

/// What `validate_network` decides: with validation on, a network namespace
/// and at least one network interface must be given.
pub open spec fn network_outcome(c: MachineConfig) -> MachineOutcome<()> {
    if c.disable_validation {
        Ok(())
    } else if c.net_ns is None {
        Err((MachineErrorKind::Validation, "no network namespace provided"@))
    } else if c.network_interfaces is None || c.network_interfaces->0@.len() == 0 {
        Err((MachineErrorKind::Validation, "no network interface provided"@))
    } else {
        Ok(())
    }
}

/// The checks of the jailer's own entries that both jailer checks make, in
/// order: exec file, a non-empty id, gid, uid and NUMA node.
pub open spec fn jailer_entries_outcome(j: MachineJailerConfig) -> MachineOutcome<()> {
    if j.exec_file is None {
        Err((MachineErrorKind::Validation, "exec file must be specified when using jailer mode"@))
    } else if j.id is None || j.id->0@.len() == 0 {
        Err((MachineErrorKind::Validation, "id must be specified when using jailer mode"@))
    } else if j.gid is None {
        Err((MachineErrorKind::Validation, "gid must be specified when using jailer mode"@))
    } else if j.uid is None {
        Err((MachineErrorKind::Validation, "uid must be specified when using jailer mode"@))
    } else if j.numa_node is None {
        Err((MachineErrorKind::Validation, "numa node must be specified when using jailer mode"@))
    } else {
        Ok(())
    }
}

/// Whether the machine boots from a root device: an initrd image or a root
/// drive.
pub open spec fn has_root(c: MachineConfig) -> bool {
    c.initrd_path is Some || has_root_drive(c.drives->0@)
}

/// What `validate_jailer_config` decides: with validation on, a jailer
/// configuration must be given, the machine must have a root device, and the
/// jailer's entries must be set.
pub open spec fn jailer_config_outcome(c: MachineConfig) -> MachineOutcome<()> {
    if c.disable_validation {
        Ok(())
    } else {
        match c.jailer_cfg {
            None => Err((MachineErrorKind::ArgWrong, "Missing JailerConfig"@)),
            Some(j) => if !has_root(c) {
                Err((MachineErrorKind::Validation, "A root drive must be present in the drive list"@))
            } else {
                jailer_entries_outcome(j)
            },
        }
    }
}

/// What the jailer-validation handler decides: nothing to check without a
/// jailer configuration; otherwise the machine must have a root device, a
/// chroot strategy must be set, and the jailer's entries must be set.
pub open spec fn jailer_handler_outcome(c: MachineConfig) -> MachineOutcome<()> {
    match c.jailer_cfg {
        None => Ok(()),
        Some(j) => if !has_root(c) {
            Err((MachineErrorKind::Validation, "A root drive must be present in the drive list"@))
        } else if j.chroot_strategy is None {
            Err((MachineErrorKind::Validation, "chroot_startegy cannot be none"@))
        } else {
            jailer_entries_outcome(j)
        },
    }
}

fn check_jailer_entries(j: &MachineJailerConfig) -> (r: Result<(), MachineError>)
    ensures
        machine_outcome(r) == jailer_entries_outcome(*j),
{
    if j.exec_file.is_none() {
        return Err(validation_error("exec file must be specified when using jailer mode"));
    }
    let no_id = match &j.id {
        None => true,
        Some(id) => id.unicode_len() == 0,
    };
    if no_id {
        return Err(validation_error("id must be specified when using jailer mode"));
    }
    if j.gid.is_none() {
        return Err(validation_error("gid must be specified when using jailer mode"));
    }
    if j.uid.is_none() {
        return Err(validation_error("uid must be specified when using jailer mode"));
    }
    if j.numa_node.is_none() {
        return Err(validation_error("numa node must be specified when using jailer mode"));
    }
    Ok(())
}

impl MachineConfig {
    /// The second part of the configuration check: a machine configuration
    /// must be given.
    pub fn validate_machine_cfg(&self) -> (r: Result<(), MachineError>)
        ensures
            machine_outcome(r) == if !self.disable_validation && self.machine_cfg is None {
                Err((MachineErrorKind::Validation, "no machine configuration provided"@))
            } else {
                Ok::<(), (MachineErrorKind, Seq<char>)>(())
            },
    {
        if !self.disable_validation && self.machine_cfg.is_none() {
            return Err(validation_error("no machine configuration provided"));
        }
        Ok(())
    }

    /// Checks the networking entries.
    pub fn validate_network(&self) -> (r: Result<(), MachineError>)
        ensures
            machine_outcome(r) == network_outcome(*self),
    {
        if self.disable_validation {
            return Ok(());
        }
        if self.net_ns.is_none() {
            return Err(validation_error("no network namespace provided"));
        }
        let none = match &self.network_interfaces {
            None => true,
            Some(v) => v.len() == 0,
        };
        if none {
            return Err(validation_error("no network interface provided"));
        }
        Ok(())
    }

    /// Checks the entries the jailer needs. The drive list must be given
    /// when a jailer configuration is.
    pub fn validate_jailer_config(&self) -> (r: Result<(), MachineError>)
        requires
            !self.disable_validation && self.jailer_cfg is Some ==> self.drives is Some,
        ensures
            machine_outcome(r) == jailer_config_outcome(*self),
    {
        if self.disable_validation {
            return Ok(());
        }
        match &self.jailer_cfg {
            None => Err(MachineError::ArgWrong(String::from_str("Missing JailerConfig"))),
            Some(j) => {
                let root = self.initrd_path.is_some() || match &self.drives {
                    Some(ds) => any_root_drive(ds),
                    None => false,
                };
                if !root {
                    return Err(validation_error("A root drive must be present in the drive list"));
                }
                check_jailer_entries(j)
            },
        }
    }

    /// The check the jailer-validation handler makes. The drive list must be
    /// given when a jailer configuration is.
    pub fn jailer_handler_check(&self) -> (r: Result<(), MachineError>)
        requires
            self.jailer_cfg is Some ==> self.drives is Some,
        ensures
            machine_outcome(r) == jailer_handler_outcome(*self),
    {
        match &self.jailer_cfg {
            None => Ok(()),
            Some(j) => {
                let root = self.initrd_path.is_some() || match &self.drives {
                    Some(ds) => any_root_drive(ds),
                    None => false,
                };
                if !root {
                    return Err(validation_error("A root drive must be present in the drive list"));
                }
                if j.chroot_strategy.is_none() {
                    return Err(validation_error("chroot_startegy cannot be none"));
                }
                check_jailer_entries(j)
            },
        }
    }
}

/// The paths of an optional path.
pub open spec fn opt_paths(o: Option<String>) -> Seq<Seq<char>> {
    match o {
        Some(p) => seq![p@],
        None => Seq::empty(),
    }
}

/// The log files removed on clean-up: with log clearing, the log fifo and
/// file, and with the jailer the fifo's link and its source.
pub open spec fn log_cleanup_paths(c: MachineConfig) -> Seq<Seq<char>> {
    if c.log_clear == Some(true) {
        opt_paths(c.log_fifo) + opt_paths(c.log_path) + if c.enable_jailer {
            opt_paths(c.jailer_cfg->0.log_link_dest) + opt_paths(c.jailer_cfg->0.log_link_src)
        } else {
            Seq::empty()
        }
    } else {
        Seq::empty()
    }
}

/// The metrics files removed on clean-up, as for the log files.
pub open spec fn metrics_cleanup_paths(c: MachineConfig) -> Seq<Seq<char>> {
    if c.metrics_clear == Some(true) {
        opt_paths(c.metrics_fifo) + opt_paths(c.metrics_path) + if c.enable_jailer {
            opt_paths(c.jailer_cfg->0.metrics_link_dest) + opt_paths(c.jailer_cfg->0.metrics_link_src)
        } else {
            Seq::empty()
        }
    } else {
        Seq::empty()
    }
}

/// The files removed when a machine is cleaned up, in order: the log
/// files, the metrics files, then the socket.
pub open spec fn cleanup_paths(c: MachineConfig) -> Seq<Seq<char>> {
    log_cleanup_paths(c) + metrics_cleanup_paths(c) + opt_paths(c.socket_path)
}

fn push_opt_path(v: &mut Vec<String>, o: &Option<String>)
    ensures
        final(v)@.map_values(|s: String| s@) == old(v)@.map_values(|s: String| s@) + opt_paths(*o),
{
    let ghost before = v@;
    if let Some(p) = o {
        v.push(p.clone());
        assert(v@.map_values(|s: String| s@) =~= before.map_values(|s: String| s@) + seq![p@]);
    } else {
        assert(v@.map_values(|s: String| s@) =~= before.map_values(|s: String| s@) + Seq::<Seq<char>>::empty());
    }
}

fn push_group(v: &mut Vec<String>, clear: bool, fifo: &Option<String>, file: &Option<String>, jailed: bool, dest: &Option<String>, src: &Option<String>)
    ensures
        final(v)@.map_values(|s: String| s@) == old(v)@.map_values(|s: String| s@) + if clear {
            opt_paths(*fifo) + opt_paths(*file) + if jailed { opt_paths(*dest) + opt_paths(*src) } else { Seq::empty() }
        } else {
            Seq::empty()
        },
{
    let ghost before = v@.map_values(|s: String| s@);
    if clear {
        push_opt_path(v, fifo);
        push_opt_path(v, file);
        if jailed {
            push_opt_path(v, dest);
            push_opt_path(v, src);
            assert(v@.map_values(|s: String| s@) =~= before + (opt_paths(*fifo) + opt_paths(*file) + (opt_paths(*dest) + opt_paths(*src))));
        } else {
            assert(v@.map_values(|s: String| s@) =~= before + (opt_paths(*fifo) + opt_paths(*file) + Seq::<Seq<char>>::empty()));
        }
    } else {
        assert(v@.map_values(|s: String| s@) =~= before + Seq::<Seq<char>>::empty());
    }
}

impl MachineConfig {
    /// The files to remove when the machine is cleaned up, in order. With
    /// the jailer and log or metrics clearing, the jailer configuration must
    /// be given.
    pub fn cleanup_paths(&self) -> (v: Vec<String>)
        requires
            self.enable_jailer && (self.log_clear == Some(true) || self.metrics_clear == Some(true))
                ==> self.jailer_cfg is Some,
        ensures
            v@.map_values(|s: String| s@) == cleanup_paths(*self),
    {
        let mut v: Vec<String> = Vec::new();
        assert(v@.map_values(|s: String| s@) =~= Seq::<Seq<char>>::empty());
        let none: Option<String> = None;
        let (ld, ls, md, ms) = match &self.jailer_cfg {
            Some(j) => (&j.log_link_dest, &j.log_link_src, &j.metrics_link_dest, &j.metrics_link_src),
            None => (&none, &none, &none, &none),
        };
        push_group(&mut v, self.log_clear == Some(true), &self.log_fifo, &self.log_path, self.enable_jailer, ld, ls);
        assert(v@.map_values(|s: String| s@) =~= log_cleanup_paths(*self));
        push_group(&mut v, self.metrics_clear == Some(true), &self.metrics_fifo, &self.metrics_path, self.enable_jailer, md, ms);
        assert(v@.map_values(|s: String| s@) =~= log_cleanup_paths(*self) + metrics_cleanup_paths(*self));
        push_opt_path(&mut v, &self.socket_path);
        v
    }

    /// Whether networking is cleared with the machine.
    pub fn clears_network(&self) -> (b: bool)
        ensures
            b == (self.network_clear == Some(true)),
    {
        self.network_clear == Some(true)
    }
}

/// How removing one file ended, from what the removal and the look-up after
/// it reported: a failed removal, or a file still there, is a cleaning error
/// naming the path.
pub fn clear_file_result(path: &String, remove_error: Option<String>, still_exists: bool) -> (r: Result<(), MachineError>)
    ensures
        match remove_error {
            Some(e) => r matches Err(x) && machine_err_view(x) == (MachineErrorKind::Cleaning,
                "fail to remove the file at "@ + path@ + ": "@ + e@),
            None => if still_exists {
                r matches Err(x) && machine_err_view(x) == (MachineErrorKind::Cleaning,
                    "fail to remove the file at "@ + path@ + ", maybe a dir, non-exist file or permission deny"@)
            } else {
                r is Ok
            },
        },
{
    match remove_error {
        Some(e) => {
            let mut m = String::from_str("fail to remove the file at ");
            m.append(path.as_str());
            m.append(": ");
            m.append(e.as_str());
            Err(MachineError::Cleaning(m))
        },
        None => {
            if still_exists {
                let mut m = String::from_str("fail to remove the file at ");
                m.append(path.as_str());
                m.append(", maybe a dir, non-exist file or permission deny");
                Err(MachineError::Cleaning(m))
            } else {
                Ok(())
            }
        },
    }
}

} // verus!
