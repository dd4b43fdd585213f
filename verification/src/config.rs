//! Hypervisor and jailer configuration, and the checks made on it before a
//! microVM is launched. What the checks learn of the file system is handed
//! in as an `FsView`: the caller looks the paths up, these functions decide.
use vstd::prelude::*;
use vstd::string::*;
use crate::error::{err_view, RtckError, RtckErrorKind};
use crate::text::{contains, find_in, to_chars};

verus! {

/// What the file system says of one path.
#[derive(Debug)]
pub struct PathStatus {
    pub path: String,
    pub exists: bool,
    pub is_file: bool,
    /// The text of the error met while looking the path up (empty when the
    /// lookup succeeded).
    pub error: String,
}

/// The looked-up status of the paths a check consults.
#[derive(Debug)]
pub struct FsView {
    pub entries: Vec<PathStatus>,
}

/// (exists, is a regular file) for a path: the first entry for it, and
/// (false, false) for a path that was not looked up.
pub open spec fn probe(entries: Seq<PathStatus>, p: Seq<char>) -> (bool, bool)
    decreases entries.len(),
{
    if entries.len() == 0 {
        (false, false)
    } else if entries[0].path@ == p {
        (entries[0].exists, entries[0].is_file)
    } else {
        probe(entries.drop_first(), p)
    }
}

/// The error text recorded for a path: that of its first entry, and empty
/// for a path that was not looked up.
pub open spec fn probe_error(entries: Seq<PathStatus>, p: Seq<char>) -> Seq<char>
    decreases entries.len(),
{
    if entries.len() == 0 {
        Seq::empty()
    } else if entries[0].path@ == p {
        entries[0].error@
    } else {
        probe_error(entries.drop_first(), p)
    }
}

impl FsView {
    /// The error text recorded for `p`, as `probe_error` says.
    pub fn error_of(&self, p: &String) -> (e: String)
        ensures
            e@ == probe_error(self.entries@, p@),
    {
        let mut i: usize = 0;
        assert(self.entries@.skip(0) =~= self.entries@);
        while i < self.entries.len()
            invariant
                i <= self.entries@.len(),
                probe_error(self.entries@, p@) == probe_error(self.entries@.skip(i as int), p@),
            decreases self.entries@.len() - i,
        {
            assert(self.entries@.skip(i as int).drop_first() =~= self.entries@.skip(i + 1));
            if self.entries[i].path == *p {
                return self.entries[i].error.clone();
            }
            i = i + 1;
        }
        String::new()
    }

    /// (exists, is a regular file) for `p`, as `probe` says.
    pub fn status(&self, p: &String) -> (r: (bool, bool))
        ensures
            r == probe(self.entries@, p@),
    {
        let mut i: usize = 0;
        assert(self.entries@.skip(0) =~= self.entries@);
        while i < self.entries.len()
            invariant
                i <= self.entries@.len(),
                probe(self.entries@, p@) == probe(self.entries@.skip(i as int), p@),
            decreases self.entries@.len() - i,
        {
            assert(self.entries@.skip(i as int).drop_first() =~= self.entries@.skip(i + 1));
            if self.entries[i].path == *p {
                return (self.entries[i].exists, self.entries[i].is_file);
            }
            i = i + 1;
        }
        (false, false)
    }
}

/// The `Debug` text of a path, as `format!("{:?}", path)` writes it.
pub uninterp spec fn path_debug(p: Seq<char>) -> Seq<char>;

/// Formats a path with `Debug`. Claims that the text is that function of the
/// path alone.
#[verifier::external_body]
pub(crate) fn debug_path(p: &str) -> (s: String)
    ensures
        s@ == path_debug(p@),
{
    format!("{:?}", std::path::Path::new(p))
}

fn config_error(msg: &str) -> (e: RtckError)
    ensures
        err_view(e) == (RtckErrorKind::Config, msg@),
{
    RtckError::Config(String::from_str(msg))
}

fn config_error_with_path(prefix: &str, p: &String) -> (e: RtckError)
    ensures
        err_view(e) == (RtckErrorKind::Config, prefix@ + path_debug(p@)),
{
    let mut m = String::from_str(prefix);
    let d = debug_path(p.as_str());
    m.append(d.as_str());
    RtckError::Config(m)
}

/// A checked outcome: `Ok` or an error's variant and message.
pub type Outcome = Result<(), (RtckErrorKind, Seq<char>)>;

/// The outcome of a check as a view.
pub open spec fn outcome_of(r: Result<(), RtckError>) -> Outcome {
    match r {
        Ok(()) => Ok(()),
        Err(e) => Err(err_view(e)),
    }
}

/// Configuration for the jailer.
#[derive(Debug)]
pub struct JailerConfig {
    /// The gid the jailer switches to as it execs the target binary.
    pub gid: Option<u32>,
    /// The uid the jailer switches to as it execs the target binary.
    pub uid: Option<u32>,
    /// The NUMA node the process gets assigned to.
    pub numa_node: Option<usize>,
    /// The Firecracker binary that the jailer execs.
    pub exec_file: Option<String>,
    /// The jailer binary.
    pub jailer_bin: Option<String>,
    /// Where chroot jails are built (default `/srv/jailer`).
    pub chroot_base_dir: Option<String>,
    /// Whether to call setsid() and redirect the standard streams to /dev/null.
    pub daemonize: Option<bool>,
}

impl Default for JailerConfig {
    fn default() -> (c: Self)
        ensures
            c.gid is None && c.uid is None && c.numa_node is None && c.exec_file is None
                && c.jailer_bin is None && c.chroot_base_dir is None && c.daemonize is None,
    {
        JailerConfig {
            gid: None,
            uid: None,
            numa_node: None,
            exec_file: None,
            jailer_bin: None,
            chroot_base_dir: None,
            daemonize: None,
        }
    }
}

/// What `JailerConfig::validate` decides: the Firecracker binary must be
/// given, hold `firecracker` in its path and be an existing regular file; the
/// jailer binary must be given and be an existing regular file.
pub open spec fn jailer_config_outcome(c: JailerConfig, fs: Seq<PathStatus>) -> Outcome {
    match c.exec_file {
        None => Err((RtckErrorKind::Config, "Firecracker executable file not configured"@)),
        Some(p) => if !contains(p@, "firecracker"@) {
            Err((RtckErrorKind::Config, "Firecracker executable path must contain `firecracker`"@))
        } else if !probe(fs, p@).0 || !probe(fs, p@).1 {
            Err((RtckErrorKind::Config, "Firecracker executable file not found at "@ + path_debug(p@)))
        } else {
            match c.jailer_bin {
                None => Err((RtckErrorKind::Config, "Jailer binary path not configured"@)),
                Some(j) => if !probe(fs, j@).0 || !probe(fs, j@).1 {
                    Err((RtckErrorKind::Config, "Jailer binary not fount at "@ + path_debug(j@)))
                } else {
                    Ok(())
                },
            }
        },
    }
}

impl JailerConfig {
    /// Checks the jailer configuration against the looked-up file system.
    pub fn validate(&self, fs: &FsView) -> (r: Result<(), RtckError>)
        ensures
            outcome_of(r) == jailer_config_outcome(*self, fs.entries@),
    {
        match &self.exec_file {
            None => {
                return Err(config_error("Firecracker executable file not configured"));
            },
            Some(path) => {
                let v = to_chars(path.as_str());
                let pat = to_chars("firecracker");
                assert(v@.subrange(0, v@.len() as int) =~= path@);
                if find_in(&v, 0, v.len(), &pat).is_none() {
                    return Err(config_error("Firecracker executable path must contain `firecracker`"));
                }
                let (present, is_file) = fs.status(path);
                if !present || !is_file {
                    return Err(config_error_with_path("Firecracker executable file not found at ", path));
                }
            },
        }
        match &self.jailer_bin {
            None => {
                return Err(config_error("Jailer binary path not configured"));
            },
            Some(path) => {
                let (present, is_file) = fs.status(path);
                if !present || !is_file {
                    return Err(config_error_with_path("Jailer binary not fount at ", path));
                }
            },
        }
        Ok(())
    }
}

/// Configuration of a hypervisor instance.
#[derive(Debug)]
pub struct HypervisorConfig {
    /// Instance id, at most 64 characters; a random one is allocated when it
    /// is `None`.
    pub id: Option<String>,
    /// Launch timeout in seconds.
    pub launch_timeout: u64,
    /// Interval in seconds for polling the microVM's status while waiting.
    pub poll_status_secs: u64,
    /// Whether the jailer is used.
    pub using_jailer: Option<bool>,
    /// Path to the Firecracker binary.
    pub frck_bin: Option<String>,
    /// Path to the jailer binary (when using the jailer).
    pub jailer_bin: Option<String>,
    /// Jailer configuration (when using the jailer).
    pub jailer_config: Option<JailerConfig>,
    /// Where Firecracker's exported configuration is put, for `--config-file`.
    pub frck_export_path: Option<String>,
    /// Where the API socket is put.
    pub socket_path: Option<String>,
    /// How many times connecting to the socket is tried.
    pub socket_retry: usize,
    /// Where the lock file is put.
    pub lock_path: Option<String>,
    /// Log path (as Firecracker sees it when jailed).
    pub log_path: Option<String>,
    /// Whether log files are removed with the microVM.
    pub log_clear: Option<bool>,
    /// Metrics path (as Firecracker sees it when jailed).
    pub metrics_path: Option<String>,
    /// Whether metrics files are removed with the microVM.
    pub metrics_clear: Option<bool>,
    /// Whether networking is cleared with the microVM.
    pub network_clear: Option<bool>,
    /// Seccomp level: 0 disabled, 1 basic, 2 advanced.
    pub seccomp_level: Option<usize>,
    /// Where Firecracker's standard output is redirected.
    pub stdout_to: Option<String>,
    /// Where Firecracker's standard error is redirected.
    pub stderr_to: Option<String>,
    /// Whether the jailer's working directory is removed with the microVM.
    pub clear_jailer: Option<bool>,
}

impl Default for HypervisorConfig {
    fn default() -> (c: Self)
        ensures
            c.id is None && c.launch_timeout == 3 && c.using_jailer is None && c.jailer_bin is None
                && c.jailer_config is None && c.frck_export_path is None && c.socket_path is None
                && c.socket_retry == 3 && c.lock_path is None && c.frck_bin is None && c.log_path is None
                && c.log_clear is None && c.metrics_path is None && c.metrics_clear is None
                && c.network_clear is None && c.seccomp_level is None && c.clear_jailer is None
                && c.stdout_to is None && c.stderr_to is None
                && c.poll_status_secs == 10,
    {
        HypervisorConfig {
            id: None,
            launch_timeout: 3,
            using_jailer: None,
            jailer_bin: None,
            jailer_config: None,
            frck_export_path: None,
            socket_path: None,
            socket_retry: 3,
            lock_path: None,
            frck_bin: None,
            log_path: None,
            log_clear: None,
            metrics_path: None,
            metrics_clear: None,
            network_clear: None,
            seccomp_level: None,
            stdout_to: None,
            stderr_to: None,
            clear_jailer: None,
            poll_status_secs: 10,
        }
    }
}

/// What `HypervisorConfig::validate` decides. A given id must be at most 64
/// characters long. Then, with the jailer: its binary must be given and
/// exist, and the jailer configuration must be given and
/// pass its own check. Without it: a socket path must be given and not be
/// taken yet. Either way the Firecracker binary must be given and be an
/// existing regular file.
pub open spec fn hypervisor_config_outcome(c: HypervisorConfig, fs: Seq<PathStatus>) -> Outcome {
    if c.id matches Some(i) && i@.len() > 64 {
        Err((RtckErrorKind::Config, "Instance id longer than 64 characters"@))
    } else {
        hypervisor_paths_outcome(c, fs)
    }
}

/// The checks of a configuration's binaries, jailer and socket.
pub open spec fn hypervisor_paths_outcome(c: HypervisorConfig, fs: Seq<PathStatus>) -> Outcome {
    let first: Outcome = if c.using_jailer == Some(true) {
        match c.jailer_bin {
            None => Err((RtckErrorKind::Config, "Jailer binary path not configured"@)),
            Some(j) => if !probe(fs, j@).0 {
                Err((RtckErrorKind::Config, "Jailer binary path not configured"@))
            } else {
                match c.jailer_config {
                    None => Err((RtckErrorKind::Config, "No jailer config"@)),
                    Some(jc) => jailer_config_outcome(jc, fs),
                }
            },
        }
    } else {
        match c.socket_path {
            None => Err((RtckErrorKind::Config, "Socket path not configured"@)),
            Some(s) => if probe(fs, s@).0 {
                Err((RtckErrorKind::Config, "Socket path occupied"@))
            } else {
                Ok(())
            },
        }
    };
    match first {
        Err(e) => Err(e),
        Ok(()) => match c.frck_bin {
            None => Err((RtckErrorKind::Config, "Firecracker binary path not configured"@)),
            Some(f) => if !probe(fs, f@).0 || !probe(fs, f@).1 {
                Err((RtckErrorKind::Config, "Firecracker binary not found, provided path: "@ + path_debug(f@)))
            } else {
                Ok(())
            },
        },
    }
}

/// The paths that appear in an optional entry.
pub open spec fn opt_path(o: Option<String>) -> Seq<Seq<char>> {
    match o {
        Some(p) => seq![p@],
        None => Seq::empty(),
    }
}

/// The paths whose status the hypervisor check may consult.
pub open spec fn consulted_paths(c: HypervisorConfig) -> Seq<Seq<char>> {
    opt_path(c.jailer_bin) + match c.jailer_config {
        Some(jc) => opt_path(jc.exec_file) + opt_path(jc.jailer_bin),
        None => Seq::empty(),
    } + opt_path(c.socket_path) + opt_path(c.frck_bin)
}

fn push_opt(v: &mut Vec<String>, o: &Option<String>)
    ensures
        final(v)@.map_values(|s: String| s@) == old(v)@.map_values(|s: String| s@) + opt_path(*o),
{
    let ghost before = v@;
    if let Some(p) = o {
        v.push(p.clone());
        assert(v@.map_values(|s: String| s@) =~= before.map_values(|s: String| s@) + seq![p@]);
    } else {
        assert(v@.map_values(|s: String| s@) =~= before.map_values(|s: String| s@) + Seq::<Seq<char>>::empty());
    }
}

impl HypervisorConfig {
    /// The paths to look up before `validate` is called.
    pub fn paths_to_probe(&self) -> (v: Vec<String>)
        ensures
            v@.map_values(|s: String| s@) == consulted_paths(*self),
    {
        let mut v: Vec<String> = Vec::new();
        assert(v@.map_values(|s: String| s@) =~= Seq::<Seq<char>>::empty());
        push_opt(&mut v, &self.jailer_bin);
        match &self.jailer_config {
            Some(jc) => {
                push_opt(&mut v, &jc.exec_file);
                push_opt(&mut v, &jc.jailer_bin);
            },
            None => {},
        }
        push_opt(&mut v, &self.socket_path);
        push_opt(&mut v, &self.frck_bin);
        assert(v@.map_values(|s: String| s@) =~= consulted_paths(*self));
        v
    }

    /// Checks the hypervisor configuration against the looked-up file system.
    pub fn validate(&self, fs: &FsView) -> (r: Result<(), RtckError>)
        ensures
            outcome_of(r) == hypervisor_config_outcome(*self, fs.entries@),
    {
        if let Some(id) = &self.id {
            if id.unicode_len() > 64 {
                return Err(config_error("Instance id longer than 64 characters"));
            }
        }
        if self.using_jailer == Some(true) {
            match &self.jailer_bin {
                Some(path) => {
                    let (present, _) = fs.status(path);
                    if !present {
                        return Err(config_error("Jailer binary path not configured"));
                    }
                },
                None => {
                    return Err(config_error("Jailer binary path not configured"));
                },
            }
            match &self.jailer_config {
                None => {
                    return Err(config_error("No jailer config"));
                },
                Some(config) => {
                    let r = config.validate(fs);
                    if r.is_err() {
                        return r;
                    }
                },
            }
        } else {
            match &self.socket_path {
                None => {
                    return Err(config_error("Socket path not configured"));
                },
                Some(path) => {
                    let (present, _) = fs.status(path);
                    if present {
                        return Err(config_error("Socket path occupied"));
                    }
                },
            }
        }
        match &self.frck_bin {
            None => {
                return Err(config_error("Firecracker binary path not configured"));
            },
            Some(path) => {
                let (present, is_file) = fs.status(path);
                if !present || !is_file {
                    return Err(config_error_with_path("Firecracker binary not found, provided path: ", path));
                }
            },
        }
        Ok(())
    }
}

} // verus!
