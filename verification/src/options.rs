//! Command-line options of the Firecracker and jailer binaries.
use vstd::prelude::*;

verus! {

/// Options Firecracker can be launched with; each is left out when `None`.
#[derive(Debug)]
pub struct FirecrackerOption {
    /// Path to the API's Unix socket (Firecracker's default:
    /// `/run/firecracker.socket`).
    pub api_sock: Option<String>,
    /// Whether to load the boot timer device.
    pub boot_timer: Option<bool>,
    /// A file holding the microVM configuration as JSON.
    pub config_file: Option<String>,
    /// Print the data format version of the given snapshot state file.
    pub describe_snapshot: Option<bool>,
    /// Maximum payload of an API request, in bytes (default 51200).
    pub http_api_max_payload_size: Option<usize>,
    /// The microVM's id (default `anonymous-instance`).
    pub id: Option<String>,
    /// The logger level.
    pub level: Option<String>,
    /// A fifo or file for the logger.
    pub log_path: Option<String>,
    /// A JSON file of metadata to add to the metadata service.
    pub metadata: Option<String>,
    /// A fifo or file for the metrics.
    pub metrics_path: Option<String>,
    /// The metadata store's limit, in bytes.
    pub mmds_size_limit: Option<String>,
    /// The logger's module filter.
    pub module: Option<String>,
    /// Run without the API socket.
    pub no_api: Option<bool>,
    /// Run without seccomp filtering.
    pub no_seccomp: Option<bool>,
    /// The parent process's CPU time, in microseconds.
    pub parent_cpu_time_us: Option<usize>,
    /// A custom seccomp filter.
    pub seccomp_filter: Option<String>,
    /// Whether the level is shown in the logs.
    pub show_level: Option<bool>,
    /// Whether the origin of a log line is shown.
    pub show_log_origin: Option<bool>,
    /// The process's start CPU time, in microseconds.
    pub start_time_cpu_us: Option<usize>,
    /// The process's start time, in microseconds.
    pub start_time_us: Option<usize>,
}

impl FirecrackerOption {
    /// Options with nothing set.
    pub fn new() -> (o: Self)
        ensures
            o.api_sock is None && o.boot_timer is None && o.config_file is None
                && o.describe_snapshot is None && o.http_api_max_payload_size is None && o.id is None
                && o.level is None && o.log_path is None && o.metadata is None && o.metrics_path is None
                && o.mmds_size_limit is None && o.module is None && o.no_api is None
                && o.no_seccomp is None && o.parent_cpu_time_us is None && o.seccomp_filter is None
                && o.show_level is None && o.show_log_origin is None && o.start_time_cpu_us is None
                && o.start_time_us is None,
    {
        FirecrackerOption {
            api_sock: None,
            boot_timer: None,
            config_file: None,
            describe_snapshot: None,
            http_api_max_payload_size: None,
            id: None,
            level: None,
            log_path: None,
            metadata: None,
            metrics_path: None,
            mmds_size_limit: None,
            module: None,
            no_api: None,
            no_seccomp: None,
            parent_cpu_time_us: None,
            seccomp_filter: None,
            show_level: None,
            show_log_origin: None,
            start_time_cpu_us: None,
            start_time_us: None,
        }
    }
}

/// Options the jailer can be launched with; each is left out when `None`.
#[derive(Debug)]
pub struct JailerOption {
    /// The binary to exec into.
    pub exec_file: Option<String>,
    /// The group the jailer switches to after exec.
    pub gid: Option<usize>,
    /// The jail's id.
    pub id: Option<usize>,
    /// The user the jailer switches to after exec.
    pub uid: Option<usize>,
    /// A cgroup setting, `<cgroup_file>=<value>`.
    pub cgroup: Option<String>,
    /// The cgroup version (default 1).
    pub cgroup_version: Option<usize>,
    /// Where chroot jails are built (default `/srv/jailer`).
    pub chroot_base_dir: Option<String>,
    /// Whether to daemonize before exec.
    pub daemonize: Option<bool>,
    /// The network namespace to join.
    pub netns: Option<String>,
    /// Whether to exec into a new PID namespace.
    pub new_pid_ns: Option<bool>,
    /// The parent cgroup of this microVM's cgroup.
    pub parent_cgroup: Option<String>,
}

impl Default for JailerOption {
    /// Options with nothing set.
    fn default() -> (o: Self)
        ensures
            o.exec_file is None && o.gid is None && o.id is None && o.uid is None && o.cgroup is None
                && o.cgroup_version is None && o.chroot_base_dir is None && o.daemonize is None
                && o.netns is None && o.new_pid_ns is None && o.parent_cgroup is None,
    {
        JailerOption {
            exec_file: None,
            gid: None,
            id: None,
            uid: None,
            cgroup: None,
            cgroup_version: None,
            chroot_base_dir: None,
            daemonize: None,
            netns: None,
            new_pid_ns: None,
            parent_cgroup: None,
        }
    }
}

} // verus!
