//! How a machine is launched: the command that starts Firecracker, directly
//! or under the jailer, the socket path it is reached at, and the files that
//! are hard linked into the jail. Spawning, opening the standard streams and
//! linking are done by the caller, in the order these plans give.
use vstd::prelude::*;
use vstd::string::*;
use crate::command_builder::{JailerCommandBuilder, VMMCommandBuilder};
use crate::handler::{adapted, Handlers};
use crate::jailer::{instance_dir_of, opt_view, push_str_arg, push_string_arg, views};
use crate::machine::{
    duplicate_stdio, machine_err_view, Drive, MachineConfig, MachineError, MachineErrorKind,
    MachineJailerConfig, StdioTypes,
};
use crate::paths::{file_name, join, lemma_join_last, lemma_join_lies_below, lies_below, path_file_name, path_join};
use crate::text::{decimal, decimal_string};

verus! {

/// The chroot base directory, `/srv/jailer` when none is set.
pub open spec fn base_or_default(o: Option<String>) -> Seq<char> {
    match o {
        Some(b) => b@,
        None => "/srv/jailer"@,
    }
}

/// The jail's root: `<chroot base>/<exec file name>/<id>/root`.
pub open spec fn jail_workspace(j: MachineJailerConfig, exec_name: Seq<char>) -> Seq<char> {
    join(instance_dir_of(base_or_default(j.chroot_base_dir), exec_name, j.id->0@), "root"@)
}

/// The command a machine is started with.
#[derive(Debug)]
pub enum LaunchCommand {
    /// Firecracker run directly.
    Vmm(VMMCommandBuilder),
    /// Firecracker run under the jailer, with the standard streams to open
    /// (`None`: inherited).
    Jailer {
        builder: JailerCommandBuilder,
        stdout: Option<StdioTypes>,
        stderr: Option<StdioTypes>,
        stdin: Option<StdioTypes>,
    },
}

/// The entries `machine_jail` takes as given: the socket path and VM id
/// without the jailer; with it, once the socket path is known, the exec file,
/// and once that has a file name, the id, uid, gid, NUMA node and daemonize
/// flag.
pub open spec fn machine_jail_defined(c: MachineConfig) -> bool {
    if !c.enable_jailer {
        c.socket_path is Some && c.vmid is Some
    } else {
        match c.jailer_cfg {
            None => true,
            Some(j) => c.socket_path is None || (j.exec_file is Some && (path_file_name(j.exec_file->0@) is Some ==> (
                j.id is Some && j.uid is Some && j.gid is Some && j.numa_node is Some && j.daemonize is Some))),
        }
    }
}

/// The error `machine_jail` returns, if any: with the jailer, a missing
/// jailer configuration, a missing socket path, or an exec file without a
/// file name.
pub open spec fn machine_jail_error(c: MachineConfig) -> Option<(MachineErrorKind, Seq<char>)> {
    if !c.enable_jailer {
        None
    } else {
        match c.jailer_cfg {
            None => Some((MachineErrorKind::Initialize, "jailer config was not set for use"@)),
            Some(j) => if c.socket_path is None {
                Some((MachineErrorKind::ArgWrong, "No socket_path provided"@))
            } else if path_file_name(j.exec_file->0@) is None {
                Some((MachineErrorKind::ArgWrong, "malformed firecracker exec file name"@))
            } else {
                None
            },
        }
    }
}

/// What `machine_jail` gives back when it succeeds. Without the jailer: the
/// configuration unchanged, and `firecracker` run on the socket with the
/// seccomp level (0 when unset) and the VM id. With it: the socket path moved
/// into the jail, and the jailer run with the configured entries, the chroot
/// base (default `/srv/jailer`), the network namespace, and Firecracker's
/// socket argument after `--`.
pub open spec fn machine_jailed(c: MachineConfig, c2: MachineConfig, cmd: LaunchCommand) -> bool {
    if !c.enable_jailer {
        &&& c2 == c
        &&& cmd matches LaunchCommand::Vmm(b)
        &&& opt_view(b.bin) == Some("firecracker"@)
        &&& opt_view(b.socket_path) == opt_view(c.socket_path)
        &&& b.args matches Some(a) && views(a@) == seq![
            "--seccomp-level"@,
            decimal((match c.seccomp_level { Some(l) => l, None => 0usize }) as nat),
            "--id"@,
            c.vmid->0@,
        ]
    } else {
        let j = c.jailer_cfg->0;
        let ws = jail_workspace(j, path_file_name(j.exec_file->0@)->0);
        &&& c2 == (MachineConfig { socket_path: c2.socket_path, ..c })
        &&& opt_view(c2.socket_path) == Some(join(ws, c.socket_path->0@))
        &&& cmd matches LaunchCommand::Jailer { builder, stdout, stderr, stdin }
        &&& stdout == j.stdout && stderr == j.stderr && stdin == j.stdin
        &&& builder.bin@ == match j.jailer_binary {
            Some(b) => b@,
            None => "jailer"@,
        }
        &&& builder.id == j.id->0 && builder.uid == j.uid->0 && builder.gid == j.gid->0
        &&& builder.node == j.numa_node->0 && builder.exec_file == j.exec_file->0
        &&& opt_view(builder.chroot_base_dir) == Some(base_or_default(j.chroot_base_dir))
        &&& builder.daemonize == j.daemonize
        &&& opt_view(builder.net_ns) == opt_view(c.net_ns)
        &&& builder.firecracker_args matches Some(a) && views(a@) == seq!["--api-sock"@, c.socket_path->0@]
    }
}

fn base_dir(o: &Option<String>) -> (b: String)
    ensures
        b@ == base_or_default(*o),
{
    match o {
        Some(b) => b.clone(),
        None => String::from_str("/srv/jailer"),
    }
}

fn workspace_of(base: &String, exec_name: &String, id: &String) -> (w: String)
    ensures
        w@ == join(instance_dir_of(base@, exec_name@, id@), "root"@),
{
    let d = path_join(base.as_str(), exec_name.as_str());
    let d = path_join(d.as_str(), id.as_str());
    path_join(d.as_str(), "root")
}

/// Prepares the command that starts a machine, and the configuration it runs
/// with: Firecracker directly, or under the jailer with the socket path moved
/// into the jail.
pub fn machine_jail(cfg: MachineConfig) -> (r: Result<(MachineConfig, LaunchCommand), MachineError>)
    requires
        machine_jail_defined(cfg),
    ensures
        match machine_jail_error(cfg) {
            Some(e) => r matches Err(x) && machine_err_view(x) == e,
            None => r matches Ok((c2, cmd)) && machine_jailed(cfg, c2, cmd),
        },
{
    if !cfg.enable_jailer {
        let socket = match &cfg.socket_path {
            Some(s) => s,
            None => {
                return Err(MachineError::ArgWrong(String::from_str("No socket_path provided")));
            },
        };
        let vmid = match &cfg.vmid {
            Some(v) => v.clone(),
            None => {
                return Err(MachineError::ArgWrong(String::from_str("No vmid provided")));
            },
        };
        let level: usize = match cfg.seccomp_level {
            Some(l) => l,
            None => 0,
        };
        let mut args: Vec<String> = Vec::new();
        push_str_arg(&mut args, "--seccomp-level");
        push_string_arg(&mut args, decimal_string(level as u64));
        push_str_arg(&mut args, "--id");
        push_string_arg(&mut args, vmid);
        let b0 = VMMCommandBuilder::default();
        assert(opt_view(b0.bin) == Some("firecracker"@));
        let b1 = b0.with_socket_path(socket);
        assert(opt_view(b1.socket_path) == opt_view(cfg.socket_path));
        let b = b1.with_args(args);
        assert(b.args matches Some(a) && views(a@) == seq![
            "--seccomp-level"@,
            decimal((match cfg.seccomp_level { Some(l) => l, None => 0usize }) as nat),
            "--id"@,
            cfg.vmid->0@,
        ]);
        return Ok((cfg, LaunchCommand::Vmm(b)));
    }
    let j = match &cfg.jailer_cfg {
        None => {
            return Err(MachineError::Initialize(String::from_str("jailer config was not set for use")));
        },
        Some(j) => j,
    };
    let socket = match &cfg.socket_path {
        None => {
            return Err(MachineError::ArgWrong(String::from_str("No socket_path provided")));
        },
        Some(s) => s,
    };
    let exec = match &j.exec_file {
        Some(e) => e,
        None => {
            return Err(MachineError::ArgWrong(String::from_str("No exec file provided")));
        },
    };
    let name = match file_name(exec.as_str()) {
        None => {
            return Err(MachineError::ArgWrong(String::from_str("malformed firecracker exec file name")));
        },
        Some(n) => n,
    };
    let (id, uid, gid, node, daemonize) = match (&j.id, j.uid, j.gid, j.numa_node, j.daemonize) {
        (Some(id), Some(uid), Some(gid), Some(node), Some(d)) => (id, uid, gid, node, d),
        _ => {
            return Err(MachineError::ArgWrong(String::from_str("incomplete jailer config")));
        },
    };
    let base = base_dir(&j.chroot_base_dir);
    let ws = workspace_of(&base, &name, id);
    let new_socket = path_join(ws.as_str(), socket.as_str());
    let mut fc_args: Vec<String> = Vec::new();
    push_str_arg(&mut fc_args, "--api-sock");
    push_string_arg(&mut fc_args, socket.clone());
    let mut builder = JailerCommandBuilder::new()
        .with_id(id)
        .with_uid(&uid)
        .with_gid(&gid)
        .with_numa_node(&node)
        .with_exec_file(exec.clone())
        .with_chroot_base_dir(base)
        .with_daemonize(&daemonize)
        .with_firecracker_args(fc_args);
    if let Some(jb) = &j.jailer_binary {
        builder = builder.with_bin(jb.clone());
    }
    if let Some(ns) = &cfg.net_ns {
        builder = builder.with_net_ns(ns.clone());
    }
    let stdout = duplicate_stdio(&j.stdout);
    let stderr = duplicate_stdio(&j.stderr);
    let stdin = duplicate_stdio(&j.stdin);
    assert(builder.bin@ == match j.jailer_binary {
            Some(b) => b@,
            None => "jailer"@,
        });
    assert(opt_view(builder.chroot_base_dir) == Some(base_or_default(j.chroot_base_dir)));
    assert(builder.firecracker_args matches Some(a) && views(a@) == seq!["--api-sock"@, cfg.socket_path->0@]);
    assert(new_socket@ == join(jail_workspace(*j, path_file_name(j.exec_file->0@)->0), cfg.socket_path->0@));
    let c2 = MachineConfig { socket_path: Some(new_socket), ..cfg };
    Ok((c2, LaunchCommand::Jailer { builder, stdout, stderr, stdin }))
}

/// A command to spawn: the program, its arguments, and where its standard
/// streams go.
#[derive(Debug)]
pub struct JailerLaunch {
    pub program: String,
    pub args: Vec<String>,
    pub stdout: StdioTypes,
    pub stderr: StdioTypes,
    pub stdin: StdioTypes,
}

/// The stream choice for the jailer's stdout: the configured one, else the
/// parent's.
pub open spec fn stdout_choice(j: MachineJailerConfig) -> StdioTypes {
    match j.stdout {
        Some(s) => s,
        None => StdioTypes::Inherit,
    }
}

/// The stream choice for stderr or stdin: once one is configured at all, it
/// takes the stdout choice; otherwise the parent's stream.
pub open spec fn follows_stdout(o: Option<StdioTypes>, j: MachineJailerConfig) -> StdioTypes {
    if o is Some {
        stdout_choice(j)
    } else {
        StdioTypes::Inherit
    }
}

/// The entries `jail_command` takes as given once a jailer configuration
/// is: the exec file, and once that has a file name, the id, uid, gid, NUMA
/// node, daemonize flag and seccomp level.
pub open spec fn jail_command_defined(c: MachineConfig) -> bool {
    match c.jailer_cfg {
        None => true,
        Some(j) => j.exec_file is Some && (path_file_name(j.exec_file->0@) is Some ==> (
            j.id is Some && j.uid is Some && j.gid is Some && j.numa_node is Some && j.daemonize is Some
                && c.seccomp_level is Some)),
    }
}

/// The socket Firecracker is told to use: the configured one, else
/// `/run/firecracker.socket`.
pub open spec fn socket_or_default(o: Option<String>) -> Seq<char> {
    match o {
        Some(s) => s@,
        None => "/run/firecracker.socket"@,
    }
}

/// The jailer's arguments in `jail_command`: id, uid, gid, exec file, NUMA
/// node and chroot base; the network namespace when set; `--daemonize` when
/// asked for; then, after `--`, Firecracker's seccomp level and socket.
pub open spec fn jail_command_args(c: MachineConfig, j: MachineJailerConfig) -> Seq<Seq<char>> {
    seq!["--id"@, j.id->0@, "--uid"@, decimal(j.uid->0 as nat), "--gid"@, decimal(j.gid->0 as nat),
        "--exec-file"@, j.exec_file->0@, "--node"@, decimal(j.numa_node->0 as nat),
        "--chroot-base-dir"@, base_or_default(j.chroot_base_dir)]
        + match c.net_ns {
            Some(n) => seq!["--netns"@, n@],
            None => Seq::empty(),
        }
        + (if j.daemonize->0 { seq!["--daemonize"@] } else { Seq::empty() })
        + seq!["--"@, "--seccomp-level"@, decimal(c.seccomp_level->0 as nat), "--api-sock"@, socket_or_default(c.socket_path)]
}

/// Prepares the jailer command of a machine with a chroot strategy: fails
/// without a jailer configuration, or when the exec file has no file name;
/// otherwise runs the configured jailer binary (default `jailer`) with
/// `jail_command_args`. Stdout goes where configured; stderr and stdin, once
/// configured, follow stdout's choice.
pub fn jail_command(cfg: &MachineConfig) -> (r: Result<JailerLaunch, MachineError>)
    requires
        jail_command_defined(*cfg),
    ensures
        match cfg.jailer_cfg {
            None => r matches Err(e) && machine_err_view(e) == (MachineErrorKind::Initialize, "jailer config was not set for use"@),
            Some(j) => match path_file_name(j.exec_file->0@) {
                None => r matches Err(e) && machine_err_view(e) == (MachineErrorKind::FileError, "malformed firecracker exec file name"@),
                Some(_) => r matches Ok(l) && l.program@ == match j.jailer_binary {
                        Some(b) => b@,
                        None => "jailer"@,
                    } && views(l.args@) == jail_command_args(*cfg, j)
                    && l.stdout == stdout_choice(j)
                    && l.stderr == follows_stdout(j.stderr, j)
                    && l.stdin == follows_stdout(j.stdin, j),
            },
        },
{
    let j = match &cfg.jailer_cfg {
        None => {
            return Err(MachineError::Initialize(String::from_str("jailer config was not set for use")));
        },
        Some(j) => j,
    };
    let exec = match &j.exec_file {
        Some(e) => e,
        None => {
            return Err(MachineError::FileError(String::from_str("No exec file provided")));
        },
    };
    if file_name(exec.as_str()).is_none() {
        return Err(MachineError::FileError(String::from_str("malformed firecracker exec file name")));
    }
    let (id, uid, gid, node, daemonize, level) = match (&j.id, j.uid, j.gid, j.numa_node, j.daemonize, cfg.seccomp_level) {
        (Some(id), Some(uid), Some(gid), Some(node), Some(d), Some(l)) => (id, uid, gid, node, d, l),
        _ => {
            return Err(MachineError::FileError(String::from_str("incomplete jailer config")));
        },
    };
    let socket = match &cfg.socket_path {
        Some(s) => s.clone(),
        None => String::from_str("/run/firecracker.socket"),
    };
    let mut fc_args: Vec<String> = Vec::new();
    push_str_arg(&mut fc_args, "--seccomp-level");
    push_string_arg(&mut fc_args, decimal_string(level as u64));
    push_str_arg(&mut fc_args, "--api-sock");
    push_string_arg(&mut fc_args, socket);
    let mut builder = crate::jailer_command::JailerCommandBuilder::new()
        .with_id(id)
        .with_uid(&uid)
        .with_gid(&gid)
        .with_numa_node(&node)
        .with_exec_file(exec.clone())
        .with_chroot_base_dir(base_dir(&j.chroot_base_dir))
        .with_daemonize(&daemonize)
        .with_firecracker_args(fc_args);
    if let Some(jb) = &j.jailer_binary {
        builder = builder.with_bin(jb.clone());
    }
    if let Some(ns) = &cfg.net_ns {
        builder = builder.with_net_ns(ns.clone());
    }
    let args = builder.args();
    assert(views(args@) =~= jail_command_args(*cfg, *j));
    let program = builder.bin();
    proof {
        reveal_strlit("jailer");
    }
    let stdout = match &j.stdout {
        Some(s) => s.duplicate(),
        None => StdioTypes::Inherit,
    };
    let stderr = if j.stderr.is_some() { stdout.duplicate() } else { StdioTypes::Inherit };
    let stdin = if j.stdin.is_some() { stdout.duplicate() } else { StdioTypes::Inherit };
    Ok(JailerLaunch { program, args, stdout, stderr, stdin })
}

/// Adapts the handlers to the jailer's chroot strategy once the jailer
/// command is prepared: fails when no strategy is set, leaving the handlers
/// as they are.
pub fn apply_chroot_strategy(j: &MachineJailerConfig, handlers: &mut Handlers) -> (r: Result<(), MachineError>)
    ensures
        match j.chroot_strategy {
            None => r matches Err(e) && machine_err_view(e) == (MachineErrorKind::Initialize, "chroot strategy was not set for use"@)
                && *final(handlers) == *old(handlers),
            Some(s) => adapted(s, *old(handlers), *final(handlers), r),
        },
{
    match &j.chroot_strategy {
        None => Err(MachineError::Initialize(String::from_str("chroot strategy was not set for use"))),
        Some(s) => s.adapt_handlers(handlers),
    }
}

/// A hard link to make: `src` linked at `dest`, then handed to the owner
/// (uid, gid) when one is given.
#[derive(Debug)]
pub struct HardLink {
    pub src: String,
    pub dest: String,
    pub owner: Option<(u32, u32)>,
}

/// A hard link as text.
pub type LinkView = (Seq<char>, Seq<char>, Option<(u32, u32)>);

/// The view of a hard link.
pub open spec fn link_view(l: HardLink) -> LinkView {
    (l.src@, l.dest@, l.owner)
}

/// What linking files into the jail comes to: the links to make, in order;
/// the error to return once they are made, if a path turned out to have no
/// file name; and the configuration as it stands after them.
#[derive(Debug)]
pub struct LinkPlan {
    pub links: Vec<HardLink>,
    pub failure: Option<MachineError>,
    pub config: MachineConfig,
}

/// The index of the first drive whose backing file has no file name, or the
/// number of drives.
pub open spec fn first_unnamed(ds: Seq<Drive>) -> nat
    decreases ds.len(),
{
    if ds.len() == 0 {
        0
    } else if path_file_name(ds[0].path_on_host@) is None {
        0
    } else {
        1 + first_unnamed(ds.drop_first())
    }
}

/// `first_unnamed` is the index `i` below which every drive is named and at
/// which a drive is unnamed or the drives end.
pub proof fn lemma_first_unnamed(ds: Seq<Drive>, i: int)
    requires
        0 <= i <= ds.len(),
        forall|j: int| 0 <= j < i ==> path_file_name((#[trigger] ds[j]).path_on_host@) is Some,
        i == ds.len() || path_file_name(ds[i].path_on_host@) is None,
    ensures
        first_unnamed(ds) == i,
    decreases ds.len(),
{
    if ds.len() > 0 && i > 0 {
        assert(path_file_name(ds[0].path_on_host@) is Some);
        assert forall|j: int| 0 <= j < i - 1 implies path_file_name((#[trigger] ds.drop_first()[j]).path_on_host@) is Some by {
            assert(ds.drop_first()[j] == ds[j + 1]);
        }
        lemma_first_unnamed(ds.drop_first(), i - 1);
    }
}

/// The file name of an optional path's path.
pub open spec fn name_of(o: Option<String>) -> Option<Seq<char>> {
    path_file_name(o->0@)
}

/// The jail's root as `link_files` computes it.
pub open spec fn link_rootfs(c: MachineConfig) -> Seq<char> {
    let j = c.jailer_cfg->0;
    jail_workspace(j, name_of(j.exec_file)->0)
}

/// Linking reaches the kernel image: the jailer is used and its exec file
/// has a file name.
pub open spec fn reaches_kernel(c: MachineConfig) -> bool {
    c.enable_jailer && name_of(c.jailer_cfg->0.exec_file) is Some
}

/// Linking reaches the initrd image: the kernel image has a file name.
pub open spec fn reaches_initrd(c: MachineConfig) -> bool {
    reaches_kernel(c) && name_of(c.kernel_image_path) is Some
}

/// Linking reaches the drives: no initrd image, or one with a file name.
pub open spec fn reaches_drives(c: MachineConfig) -> bool {
    reaches_initrd(c) && (c.initrd_path is None || name_of(c.initrd_path) is Some)
}

/// Linking reaches the log fifo: every drive's file has a file name.
pub open spec fn reaches_log(c: MachineConfig) -> bool {
    reaches_drives(c) && first_unnamed(c.drives->0@) == c.drives->0@.len()
}

/// Linking reaches the metrics fifo: no log fifo, or one with a file name.
pub open spec fn reaches_metrics(c: MachineConfig) -> bool {
    reaches_log(c) && (c.log_fifo is None || name_of(c.log_fifo) is Some)
}

/// Linking gets through: no metrics fifo, or one with a file name.
pub open spec fn links_all(c: MachineConfig) -> bool {
    reaches_metrics(c) && (c.metrics_fifo is None || name_of(c.metrics_fifo) is Some)
}

/// The entries `link_files` takes as given where it reaches them: the jailer
/// configuration and its exec file; the id and kernel image once the exec
/// file is named; the drive list once the drives are reached; the uid and
/// gid once a fifo is linked.
pub open spec fn link_files_defined(c: MachineConfig) -> bool {
    c.enable_jailer ==> {
        &&& c.jailer_cfg is Some && c.jailer_cfg->0.exec_file is Some
        &&& reaches_kernel(c) ==> c.jailer_cfg->0.id is Some && c.kernel_image_path is Some
        &&& reaches_drives(c) ==> c.drives is Some
        &&& (reaches_metrics(c) && c.log_fifo is Some) || (links_all(c) && c.metrics_fifo is Some)
            ==> c.jailer_cfg->0.uid is Some && c.jailer_cfg->0.gid is Some
    }
}

/// The link of a named file into the jail's root.
pub open spec fn named_link(rootfs: Seq<char>, p: Seq<char>, owner: Option<(u32, u32)>) -> LinkView {
    (p, join(rootfs, path_file_name(p)->0), owner)
}

/// The links `link_files` makes, in order: the kernel image, the initrd
/// image, the drives' files up to the first unnamed one, then the log and
/// metrics fifos (handed to the jailer's uid and gid), each as far as
/// linking reaches.
pub open spec fn planned_links(c: MachineConfig) -> Seq<LinkView> {
    let r = link_rootfs(c);
    let owner = Some((c.jailer_cfg->0.uid->0, c.jailer_cfg->0.gid->0));
    let ds = c.drives->0@;
    (if reaches_initrd(c) { seq![named_link(r, c.kernel_image_path->0@, None)] } else { Seq::empty() })
        + (if reaches_drives(c) && c.initrd_path is Some { seq![named_link(r, c.initrd_path->0@, None)] } else { Seq::empty() })
        + (if reaches_drives(c) {
            Seq::new(first_unnamed(ds), |i: int| named_link(r, ds[i].path_on_host@, None))
        } else {
            Seq::empty()
        })
        + (if reaches_metrics(c) && c.log_fifo is Some { seq![named_link(r, c.log_fifo->0@, owner)] } else { Seq::empty() })
        + (if links_all(c) && c.metrics_fifo is Some { seq![named_link(r, c.metrics_fifo->0@, owner)] } else { Seq::empty() })
}

/// The error `link_files` ends with, if any: the first path met without a
/// file name.
pub open spec fn link_failure(c: MachineConfig) -> Option<(MachineErrorKind, Seq<char>)> {
    if !c.enable_jailer {
        None
    } else if !reaches_kernel(c) {
        Some((MachineErrorKind::ArgWrong, "malformed firecracker exec file name"@))
    } else if !reaches_initrd(c) {
        Some((MachineErrorKind::ArgWrong, "malformed kernel image path"@))
    } else if !reaches_drives(c) {
        Some((MachineErrorKind::ArgWrong, "malformed initrd path"@))
    } else if !reaches_log(c) {
        Some((MachineErrorKind::ArgWrong, "malformed drive file name"@))
    } else if !links_all(c) {
        Some((MachineErrorKind::ArgWrong, "malformed fifo path"@))
    } else {
        None
    }
}

/// How the drives stand after linking: those linked are backed by their
/// file name (inside the jail's root), the others are unchanged.
pub open spec fn drives_renamed(before: Seq<Drive>, after: Seq<Drive>) -> bool {
    &&& after.len() == before.len()
    &&& forall|i: int| 0 <= i < after.len() ==> {
        &&& (#[trigger] after[i]) == (Drive { path_on_host: after[i].path_on_host, ..before[i] })
        &&& if i < first_unnamed(before) {
            Some(after[i].path_on_host@) == path_file_name(before[i].path_on_host@)
        } else {
            after[i] == before[i]
        }
    }
}

/// How the configuration stands after linking: each linked file is known by
/// its file name inside the jail's root; a linked fifo's original path and
/// its link are recorded in the jailer configuration. Nothing else changes.
pub open spec fn linked_config(c: MachineConfig, c2: MachineConfig) -> bool {
    let r = link_rootfs(c);
    &&& c2 == (MachineConfig {
        kernel_image_path: c2.kernel_image_path,
        initrd_path: c2.initrd_path,
        drives: c2.drives,
        log_fifo: c2.log_fifo,
        metrics_fifo: c2.metrics_fifo,
        jailer_cfg: c2.jailer_cfg,
        ..c
    })
    &&& if reaches_initrd(c) {
        opt_view(c2.kernel_image_path) == name_of(c.kernel_image_path)
    } else {
        c2.kernel_image_path == c.kernel_image_path
    }
    &&& if reaches_drives(c) && c.initrd_path is Some {
        opt_view(c2.initrd_path) == name_of(c.initrd_path)
    } else {
        c2.initrd_path == c.initrd_path
    }
    &&& if reaches_drives(c) {
        c2.drives is Some && drives_renamed(c.drives->0@, c2.drives->0@)
    } else {
        c2.drives == c.drives
    }
    &&& if c.enable_jailer {
        let j = c.jailer_cfg->0;
        let j2 = c2.jailer_cfg->0;
        &&& c2.jailer_cfg is Some
        &&& j2 == (MachineJailerConfig {
            log_link_src: j2.log_link_src,
            log_link_dest: j2.log_link_dest,
            metrics_link_src: j2.metrics_link_src,
            metrics_link_dest: j2.metrics_link_dest,
            ..j
        })
        &&& if reaches_metrics(c) && c.log_fifo is Some {
            &&& j2.log_link_src == c.log_fifo
            &&& opt_view(j2.log_link_dest) == Some(join(r, name_of(c.log_fifo)->0))
            &&& opt_view(c2.log_fifo) == name_of(c.log_fifo)
        } else {
            j2.log_link_src == j.log_link_src && j2.log_link_dest == j.log_link_dest && c2.log_fifo == c.log_fifo
        }
        &&& if links_all(c) && c.metrics_fifo is Some {
            &&& j2.metrics_link_src == c.metrics_fifo
            &&& opt_view(j2.metrics_link_dest) == Some(join(r, name_of(c.metrics_fifo)->0))
            &&& opt_view(c2.metrics_fifo) == name_of(c.metrics_fifo)
        } else {
            j2.metrics_link_src == j.metrics_link_src && j2.metrics_link_dest == j.metrics_link_dest
                && c2.metrics_fifo == c.metrics_fifo
        }
    } else {
        c2 == c
    }
}

/// Whether every link's destination lies below the jail's root.
pub open spec fn links_below(rootfs: Seq<char>, ls: Seq<LinkView>) -> bool {
    forall|i: int| 0 <= i < ls.len() ==> lies_below(rootfs, #[trigger] ls[i].1)
}

/// The views of a list of hard links.
pub open spec fn link_views(s: Seq<HardLink>) -> Seq<LinkView> {
    s.map_values(|l: HardLink| link_view(l))
}

fn push_link(links: &mut Vec<HardLink>, src: String, dest: String, owner: Option<(u32, u32)>)
    ensures
        link_views(final(links)@) == link_views(old(links)@).push((src@, dest@, owner)),
{
    let ghost before = links@;
    links.push(HardLink { src, dest, owner });
    assert(link_views(links@) =~= link_views(before).push((src@, dest@, owner)));
}

fn first_unnamed_index(ds: &Vec<Drive>) -> (k: usize)
    ensures
        k == first_unnamed(ds@),
{
    let mut i: usize = 0;
    while i < ds.len()
        invariant
            i <= ds@.len(),
            forall|j: int| 0 <= j < i ==> path_file_name((#[trigger] ds@[j]).path_on_host@) is Some,
        decreases ds@.len() - i,
    {
        if file_name(ds[i].path_on_host.as_str()).is_none() {
            proof {
                lemma_first_unnamed(ds@, i as int);
            }
            return i;
        }
        i = i + 1;
    }
    proof {
        lemma_first_unnamed(ds@, i as int);
    }
    i
}

fn link_drives(ds: &Vec<Drive>, rootfs: &String, links: &mut Vec<HardLink>) -> (r: (Vec<Drive>, bool))
    requires
        rootfs@.len() > 0,
        rootfs@.last() != '/',
        links_below(rootfs@, link_views(old(links)@)),
    ensures
        links_below(rootfs@, link_views(final(links)@)),
        link_views(final(links)@) == link_views(old(links)@)
            + Seq::new(first_unnamed(ds@), |i: int| named_link(rootfs@, ds@[i].path_on_host@, None)),
        drives_renamed(ds@, r.0@),
        r.1 == (first_unnamed(ds@) == ds@.len()),
{
    let k = first_unnamed_index(ds);
    proof {
        lemma_first_unnamed_bounds(ds@);
    }
    let ghost before = link_views(links@);
    let mut out: Vec<Drive> = Vec::new();
    let mut i: usize = 0;
    while i < ds.len()
        invariant
            i <= ds@.len(),
            k == first_unnamed(ds@),
            k <= ds@.len(),
            forall|j: int| 0 <= j < k ==> path_file_name((#[trigger] ds@[j]).path_on_host@) is Some,
            out@.len() == i,
            link_views(links@) == before + Seq::new(if i < k { i as nat } else { k as nat }, |j: int| named_link(rootfs@, ds@[j].path_on_host@, None)),
            rootfs@.len() > 0,
            rootfs@.last() != '/',
            links_below(rootfs@, link_views(links@)),
            forall|j: int| 0 <= j < i ==> {
                &&& (#[trigger] out@[j]) == (Drive { path_on_host: out@[j].path_on_host, ..ds@[j] })
                &&& if j < k {
                    Some(out@[j].path_on_host@) == path_file_name(ds@[j].path_on_host@)
                } else {
                    out@[j] == ds@[j]
                }
            },
        decreases ds@.len() - i,
    {
        if i < k {
            let n = match file_name(ds[i].path_on_host.as_str()) {
                Some(n) => n,
                None => String::new(),
            };
            let ghost mid = link_views(links@);
            proof {
                lemma_join_lies_below(rootfs@, n@);
            }
            push_link(links, ds[i].path_on_host.clone(), path_join(rootfs.as_str(), n.as_str()), None);
            assert(link_views(links@) =~= before + Seq::new((i + 1) as nat, |j: int| named_link(rootfs@, ds@[j].path_on_host@, None)));
            out.push(ds[i].with_path(n));
        } else {
            out.push(ds[i].duplicate());
        }
        i = i + 1;
    }
    (out, k == ds.len())
}

/// `first_unnamed` stays within the drives, every drive before it is named,
/// and the drive at it (if any) is not.
pub proof fn lemma_first_unnamed_bounds(ds: Seq<Drive>)
    ensures
        first_unnamed(ds) <= ds.len(),
        forall|j: int| 0 <= j < first_unnamed(ds) ==> path_file_name((#[trigger] ds[j]).path_on_host@) is Some,
        first_unnamed(ds) < ds.len() ==> path_file_name(ds[first_unnamed(ds) as int].path_on_host@) is None,
    decreases ds.len(),
{
    if ds.len() > 0 && path_file_name(ds[0].path_on_host@) is Some {
        lemma_first_unnamed_bounds(ds.drop_first());
        assert forall|j: int| 0 <= j < first_unnamed(ds) implies path_file_name((#[trigger] ds[j]).path_on_host@) is Some by {
            if j > 0 {
                assert(ds[j] == ds.drop_first()[j - 1]);
            }
        }
        if first_unnamed(ds) < ds.len() {
            assert(ds[first_unnamed(ds) as int] == ds.drop_first()[first_unnamed(ds.drop_first()) as int]);
        }
    }
}

fn arg_wrong(msg: &str) -> (e: MachineError)
    ensures
        machine_err_view(e) == (MachineErrorKind::ArgWrong, msg@),
{
    MachineError::ArgWrong(String::from_str(msg))
}

fn copy_opt(o: &Option<String>) -> (r: Option<String>)
    ensures
        r == *o,
{
    match o {
        Some(s) => Some(s.clone()),
        None => None,
    }
}

/// Plans hard linking the machine's files into the jail's root
/// (`<chroot base>/<exec file name>/<id>/root`): the kernel image, the
/// initrd image, the drives' files, and the log and metrics fifos, which are
/// then handed to the jailer's uid and gid. Each is afterwards known by its
/// file name. Nothing is linked without the jailer. Where a path has no file
/// name, the links before it are still made and the plan ends in an error.
pub fn link_files(cfg: MachineConfig) -> (p: LinkPlan)
    requires
        link_files_defined(cfg),
    ensures
        link_views(p.links@) == planned_links(cfg),
        match link_failure(cfg) {
            None => p.failure is None,
            Some(e) => p.failure matches Some(x) && machine_err_view(x) == e,
        },
        linked_config(cfg, p.config),
        links_below(link_rootfs(cfg), link_views(p.links@)),
{
    let mut links: Vec<HardLink> = Vec::new();
    assert(link_views(links@) =~= Seq::<LinkView>::empty());
    if !cfg.enable_jailer {
        return LinkPlan { links, failure: None, config: cfg };
    }
    let ghost c0 = cfg;
    let mut rootfs = String::new();
    let mut owner: Option<(u32, u32)> = None;
    let mut exec_named = false;
    if let Some(j) = &cfg.jailer_cfg {
        if let Some(exec) = &j.exec_file {
            if let Some(name) = file_name(exec.as_str()) {
                exec_named = true;
                if let Some(id) = &j.id {
                    let base = base_dir(&j.chroot_base_dir);
                    rootfs = workspace_of(&base, &name, id);
                }
            }
        }
        if let (Some(u), Some(g)) = (j.uid, j.gid) {
            owner = Some((u, g));
        }
    }
    if !exec_named {
        return LinkPlan { links, failure: Some(arg_wrong("malformed firecracker exec file name")), config: cfg };
    }
    assert(rootfs@ == link_rootfs(c0));
    proof {
        reveal_strlit("root");
        lemma_join_last(join(base_or_default(c0.jailer_cfg->0.chroot_base_dir), name_of(c0.jailer_cfg->0.exec_file)->0), "root"@);
    }
    let kpath = copy_opt(&cfg.kernel_image_path);
    let kname = match &kpath {
        Some(k) => file_name(k.as_str()),
        None => None,
    };
    let kname = match kname {
        None => {
            return LinkPlan { links, failure: Some(arg_wrong("malformed kernel image path")), config: cfg };
        },
        Some(n) => n,
    };
    let mut c = cfg;
    proof {
        lemma_join_lies_below(rootfs@, kname@);
    }
    match kpath {
        Some(k) => push_link(&mut links, k, path_join(rootfs.as_str(), kname.as_str()), None),
        None => {},
    }
    c.kernel_image_path = Some(kname);
    assert(link_views(links@) =~= seq![named_link(rootfs@, c0.kernel_image_path->0@, None)]);
    let ipath = copy_opt(&c.initrd_path);
    if let Some(ip) = ipath {
        match file_name(ip.as_str()) {
            None => {
                return LinkPlan { links, failure: Some(arg_wrong("malformed initrd path")), config: c };
            },
            Some(n) => {
                proof {
                    lemma_join_lies_below(rootfs@, n@);
                }
                push_link(&mut links, ip, path_join(rootfs.as_str(), n.as_str()), None);
                c.initrd_path = Some(n);
            },
        }
    }
    let ghost after_initrd = link_views(links@);
    let (new_drives, all_named) = match &c.drives {
        Some(ds) => link_drives(ds, &rootfs, &mut links),
        None => (Vec::new(), true),
    };
    c.drives = Some(new_drives);
    if !all_named {
        return LinkPlan { links, failure: Some(arg_wrong("malformed drive file name")), config: c };
    }
    let ghost after_drives = link_views(links@);
    let lpath = copy_opt(&c.log_fifo);
    if let Some(f) = lpath {
        match file_name(f.as_str()) {
            None => {
                return LinkPlan { links, failure: Some(arg_wrong("malformed fifo path")), config: c };
            },
            Some(n) => {
                proof {
                    lemma_join_lies_below(rootfs@, n@);
                }
                let dest = path_join(rootfs.as_str(), n.as_str());
                push_link(&mut links, f.clone(), dest.clone(), owner);
                match &mut c.jailer_cfg {
                    Some(j) => {
                        j.log_link_src = Some(f);
                        j.log_link_dest = Some(dest);
                    },
                    None => {},
                }
                c.log_fifo = Some(n);
            },
        }
    }
    let mpath = copy_opt(&c.metrics_fifo);
    if let Some(f) = mpath {
        match file_name(f.as_str()) {
            None => {
                return LinkPlan { links, failure: Some(arg_wrong("malformed fifo path")), config: c };
            },
            Some(n) => {
                proof {
                    lemma_join_lies_below(rootfs@, n@);
                }
                let dest = path_join(rootfs.as_str(), n.as_str());
                push_link(&mut links, f.clone(), dest.clone(), owner);
                match &mut c.jailer_cfg {
                    Some(j) => {
                        j.metrics_link_src = Some(f);
                        j.metrics_link_dest = Some(dest);
                    },
                    None => {},
                }
                c.metrics_fifo = Some(n);
            },
        }
    }
    LinkPlan { links, failure: None, config: c }
}

/// Checks made before the VMM process is spawned: a socket path and a
/// command must be there.
pub fn start_vmm_check(socket_path: &Option<String>, has_command: bool) -> (r: Result<(), MachineError>)
    ensures
        if socket_path is None {
            r matches Err(e) && machine_err_view(e) == (MachineErrorKind::ArgWrong, "start_vmm: no socket path provided"@)
        } else if !has_command {
            r matches Err(e) && machine_err_view(e) == (MachineErrorKind::Execute, "no command provided"@)
        } else {
            r is Ok
        },
{
    if socket_path.is_none() {
        return Err(arg_wrong("start_vmm: no socket path provided"));
    }
    if !has_command {
        return Err(MachineError::Execute(String::from_str("no command provided")));
    }
    Ok(())
}

/// How starting the VMM ended, from what the spawn and the wait for the API
/// socket reported (each an error text, or `None` on success): a failed
/// spawn is an execution error; a socket that did not appear is an
/// initialization error naming the socket.
pub fn start_vmm_result(socket_path: &String, spawn_error: Option<String>, socket_error: Option<String>) -> (r: Result<(), MachineError>)
    ensures
        match (spawn_error, socket_error) {
            (Some(e), _) => r matches Err(x) && machine_err_view(x) == (MachineErrorKind::Execute, "failed to start vmm: "@ + e@),
            (None, Some(e)) => r matches Err(x) && machine_err_view(x) == (MachineErrorKind::Initialize,
                "firecracker did not create API socket "@ + socket_path@ + ": "@ + e@),
            (None, None) => r is Ok,
        },
{
    match (spawn_error, socket_error) {
        (Some(e), _) => {
            let mut m = String::from_str("failed to start vmm: ");
            m.append(e.as_str());
            Err(MachineError::Execute(m))
        },
        (None, Some(e)) => {
            let mut m = String::from_str("firecracker did not create API socket ");
            m.append(socket_path.as_str());
            m.append(": ");
            m.append(e.as_str());
            Err(MachineError::Initialize(m))
        },
        (None, None) => Ok(()),
    }
}

/// Whether an optional path is set and has a file name.
fn has_name(o: &Option<String>) -> (b: bool)
    ensures
        b == (o is Some && name_of(*o) is Some),
{
    match o {
        Some(p) => file_name(p.as_str()).is_some(),
        None => false,
    }
}

/// Whether every drive's backing file has a file name.
fn all_drives_named(ds: &Vec<Drive>) -> (b: bool)
    ensures
        b == (first_unnamed(ds@) == ds@.len()),
{
    let mut i: usize = 0;
    while i < ds.len()
        invariant
            i <= ds.len(),
            forall|j: int| 0 <= j < i ==> path_file_name((#[trigger] ds@[j]).path_on_host@) is Some,
        decreases ds.len() - i,
    {
        if file_name(ds[i].path_on_host.as_str()).is_none() {
            proof {
                lemma_first_unnamed(ds@, i as int);
            }
            return false;
        }
        i = i + 1;
    }
    proof {
        lemma_first_unnamed(ds@, ds@.len() as int);
    }
    true
}

/// Whether a configuration sets every entry `link_files` takes as given.
pub fn link_files_ready(c: &MachineConfig) -> (b: bool)
    ensures
        b == link_files_defined(*c),
{
    if !c.enable_jailer {
        return true;
    }
    let j = match &c.jailer_cfg {
        None => {
            return false;
        },
        Some(j) => j,
    };
    if j.exec_file.is_none() {
        return false;
    }
    let kernel = has_name(&j.exec_file);
    if kernel && (j.id.is_none() || c.kernel_image_path.is_none()) {
        return false;
    }
    let initrd = kernel && has_name(&c.kernel_image_path);
    let drives = initrd && (c.initrd_path.is_none() || has_name(&c.initrd_path));
    if drives && c.drives.is_none() {
        return false;
    }
    let log = drives && match &c.drives {
        Some(ds) => all_drives_named(ds),
        None => false,
    };
    let metrics = log && (c.log_fifo.is_none() || has_name(&c.log_fifo));
    let all = metrics && (c.metrics_fifo.is_none() || has_name(&c.metrics_fifo));
    if ((metrics && c.log_fifo.is_some()) || (all && c.metrics_fifo.is_some())) && (j.uid.is_none() || j.gid.is_none()) {
        return false;
    }
    true
}

/// `link_files` on a configuration that sets what it takes as given, or
/// `None` where one of those entries is unset.
pub fn try_link_files(cfg: MachineConfig) -> (r: Option<LinkPlan>)
    ensures
        r is Some <==> link_files_defined(cfg),
        r matches Some(p) ==> link_views(p.links@) == planned_links(cfg),
        r matches Some(p) ==> match link_failure(cfg) {
            None => p.failure is None,
            Some(e) => p.failure matches Some(x) && machine_err_view(x) == e,
        },
        r matches Some(p) ==> linked_config(cfg, p.config),
        r matches Some(p) ==> links_below(link_rootfs(cfg), link_views(p.links@)),
{
    if link_files_ready(&cfg) {
        Some(link_files(cfg))
    } else {
        None
    }
}

/// A path that is set and not empty.
pub open spec fn given(o: Option<String>) -> bool {
    o is Some && o->0@.len() > 0
}

/// The link-files handler reaches the drives: no initrd image, or one with
/// a file name.
pub open spec fn handler_reaches_drives(c: MachineConfig) -> bool {
    !given(c.initrd_path) || name_of(c.initrd_path) is Some
}

/// The link-files handler reaches the fifos: every drive's file is named.
pub open spec fn handler_reaches_log(c: MachineConfig) -> bool {
    handler_reaches_drives(c) && first_unnamed(c.drives->0@) == c.drives->0@.len()
}

/// The link-files handler reaches the metrics fifo.
pub open spec fn handler_reaches_metrics(c: MachineConfig) -> bool {
    handler_reaches_log(c) && (!given(c.log_fifo) || name_of(c.log_fifo) is Some)
}

/// The link-files handler gets through.
pub open spec fn handler_links_all(c: MachineConfig) -> bool {
    handler_reaches_metrics(c) && (!given(c.metrics_fifo) || name_of(c.metrics_fifo) is Some)
}

/// The entries the link-files handler takes as given where it reaches them:
/// the exec file; once it is named, the id and the kernel image; the drive
/// list once the drives are reached; the uid and gid once a fifo is linked.
pub open spec fn handler_link_defined(c: MachineConfig) -> bool {
    c.jailer_cfg matches Some(j) ==> {
        &&& j.exec_file is Some
        &&& name_of(j.exec_file) is Some ==> {
            &&& j.id is Some && c.kernel_image_path is Some
            &&& handler_reaches_drives(c) ==> c.drives is Some
            &&& (handler_reaches_metrics(c) && given(c.log_fifo)) || (handler_links_all(c) && given(c.metrics_fifo))
                ==> j.uid is Some && j.gid is Some
        }
    }
}

/// The links the link-files handler makes, in order: the kernel image under
/// the handler's kernel file name, the initrd image, the drives' files up to
/// the first unnamed one, then the log and metrics fifos (handed to the
/// jailer's uid and gid), each as far as linking reaches; empty paths are
/// skipped.
pub open spec fn handler_planned_links(c: MachineConfig, kernel_file: Seq<char>) -> Seq<LinkView> {
    let r = link_rootfs(c);
    let owner = Some((c.jailer_cfg->0.uid->0, c.jailer_cfg->0.gid->0));
    let ds = c.drives->0@;
    seq![(c.kernel_image_path->0@, join(r, kernel_file), None)]
        + (if given(c.initrd_path) && name_of(c.initrd_path) is Some { seq![named_link(r, c.initrd_path->0@, None)] } else { Seq::empty() })
        + (if handler_reaches_drives(c) {
            Seq::new(first_unnamed(ds), |i: int| named_link(r, ds[i].path_on_host@, None))
        } else {
            Seq::empty()
        })
        + (if handler_reaches_metrics(c) && given(c.log_fifo) { seq![named_link(r, c.log_fifo->0@, owner)] } else { Seq::empty() })
        + (if handler_links_all(c) && given(c.metrics_fifo) { seq![named_link(r, c.metrics_fifo->0@, owner)] } else { Seq::empty() })
}

/// The error the link-files handler ends with once its links are made, if
/// any: the first path met without a file name.
pub open spec fn handler_link_failure(c: MachineConfig) -> Option<(MachineErrorKind, Seq<char>)> {
    if !handler_reaches_drives(c) {
        Some((MachineErrorKind::FileError, "malformed initrd path"@))
    } else if !handler_reaches_log(c) {
        Some((MachineErrorKind::FileError, "malformed drive file name"@))
    } else if !handler_links_all(c) {
        Some((MachineErrorKind::FileError, "malformed fifo path"@))
    } else {
        None
    }
}

/// How the configuration stands after the link-files handler: the drives
/// linked are known by their file names as they are linked; once every drive
/// is linked, the kernel image by the handler's kernel file name and the
/// initrd image by its file name; each linked fifo by its file name.
/// Nothing else changes.
pub open spec fn handler_linked_config(c: MachineConfig, kernel_file: Seq<char>, c2: MachineConfig) -> bool {
    &&& c2 == (MachineConfig {
        kernel_image_path: c2.kernel_image_path,
        initrd_path: c2.initrd_path,
        drives: c2.drives,
        log_fifo: c2.log_fifo,
        metrics_fifo: c2.metrics_fifo,
        ..c
    })
    &&& if handler_reaches_log(c) {
        opt_view(c2.kernel_image_path) == Some(kernel_file)
    } else {
        c2.kernel_image_path == c.kernel_image_path
    }
    &&& if handler_reaches_log(c) && given(c.initrd_path) {
        opt_view(c2.initrd_path) == name_of(c.initrd_path)
    } else {
        c2.initrd_path == c.initrd_path
    }
    &&& if handler_reaches_drives(c) {
        c2.drives is Some && drives_renamed(c.drives->0@, c2.drives->0@)
    } else {
        c2.drives == c.drives
    }
    &&& if handler_reaches_metrics(c) && given(c.log_fifo) {
        opt_view(c2.log_fifo) == name_of(c.log_fifo)
    } else {
        c2.log_fifo == c.log_fifo
    }
    &&& if handler_links_all(c) && given(c.metrics_fifo) {
        opt_view(c2.metrics_fifo) == name_of(c.metrics_fifo)
    } else {
        c2.metrics_fifo == c.metrics_fifo
    }
}

fn file_error(msg: &str) -> (e: MachineError)
    ensures
        machine_err_view(e) == (MachineErrorKind::FileError, msg@),
{
    MachineError::FileError(String::from_str(msg))
}

/// Whether an optional path is set and not empty.
fn is_given(o: &Option<String>) -> (b: bool)
    ensures
        b == given(*o),
{
    match o {
        Some(p) => p.as_str().unicode_len() > 0,
        None => false,
    }
}

/// Plans what the link-files handler of a chroot strategy does: without a
/// jailer configuration, or when the exec file has no file name, it fails
/// before linking anything. Otherwise it links, into the jail's root, the
/// kernel image (under `kernel_file`, the file name the strategy gives),
/// the initrd image, the drives' files and the fifos, and the plan ends in
/// the error of the first path without a file name, if any.
pub fn handler_link_plan(cfg: MachineConfig, kernel_file: &String) -> (r: Result<LinkPlan, MachineError>)
    requires
        handler_link_defined(cfg),
    ensures
        match cfg.jailer_cfg {
            None => r matches Err(e) && machine_err_view(e) == (MachineErrorKind::FileError, "jailer config was not set for use"@),
            Some(j) => if name_of(j.exec_file) is None {
                r matches Err(e) && machine_err_view(e) == (MachineErrorKind::FileError, "malformed firecracker exec file name"@)
            } else {
                &&& r matches Ok(p)
                &&& link_views(p.links@) == handler_planned_links(cfg, kernel_file@)
                &&& match handler_link_failure(cfg) {
                    None => p.failure is None,
                    Some(e) => p.failure matches Some(x) && machine_err_view(x) == e,
                }
                &&& handler_linked_config(cfg, kernel_file@, p.config)
            },
        },
{
    let ghost c0 = cfg;
    let (rootfs, owner) = match &cfg.jailer_cfg {
        None => {
            return Err(file_error("jailer config was not set for use"));
        },
        Some(j) => {
            let exec = match &j.exec_file {
                Some(e) => e,
                None => {
                    return Err(file_error("No exec file provided"));
                },
            };
            let name = match file_name(exec.as_str()) {
                Some(n) => n,
                None => {
                    return Err(file_error("malformed firecracker exec file name"));
                },
            };
            let id = match &j.id {
                Some(i) => i,
                None => {
                    return Err(file_error("No instance id provided"));
                },
            };
            let base = base_dir(&j.chroot_base_dir);
            let owner = match (j.uid, j.gid) {
                (Some(u), Some(g)) => Some((u, g)),
                _ => None,
            };
            (workspace_of(&base, &name, id), owner)
        },
    };
    assert(rootfs@ == link_rootfs(c0));
    proof {
        reveal_strlit("root");
        lemma_join_last(join(base_or_default(c0.jailer_cfg->0.chroot_base_dir), name_of(c0.jailer_cfg->0.exec_file)->0), "root"@);
    }
    let mut links: Vec<HardLink> = Vec::new();
    let kpath = match &cfg.kernel_image_path {
        Some(k) => k.clone(),
        None => String::new(),
    };
    push_link(&mut links, kpath, path_join(rootfs.as_str(), kernel_file.as_str()), None);
    let mut c = cfg;
    let mut initrd_name: Option<String> = None;
    if is_given(&c.initrd_path) {
        let ip = copy_opt(&c.initrd_path);
        match ip {
            Some(ip) => match file_name(ip.as_str()) {
                None => {
                    return Ok(LinkPlan { links, failure: Some(file_error("malformed initrd path")), config: c });
                },
                Some(n) => {
                    push_link(&mut links, ip, path_join(rootfs.as_str(), n.as_str()), None);
                    initrd_name = Some(n);
                },
            },
            None => {},
        }
    }
    let ghost after_initrd = link_views(links@);
    let mut drive_links: Vec<HardLink> = Vec::new();
    assert(link_views(drive_links@) =~= Seq::<LinkView>::empty());
    let (new_drives, all_named) = match &c.drives {
        Some(ds) => link_drives(ds, &rootfs, &mut drive_links),
        None => (Vec::new(), true),
    };
    let ghost dl = drive_links@;
    links.append(&mut drive_links);
    assert(link_views(links@) =~= after_initrd + link_views(dl));
    c.drives = Some(new_drives);
    if !all_named {
        return Ok(LinkPlan { links, failure: Some(file_error("malformed drive file name")), config: c });
    }
    c.kernel_image_path = Some(kernel_file.clone());
    if initrd_name.is_some() {
        c.initrd_path = initrd_name;
    }
    if is_given(&c.log_fifo) {
        let f = copy_opt(&c.log_fifo);
        match f {
            Some(f) => match file_name(f.as_str()) {
                None => {
                    return Ok(LinkPlan { links, failure: Some(file_error("malformed fifo path")), config: c });
                },
                Some(n) => {
                    push_link(&mut links, f, path_join(rootfs.as_str(), n.as_str()), owner);
                    c.log_fifo = Some(n);
                },
            },
            None => {},
        }
    }
    if is_given(&c.metrics_fifo) {
        let f = copy_opt(&c.metrics_fifo);
        match f {
            Some(f) => match file_name(f.as_str()) {
                None => {
                    return Ok(LinkPlan { links, failure: Some(file_error("malformed fifo path")), config: c });
                },
                Some(n) => {
                    push_link(&mut links, f, path_join(rootfs.as_str(), n.as_str()), owner);
                    c.metrics_fifo = Some(n);
                },
            },
            None => {},
        }
    }
    Ok(LinkPlan { links, failure: None, config: c })
}

/// Whether a configuration sets every entry the link-files handler takes as
/// given.
pub fn handler_link_ready(c: &MachineConfig) -> (b: bool)
    ensures
        b == handler_link_defined(*c),
{
    let j = match &c.jailer_cfg {
        None => {
            return true;
        },
        Some(j) => j,
    };
    if j.exec_file.is_none() {
        return false;
    }
    if !has_name(&j.exec_file) {
        return true;
    }
    if j.id.is_none() || c.kernel_image_path.is_none() {
        return false;
    }
    let drives = !is_given(&c.initrd_path) || has_name(&c.initrd_path);
    if drives && c.drives.is_none() {
        return false;
    }
    let log = drives && match &c.drives {
        Some(ds) => all_drives_named(ds),
        None => false,
    };
    let metrics = log && (!is_given(&c.log_fifo) || has_name(&c.log_fifo));
    let all = metrics && (!is_given(&c.metrics_fifo) || has_name(&c.metrics_fifo));
    if ((metrics && is_given(&c.log_fifo)) || (all && is_given(&c.metrics_fifo))) && (j.uid.is_none() || j.gid.is_none()) {
        return false;
    }
    true
}

} // verus!
