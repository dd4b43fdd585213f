//! The jailer: how its configuration becomes a jail layout on the host, the
//! paths Firecracker's files take inside the jail, and the jailer's command
//! line.
use vstd::prelude::*;
use vstd::string::*;
use crate::config::{hypervisor_config_outcome, outcome_of, FsView, HypervisorConfig, JailerConfig, Outcome, PathStatus};
use crate::error::{err_view, handle_entry, handle_entry_ref, missing_entry_text, RtckError, RtckErrorKind};
use crate::paths::{file_name, is_absolute, join, lemma_join_last, lemma_join_lies_below, lies_below, plain_absolute, path_file_name, path_join, path_is_absolute, path_strip_root, strip_root};
use crate::text::{decimal, decimal_string};
use crate::firecracker::ConnectRetry;

verus! {

/// Where chroot jails are built when nothing else is configured.
pub open spec fn default_chroot_base_dir() -> Seq<char> {
    "/srv/jailer"@
}

/// The API socket's path inside the jail when none is configured.
pub open spec fn default_jailed_socket() -> Seq<char> {
    "run/firecracker.socket"@
}

/// Where an exported Firecracker configuration is copied inside the jail.
pub open spec fn jailed_config_path() -> Seq<char> {
    "run/firecracker-config.json"@
}

/// Whether a character is a lowercase hexadecimal digit.
pub open spec fn is_lower_hex(c: char) -> bool {
    (48 <= c as u32 && c as u32 <= 57) || (97 <= c as u32 && c as u32 <= 102)
}

/// Whether a text is a version-4 UUID as `Uuid::to_string` writes it: 36
/// characters, hyphens at 8, 13, 18 and 23, lowercase hexadecimal digits
/// elsewhere, the version digit `4` at 14 and the variant digit (one of
/// `8`, `9`, `a`, `b`) at 19.
pub open spec fn is_uuid_v4_text(s: Seq<char>) -> bool {
    &&& s.len() == 36
    &&& forall|i: int| 0 <= i < 36 ==> if i == 8 || i == 13 || i == 18 || i == 23 {
        s[i] == '-'
    } else {
        is_lower_hex(#[trigger] s[i])
    }
    &&& s[14] == '4'
    &&& (s[19] == '8' || s[19] == '9' || s[19] == 'a' || s[19] == 'b')
}

/// Makes a fresh random instance id: `uuid::Uuid::new_v4`, written out by
/// `to_string`. Claims only its shape; the digits are random.
#[verifier::external_body]
pub(crate) fn random_id() -> (s: String)
    ensures
        is_uuid_v4_text(s@),
{
    uuid::Uuid::new_v4().to_string()
}

/// A jailed Firecracker: what the jailer is run with, and the host-side paths
/// of the jail once it is laid out.
#[derive(Debug)]
pub struct Jailer {
    /// Path to the jailer binary.
    pub bin: String,
    /// Instance id.
    pub id: String,
    /// Path to the Firecracker binary the jailer execs.
    pub exec_file: String,
    pub uid: u32,
    pub gid: u32,
    /// Base directory of chroot jails.
    pub chroot_base_dir: String,
    pub daemonize: bool,
    /// The jail's root directory on the host, once laid out.
    pub jailer_workspace_dir: Option<String>,
    /// The socket path as Firecracker sees it.
    pub socket: Option<String>,
    /// The socket path on the host.
    pub socket_path_export: Option<String>,
    /// The lock path as configured.
    pub lock_path: Option<String>,
    /// The lock path on the host.
    pub lock_path_export: Option<String>,
    /// The exported configuration file on the host.
    pub config_path: Option<String>,
    /// The exported configuration file as Firecracker sees it.
    pub config_path_jailed: Option<String>,
    /// The log path as Firecracker sees it.
    pub log_path: Option<String>,
    /// The log path on the host.
    pub log_path_export: Option<String>,
    /// The metrics path as Firecracker sees it.
    pub metrics_path: Option<String>,
    /// The metrics path on the host.
    pub metrics_path_export: Option<String>,
}

/// The texts of an optional path.
pub open spec fn opt_view(o: Option<String>) -> Option<Seq<char>> {
    match o {
        Some(s) => Some(s@),
        None => None,
    }
}

/// What building a jailer from a configuration decides, once the
/// configuration's own check has passed: the jailer configuration must be
/// there, with the jailer binary, the Firecracker binary, the uid and the gid.
pub open spec fn jailer_entries_outcome(jc: Option<JailerConfig>) -> Outcome {
    match jc {
        None => Err((RtckErrorKind::Config, "Missing jailer config"@)),
        Some(c) => if c.jailer_bin is None {
            Err((RtckErrorKind::Config, missing_entry_text("jailer binary"@)))
        } else if c.exec_file is None {
            Err((RtckErrorKind::Config, missing_entry_text("firecracker executable file"@)))
        } else if c.uid is None {
            Err((RtckErrorKind::Config, missing_entry_text("jailer uid"@)))
        } else if c.gid is None {
            Err((RtckErrorKind::Config, missing_entry_text("jailer gid"@)))
        } else {
            Ok(())
        },
    }
}

impl Jailer {
    /// The jailer built from `config`: its binaries, ids
    /// and directories are the configuration's, the chroot base directory
    /// defaults to `/srv/jailer`, `daemonize` to false, the socket to
    /// `run/firecracker.socket`; nothing is laid out yet.
    pub open spec fn built_from(self, config: HypervisorConfig) -> bool {
        let c = config.jailer_config->0;
        &&& self.bin@ == c.jailer_bin->0@
        &&& self.exec_file@ == c.exec_file->0@
        &&& self.uid == c.uid->0
        &&& self.gid == c.gid->0
        &&& self.chroot_base_dir@ == match c.chroot_base_dir {
            Some(d) => d@,
            None => default_chroot_base_dir(),
        }
        &&& self.daemonize == match c.daemonize {
            Some(b) => b,
            None => false,
        }
        &&& opt_view(self.socket) == Some(match config.socket_path {
            Some(s) => s@,
            None => default_jailed_socket(),
        })
        &&& opt_view(self.lock_path) == opt_view(config.lock_path)
        &&& opt_view(self.config_path) == opt_view(config.frck_export_path)
        &&& opt_view(self.log_path) == opt_view(config.log_path)
        &&& opt_view(self.metrics_path) == opt_view(config.metrics_path)
        &&& self.jailer_workspace_dir is None
        &&& self.socket_path_export is None
        &&& self.lock_path_export is None
        &&& self.config_path_jailed is None
        &&& self.log_path_export is None
        &&& self.metrics_path_export is None
    }

    /// Builds the jailer of a checked configuration with the given instance id.
    pub fn from_config_with_id(config: &HypervisorConfig, fs: &FsView, id: String) -> (r: Result<Self, RtckError>)
        ensures
            match hypervisor_config_outcome(*config, fs.entries@) {
                Err(e) => r matches Err(x) && err_view(x) == e,
                Ok(()) => match jailer_entries_outcome(config.jailer_config) {
                    Err(e) => r matches Err(x) && err_view(x) == e,
                    Ok(()) => r matches Ok(j) && j.built_from(*config) && j.id@ == id@,
                },
            },
    {
        let v = config.validate(fs);
        if let Err(e) = v {
            return Err(e);
        }
        Self::assemble(config, id)
    }

    /// Builds the jailer of a configuration without checking it first.
    fn assemble(config: &HypervisorConfig, id: String) -> (r: Result<Self, RtckError>)
        ensures
            match jailer_entries_outcome(config.jailer_config) {
                Err(e) => r matches Err(x) && err_view(x) == e,
                Ok(()) => r matches Ok(j) && j.built_from(*config) && j.id@ == id@,
            },
    {
        let jailer_config = match &config.jailer_config {
            Some(c) => c,
            None => {
                return Err(RtckError::Config(String::from_str("Missing jailer config")));
            },
        };
        let socket = match &config.socket_path {
            Some(s) => s.clone(),
            None => String::from_str("run/firecracker.socket"),
        };
        let bin = handle_entry(&jailer_config.jailer_bin, "jailer binary")?;
        let exec_file = handle_entry(&jailer_config.exec_file, "firecracker executable file")?;
        let uid = handle_entry(&jailer_config.uid, "jailer uid")?;
        let gid = handle_entry(&jailer_config.gid, "jailer gid")?;
        let chroot_base_dir = match &jailer_config.chroot_base_dir {
            Some(d) => d.clone(),
            None => String::from_str("/srv/jailer"),
        };
        let daemonize = match jailer_config.daemonize {
            Some(b) => b,
            None => false,
        };
        Ok(Jailer {
            bin,
            id,
            exec_file,
            uid,
            gid,
            chroot_base_dir,
            daemonize,
            jailer_workspace_dir: None,
            socket: Some(socket),
            socket_path_export: None,
            lock_path: config.lock_path.clone(),
            lock_path_export: None,
            config_path: config.frck_export_path.clone(),
            config_path_jailed: None,
            log_path: config.log_path.clone(),
            log_path_export: None,
            metrics_path: config.metrics_path.clone(),
            metrics_path_export: None,
        })
    }

    /// Builds the jailer of a checked configuration; the instance id is the
    /// configured one, or a random one when none is configured.
    pub fn from_config(config: &HypervisorConfig, fs: &FsView) -> (r: Result<Self, RtckError>)
        ensures
            match hypervisor_config_outcome(*config, fs.entries@) {
                Err(e) => r matches Err(x) && err_view(x) == e,
                Ok(()) => match jailer_entries_outcome(config.jailer_config) {
                    Err(e) => r matches Err(x) && err_view(x) == e,
                    Ok(()) => r matches Ok(j) && j.built_from(*config) && (config.id matches Some(i) ==> j.id@ == i@)
                        && (config.id is None ==> is_uuid_v4_text(j.id@)),
                },
            },
    {
        let id = match &config.id {
            Some(i) => i.clone(),
            None => random_id(),
        };
        Self::from_config_with_id(config, fs, id)
    }
}


/// The host path of a file Firecracker sees at `x` (or at `default` when `x`
/// is not configured) inside a jail rooted at `workspace`: an absolute path
/// loses its root and is taken below the workspace.
pub open spec fn path_under_jail(x: Option<Seq<char>>, default: Seq<char>, workspace: Seq<char>) -> Seq<char> {
    let p = match x {
        Some(p) => p,
        None => default,
    };
    join(workspace, if is_absolute(p) { path_strip_root(p) } else { p })
}

/// The configured path, or the default one.
pub open spec fn chosen_path(x: Option<Seq<char>>, default: Seq<char>) -> Seq<char> {
    match x {
        Some(p) => p,
        None => default,
    }
}

/// The instance directory of a jail: `<chroot base>/<exec file name>/<id>`.
pub open spec fn instance_dir_of(chroot_base_dir: Seq<char>, exec_name: Seq<char>, id: Seq<char>) -> Seq<char> {
    join(join(chroot_base_dir, exec_name), id)
}

/// The error when the Firecracker binary's path has no file name.
pub open spec fn no_exec_name_error() -> (RtckErrorKind, Seq<char>) {
    (RtckErrorKind::Jailer, missing_entry_text("firecracker executable file"@))
}

/// The Firecracker command-line arguments the jailer is run with.
pub open spec fn jailer_launch_args(j: Jailer) -> Seq<Seq<char>> {
    seq!["--id"@, j.id@, "--uid"@, decimal(j.uid as nat), "--gid"@, decimal(j.gid as nat),
        "--exec-file"@, j.exec_file@, "--chroot-base-dir"@, j.chroot_base_dir@]
        + (if j.daemonize { seq!["--daemonize"@] } else { Seq::empty() })
        + seq!["--"@]
        + match j.socket {
            Some(p) => seq!["--api-sock"@, p@],
            None => Seq::empty(),
        }
        + match j.config_path {
            Some(p) => seq!["--config-file"@, p@],
            None => Seq::empty(),
        }
}

/// The jailer's arguments in place: id, uid, gid, exec file and chroot
/// base directory as flag and value pairs, then Firecracker's socket and
/// configuration file after the `--`; and the jailer is told to daemonize
/// exactly when it is to: right after the chroot base directory, the eleventh argument is `--daemonize` when
/// `daemonize` is set (and the `--` that opens Firecracker's arguments
/// follows it), and otherwise that `--` itself.
pub proof fn lemma_jailer_launch_args(j: Jailer)
    ensures
        jailer_launch_args(j).len() > 10,
        j.daemonize ==> jailer_launch_args(j).len() > 11,
        jailer_launch_args(j)[9] == j.chroot_base_dir@,
        (jailer_launch_args(j)[10] == "--daemonize"@) <==> j.daemonize,
        j.daemonize ==> jailer_launch_args(j)[11] == "--"@,
        !j.daemonize ==> jailer_launch_args(j)[10] == "--"@,
        jailer_launch_args(j)[0] == "--id"@ && jailer_launch_args(j)[1] == j.id@,
        jailer_launch_args(j)[2] == "--uid"@ && jailer_launch_args(j)[3] == decimal(j.uid as nat),
        jailer_launch_args(j)[4] == "--gid"@ && jailer_launch_args(j)[5] == decimal(j.gid as nat),
        jailer_launch_args(j)[6] == "--exec-file"@ && jailer_launch_args(j)[7] == j.exec_file@,
        jailer_launch_args(j)[8] == "--chroot-base-dir"@,
        ({
            let s = if j.daemonize { 12int } else { 11int };
            &&& jailer_launch_args(j).len() == s + (if j.socket is Some { 2int } else { 0int })
                + (if j.config_path is Some { 2int } else { 0int })
            &&& j.socket matches Some(p) ==> jailer_launch_args(j)[s] == "--api-sock"@ && jailer_launch_args(j)[s + 1] == p@
            &&& j.config_path matches Some(p) ==> ({
                let t = s + (if j.socket is Some { 2int } else { 0int });
                jailer_launch_args(j)[t] == "--config-file"@ && jailer_launch_args(j)[t + 1] == p@
            })
        }),
{
    reveal_strlit("--daemonize");
    reveal_strlit("--");
    let a = jailer_launch_args(j);
    let head = seq!["--id"@, j.id@, "--uid"@, decimal(j.uid as nat), "--gid"@, decimal(j.gid as nat),
        "--exec-file"@, j.exec_file@, "--chroot-base-dir"@, j.chroot_base_dir@];
    let d: Seq<Seq<char>> = if j.daemonize { seq!["--daemonize"@] } else { Seq::empty() };
    let tail = match j.socket {
        Some(p) => seq!["--api-sock"@, p@],
        None => Seq::empty(),
    } + match j.config_path {
        Some(p) => seq!["--config-file"@, p@],
        None => Seq::empty(),
    };
    assert(a =~= head + d + seq!["--"@] + tail);
    assert forall|i: int| 0 <= i < 10 implies a[i] == head[i] by {}
    let sk = if j.daemonize { 12int } else { 11int };
    assert forall|i: int| 0 <= i < tail.len() implies a[sk + i] == tail[i] by {}
    if j.daemonize {
        assert(a[10] == d[0]);
        assert(a[11] == (seq!["--"@])[0]);
    } else {
        assert(a[10] == (seq!["--"@])[0]);
        assert("--"@.len() != "--daemonize"@.len());
    }
}

/// Whether an optional reference points at the optional value.
pub open spec fn ref_of(r: Option<&String>, o: Option<String>) -> bool {
    match r {
        Some(x) => o == Some(*x),
        None => o is None,
    }
}

/// The texts of a vector of strings.
pub open spec fn views(v: Seq<String>) -> Seq<Seq<char>> {
    v.map_values(|s: String| s@)
}

pub(crate) fn push_str_arg(v: &mut Vec<String>, s: &str)
    ensures
        views(final(v)@) == views(old(v)@).push(s@),
{
    let ghost before = v@;
    v.push(String::from_str(s));
    assert(views(v@) =~= views(before).push(s@));
}

pub(crate) fn push_string_arg(v: &mut Vec<String>, s: String)
    ensures
        views(final(v)@) == views(old(v)@).push(s@),
{
    let ghost before = v@;
    v.push(s);
    assert(views(v@) =~= views(before).push(s@));
}

impl Jailer {
    pub fn get_uid(&self) -> (u: u32)
        ensures
            u == self.uid,
    {
        self.uid
    }

    pub fn get_gid(&self) -> (g: u32)
        ensures
            g == self.gid,
    {
        self.gid
    }

    pub fn get_firecracker_exec_file(&self) -> (p: &String)
        ensures
            *p == self.exec_file,
    {
        &self.exec_file
    }

    pub fn get_socket_path_exported(&self) -> (p: Option<&String>)
        ensures
            ref_of(p, self.socket_path_export),
    {
        self.socket_path_export.as_ref()
    }

    /// How the jailed Firecracker's socket is connected to: the exported
    /// socket path and `retry` attempts, given up in the synchronous
    /// jailer's wording; a jailer error without an exported socket.
    pub fn connect_plan(&self, retry: usize) -> (r: Result<(String, ConnectRetry), RtckError>)
        ensures
            match self.socket_path_export {
                None => r matches Err(e) && err_view(e) == (RtckErrorKind::Jailer, missing_entry_text("exported socket path"@)),
                Some(p) => r matches Ok((s, c)) && s == p && c.retry == retry && c.trying == retry && c.capitalised,
            },
    {
        let socket = handle_entry_ref(&self.socket_path_export, "exported socket path")?;
        Ok((socket.clone(), ConnectRetry::new(retry, true)))
    }

    pub fn get_lock_path_exported(&self) -> (p: Option<&String>)
        ensures
            ref_of(p, self.lock_path_export),
    {
        self.lock_path_export.as_ref()
    }

    pub fn get_log_path_exported(&self) -> (p: Option<&String>)
        ensures
            ref_of(p, self.log_path_export),
    {
        self.log_path_export.as_ref()
    }

    pub fn get_metrics_path_exported(&self) -> (p: Option<&String>)
        ensures
            ref_of(p, self.metrics_path_export),
    {
        self.metrics_path_export.as_ref()
    }

    /// The exported configuration file (as configured, on the host).
    pub fn get_config_path_exported(&self) -> (p: Option<&String>)
        ensures
            ref_of(p, self.config_path),
    {
        self.config_path.as_ref()
    }

    pub fn get_jailer_workspace_dir(&self) -> (p: Option<&String>)
        ensures
            ref_of(p, self.jailer_workspace_dir),
    {
        self.jailer_workspace_dir.as_ref()
    }

    /// The host path of a jailed file: `x`, or `default` when `x` is not
    /// configured, taken below the jail's workspace.
    pub fn get_x_path_under_jailer(&self, x: &Option<String>, default_path_under_jailer: &str, name: &str, jailer_workspace_dir: &String) -> (r: Result<Option<String>, RtckError>)
        ensures
            r matches Ok(Some(p)) && p@ == path_under_jail(opt_view(*x), default_path_under_jailer@, jailer_workspace_dir@),
            r matches Ok(Some(p)) ==> (jailer_workspace_dir@.len() > 0 && jailer_workspace_dir@.last() != '/'
                ==> lies_below(jailer_workspace_dir@, p@)),
            r matches Ok(Some(p)) ==> (plain_absolute(chosen_path(opt_view(*x), default_path_under_jailer@))
                ==> p@ == join(jailer_workspace_dir@, chosen_path(opt_view(*x), default_path_under_jailer@).drop_first())),
    {
        let path = match x {
            Some(p) => p.clone(),
            None => String::from_str(default_path_under_jailer),
        };
        let rel = if path_is_absolute(path.as_str()) {
            match strip_root(path.as_str()) {
                Some(r) => r,
                None => {
                    let mut m = String::from_str("Fail to strip prefix of ");
                    m.append(name);
                    m.append(" path when jailing");
                    return Err(RtckError::Jailer(m));
                },
            }
        } else {
            path
        };
        proof {
            if jailer_workspace_dir@.len() > 0 && jailer_workspace_dir@.last() != '/' {
                lemma_join_lies_below(jailer_workspace_dir@, rel@);
            }
        }
        Ok(Some(path_join(jailer_workspace_dir.as_str(), rel.as_str())))
    }

    /// The instance directory of the jail, `<chroot base>/<exec file name>/<id>`.
    pub fn instance_dir(&self) -> (r: Result<String, RtckError>)
        ensures
            match path_file_name(self.exec_file@) {
                Some(n) => r matches Ok(d) && d@ == instance_dir_of(self.chroot_base_dir@, n, self.id@),
                None => r matches Err(e) && err_view(e) == no_exec_name_error(),
            },
    {
        let name = file_name(self.exec_file.as_str());
        let name = handle_entry_ref(&name, "firecracker executable file")?;
        let d = path_join(self.chroot_base_dir.as_str(), name.as_str());
        Ok(path_join(d.as_str(), self.id.as_str()))
    }

    /// The jail's root directory on the host, `<instance dir>/root`. The
    /// caller looks up whether it exists before calling `jail`.
    pub fn workspace_dir(&self) -> (r: Result<String, RtckError>)
        ensures
            match path_file_name(self.exec_file@) {
                Some(n) => r matches Ok(d) && d@ == join(instance_dir_of(self.chroot_base_dir@, n, self.id@), "root"@),
                None => r matches Err(e) && err_view(e) == no_exec_name_error(),
            },
    {
        let inst = self.instance_dir()?;
        Ok(path_join(inst.as_str(), "root"))
    }

    /// Whether a jail laid out in `workspace` has its paths set as `jail` sets them.
    pub open spec fn laid_out(self, old_self: Jailer, workspace: Seq<char>) -> bool {
        &&& self.jailer_workspace_dir matches Some(w) && w@ == workspace
        &&& self.socket_path_export matches Some(p) && p@ == path_under_jail(opt_view(old_self.socket), "run/firecracker.socket"@, workspace)
        &&& self.lock_path_export matches Some(p) && p@ == path_under_jail(opt_view(old_self.lock_path), "run/firecracker.lock"@, workspace)
        &&& self.log_path_export matches Some(p) && p@ == path_under_jail(opt_view(old_self.log_path), "run/firecracker.log"@, workspace)
        &&& self.metrics_path_export matches Some(p) && p@ == path_under_jail(opt_view(old_self.metrics_path), "run/firecracker.metrics"@, workspace)
        &&& plain_absolute(chosen_path(opt_view(old_self.socket), "run/firecracker.socket"@))
            ==> self.socket_path_export->0@ == join(workspace, chosen_path(opt_view(old_self.socket), "run/firecracker.socket"@).drop_first())
        &&& lies_below(workspace, self.socket_path_export->0@) && lies_below(workspace, self.lock_path_export->0@)
        &&& lies_below(workspace, self.log_path_export->0@) && lies_below(workspace, self.metrics_path_export->0@)
        &&& if old_self.config_path is Some {
            opt_view(self.config_path_jailed) == Some(jailed_config_path())
        } else {
            self.config_path_jailed == old_self.config_path_jailed
        }
        &&& self.bin == old_self.bin && self.id == old_self.id && self.exec_file == old_self.exec_file
        &&& self.uid == old_self.uid && self.gid == old_self.gid
        &&& self.chroot_base_dir == old_self.chroot_base_dir && self.daemonize == old_self.daemonize
        &&& self.socket == old_self.socket && self.lock_path == old_self.lock_path
        &&& self.config_path == old_self.config_path && self.log_path == old_self.log_path
        &&& self.metrics_path == old_self.metrics_path
    }

    /// Lays out the jail: refuses a workspace that already exists, then records
    /// the workspace and the host paths of the socket, lock, log and metrics
    /// files (defaults `run/firecracker.{socket,lock,log,metrics}`), and where
    /// an exported configuration goes. Returns the instance directory. The
    /// caller copies the exported configuration to `config_copy_target`.
    pub fn jail(&mut self, workspace_exists: bool) -> (r: Result<String, RtckError>)
        ensures
            match path_file_name(old(self).exec_file@) {
                None => r matches Err(e) && err_view(e) == no_exec_name_error() && *final(self) == *old(self),
                Some(n) => {
                    let inst = instance_dir_of(old(self).chroot_base_dir@, n, old(self).id@);
                    if workspace_exists {
                        r matches Err(e) && err_view(e) == (RtckErrorKind::Jailer, "Conflict instance name, please choose another one"@)
                            && *final(self) == *old(self)
                    } else {
                        r matches Ok(d) && d@ == inst && final(self).laid_out(*old(self), join(inst, "root"@))
                    }
                },
            },
    {
        let instance_dir = self.instance_dir()?;
        let workspace = path_join(instance_dir.as_str(), "root");
        proof {
            reveal_strlit("root");
            lemma_join_last(instance_dir@, "root"@);
        }
        if workspace_exists {
            return Err(RtckError::Jailer(String::from_str("Conflict instance name, please choose another one")));
        }
        let socket = self.get_x_path_under_jailer(&self.socket, "run/firecracker.socket", "socket", &workspace)?;
        let lock = self.get_x_path_under_jailer(&self.lock_path, "run/firecracker.lock", "lock", &workspace)?;
        let log = self.get_x_path_under_jailer(&self.log_path, "run/firecracker.log", "log", &workspace)?;
        let metrics = self.get_x_path_under_jailer(&self.metrics_path, "run/firecracker.metrics", "metrics", &workspace)?;
        self.jailer_workspace_dir = Some(workspace);
        self.socket_path_export = socket;
        self.lock_path_export = lock;
        self.log_path_export = log;
        self.metrics_path_export = metrics;
        if self.config_path.is_some() {
            self.config_path_jailed = Some(String::from_str("run/firecracker-config.json"));
        }
        Ok(instance_dir)
    }

    /// Where the exported configuration is copied on the host once the jail is
    /// laid out: `<workspace>/run/firecracker-config.json`.
    pub fn config_copy_target(&self) -> (r: Option<String>)
        ensures
            match (self.config_path, self.jailer_workspace_dir) {
                (Some(_), Some(w)) => r matches Some(t) && t@ == join(w@, jailed_config_path()),
                _ => r is None,
            },
    {
        match (&self.config_path, &self.jailer_workspace_dir) {
            (Some(_), Some(w)) => Some(path_join(w.as_str(), "run/firecracker-config.json")),
            _ => None,
        }
    }

    /// The arguments the jailer binary is launched with.
    pub fn launch_args(&self) -> (args: Vec<String>)
        ensures
            views(args@) == jailer_launch_args(*self),
    {
        let mut args: Vec<String> = Vec::new();
        push_str_arg(&mut args, "--id");
        push_string_arg(&mut args, self.id.clone());
        push_str_arg(&mut args, "--uid");
        push_string_arg(&mut args, decimal_string(self.uid as u64));
        push_str_arg(&mut args, "--gid");
        push_string_arg(&mut args, decimal_string(self.gid as u64));
        push_str_arg(&mut args, "--exec-file");
        push_string_arg(&mut args, self.exec_file.clone());
        push_str_arg(&mut args, "--chroot-base-dir");
        push_string_arg(&mut args, self.chroot_base_dir.clone());
        if self.daemonize {
            push_str_arg(&mut args, "--daemonize");
        }
        push_str_arg(&mut args, "--");
        if let Some(p) = &self.socket {
            push_str_arg(&mut args, "--api-sock");
            push_string_arg(&mut args, p.clone());
        }
        if let Some(p) = &self.config_path {
            push_str_arg(&mut args, "--config-file");
            push_string_arg(&mut args, p.clone());
        }
        assert(views(args@) =~= jailer_launch_args(*self));
        args
    }
}


/// The jailer as the asynchronous hypervisor drives it: the same layout and
/// command line, built without checking the file system first.
#[derive(Debug)]
pub struct JailerAsync {
    pub inner: Jailer,
}

impl JailerAsync {
    /// Builds the jailer of a configuration with the given instance id.
    pub fn from_config_with_id(config: &HypervisorConfig, id: String) -> (r: Result<Self, RtckError>)
        ensures
            match jailer_entries_outcome(config.jailer_config) {
                Err(e) => r matches Err(x) && err_view(x) == e,
                Ok(()) => r matches Ok(j) && j.inner.built_from(*config) && j.inner.id@ == id@,
            },
    {
        let inner = Jailer::assemble(config, id)?;
        Ok(JailerAsync { inner })
    }

    /// Builds the jailer of a configuration; the instance id is the configured
    /// one, or a random one when none is configured.
    pub fn from_config(config: &HypervisorConfig) -> (r: Result<Self, RtckError>)
        ensures
            match jailer_entries_outcome(config.jailer_config) {
                Err(e) => r matches Err(x) && err_view(x) == e,
                Ok(()) => r matches Ok(j) && j.inner.built_from(*config) && (config.id matches Some(i) ==> j.inner.id@ == i@)
                    && (config.id is None ==> is_uuid_v4_text(j.inner.id@)),
            },
    {
        let id = match &config.id {
            Some(i) => i.clone(),
            None => random_id(),
        };
        Self::from_config_with_id(config, id)
    }

    pub fn get_uid(&self) -> (u: u32)
        ensures
            u == self.inner.uid,
    {
        self.inner.get_uid()
    }

    pub fn get_gid(&self) -> (g: u32)
        ensures
            g == self.inner.gid,
    {
        self.inner.get_gid()
    }

    pub fn get_firecracker_exec_file(&self) -> (p: &String)
        ensures
            *p == self.inner.exec_file,
    {
        self.inner.get_firecracker_exec_file()
    }

    pub fn get_socket_path_exported(&self) -> (p: Option<&String>)
        ensures
            ref_of(p, self.inner.socket_path_export),
    {
        self.inner.get_socket_path_exported()
    }

    /// How the jailed Firecracker's socket is connected to (see
    /// `Jailer::connect_plan`), given up in lowercase wording.
    pub fn connect_plan(&self, retry: usize) -> (r: Result<(String, ConnectRetry), RtckError>)
        ensures
            match self.inner.socket_path_export {
                None => r matches Err(e) && err_view(e) == (RtckErrorKind::Jailer, missing_entry_text("exported socket path"@)),
                Some(p) => r matches Ok((s, c)) && s == p && c.retry == retry && c.trying == retry && !c.capitalised,
            },
    {
        let socket = handle_entry_ref(&self.inner.socket_path_export, "exported socket path")?;
        Ok((socket.clone(), ConnectRetry::new(retry, false)))
    }

    pub fn get_lock_path_exported(&self) -> (p: Option<&String>)
        ensures
            ref_of(p, self.inner.lock_path_export),
    {
        self.inner.get_lock_path_exported()
    }

    pub fn get_log_path_exported(&self) -> (p: Option<&String>)
        ensures
            ref_of(p, self.inner.log_path_export),
    {
        self.inner.get_log_path_exported()
    }

    pub fn get_metrics_path_exported(&self) -> (p: Option<&String>)
        ensures
            ref_of(p, self.inner.metrics_path_export),
    {
        self.inner.get_metrics_path_exported()
    }

    pub fn get_config_path_exported(&self) -> (p: Option<&String>)
        ensures
            ref_of(p, self.inner.config_path),
    {
        self.inner.get_config_path_exported()
    }

    pub fn get_jailer_workspace_dir(&self) -> (p: Option<&String>)
        ensures
            ref_of(p, self.inner.jailer_workspace_dir),
    {
        self.inner.get_jailer_workspace_dir()
    }

    /// The host path of a jailed file (see `Jailer::get_x_path_under_jailer`).
    pub fn get_x_path_under_jailer(&self, x: &Option<String>, default_path_under_jailer: &str, name: &str, jailer_workspace_dir: &String) -> (r: Result<Option<String>, RtckError>)
        ensures
            r matches Ok(Some(p)) && p@ == path_under_jail(opt_view(*x), default_path_under_jailer@, jailer_workspace_dir@),
            r matches Ok(Some(p)) ==> (jailer_workspace_dir@.len() > 0 && jailer_workspace_dir@.last() != '/'
                ==> lies_below(jailer_workspace_dir@, p@)),
            r matches Ok(Some(p)) ==> (plain_absolute(chosen_path(opt_view(*x), default_path_under_jailer@))
                ==> p@ == join(jailer_workspace_dir@, chosen_path(opt_view(*x), default_path_under_jailer@).drop_first())),
    {
        self.inner.get_x_path_under_jailer(x, default_path_under_jailer, name, jailer_workspace_dir)
    }

    /// The jail's root directory on the host.
    pub fn workspace_dir(&self) -> (r: Result<String, RtckError>)
        ensures
            match path_file_name(self.inner.exec_file@) {
                Some(n) => r matches Ok(d) && d@ == join(instance_dir_of(self.inner.chroot_base_dir@, n, self.inner.id@), "root"@),
                None => r matches Err(e) && err_view(e) == no_exec_name_error(),
            },
    {
        self.inner.workspace_dir()
    }

    /// Lays out the jail (see `Jailer::jail`).
    pub fn jail(&mut self, workspace_exists: bool) -> (r: Result<String, RtckError>)
        ensures
            match path_file_name(old(self).inner.exec_file@) {
                None => r matches Err(e) && err_view(e) == no_exec_name_error() && final(self).inner == old(self).inner,
                Some(n) => {
                    let inst = instance_dir_of(old(self).inner.chroot_base_dir@, n, old(self).inner.id@);
                    if workspace_exists {
                        r matches Err(e) && err_view(e) == (RtckErrorKind::Jailer, "Conflict instance name, please choose another one"@)
                            && final(self).inner == old(self).inner
                    } else {
                        r matches Ok(d) && d@ == inst && final(self).inner.laid_out(old(self).inner, join(inst, "root"@))
                    }
                },
            },
    {
        self.inner.jail(workspace_exists)
    }

    /// Where the exported configuration is copied on the host.
    pub fn config_copy_target(&self) -> (r: Option<String>)
        ensures
            match (self.inner.config_path, self.inner.jailer_workspace_dir) {
                (Some(_), Some(w)) => r matches Some(t) && t@ == join(w@, jailed_config_path()),
                _ => r is None,
            },
    {
        self.inner.config_copy_target()
    }

    /// The arguments the jailer binary is launched with.
    pub fn launch_args(&self) -> (args: Vec<String>)
        ensures
            views(args@) == jailer_launch_args(self.inner),
    {
        self.inner.launch_args()
    }
}

} // verus!
