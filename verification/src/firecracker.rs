//! The Firecracker process itself: where its API socket and files are, with
//! or without the jailer, and its command line.
use vstd::prelude::*;
use vstd::string::*;
use crate::config::{hypervisor_config_outcome, FsView, HypervisorConfig, Outcome};
use crate::error::{err_view, handle_entry, missing_entry_text, RtckError, RtckErrorKind};
use crate::text::{decimal, push_decimal};
use crate::jailer::{is_uuid_v4_text, opt_view, push_str_arg, push_string_arg, random_id, views, JailerAsync};

verus! {

/// Firecracker's command-line arguments: the API socket and, when there is
/// one, the configuration file.
pub open spec fn firecracker_launch_args(socket: Seq<char>, config_path: Option<Seq<char>>) -> Seq<Seq<char>> {
    seq!["--api-sock"@, socket] + match config_path {
        Some(p) => seq!["--config-file"@, p],
        None => Seq::empty(),
    }
}

fn launch_args_of(socket: &String, config_path: &Option<String>) -> (args: Vec<String>)
    ensures
        views(args@) == firecracker_launch_args(socket@, opt_view(*config_path)),
{
    let mut args: Vec<String> = Vec::new();
    push_str_arg(&mut args, "--api-sock");
    push_string_arg(&mut args, socket.clone());
    if let Some(p) = config_path {
        push_str_arg(&mut args, "--config-file");
        push_string_arg(&mut args, p.clone());
    }
    assert(views(args@) =~= firecracker_launch_args(socket@, opt_view(*config_path)));
    args
}

/// A bare Firecracker process driven synchronously.
#[derive(Debug)]
pub struct Firecracker {
    /// Path to the Firecracker binary.
    pub bin: String,
    /// Path of the API socket.
    pub socket: String,
    /// Path to the configuration file.
    pub config_path: Option<String>,
}

/// What building a bare Firecracker decides once the configuration has
/// passed its check: the binary and the socket path must be given.
pub open spec fn firecracker_entries_outcome(c: HypervisorConfig) -> Outcome {
    if c.frck_bin is None {
        Err((RtckErrorKind::Config, missing_entry_text("firecracker binary"@)))
    } else if c.socket_path is None {
        Err((RtckErrorKind::Config, missing_entry_text("socket path"@)))
    } else {
        Ok(())
    }
}

impl Firecracker {
    pub fn get_socket(&self) -> (s: &String)
        ensures
            *s == self.socket,
    {
        &self.socket
    }

    /// Builds the process description of a checked configuration.
    pub fn from_config(config: &HypervisorConfig, fs: &FsView) -> (r: Result<Self, RtckError>)
        ensures
            match hypervisor_config_outcome(*config, fs.entries@) {
                Err(e) => r matches Err(x) && err_view(x) == e,
                Ok(()) => match firecracker_entries_outcome(*config) {
                    Err(e) => r matches Err(x) && err_view(x) == e,
                    Ok(()) => r matches Ok(f) && f.bin@ == config.frck_bin->0@ && f.socket@ == config.socket_path->0@
                        && opt_view(f.config_path) == opt_view(config.frck_export_path),
                },
            },
    {
        let v = config.validate(fs);
        if let Err(e) = v {
            return Err(e);
        }
        let bin = handle_entry(&config.frck_bin, "firecracker binary")?;
        let socket = handle_entry(&config.socket_path, "socket path")?;
        Ok(Firecracker { bin, socket, config_path: config.frck_export_path.clone() })
    }

    /// The arguments Firecracker is launched with.
    pub fn launch_args(&self) -> (args: Vec<String>)
        ensures
            views(args@) == firecracker_launch_args(self.socket@, opt_view(self.config_path)),
    {
        launch_args_of(&self.socket, &self.config_path)
    }
}

/// A Firecracker process driven asynchronously, bare or jailed.
#[derive(Debug)]
pub struct FirecrackerAsync {
    pub id: String,
    /// Path to the Firecracker binary.
    pub bin: String,
    /// Path of the API socket.
    pub socket: String,
    pub lock_path: String,
    pub log_path: String,
    pub metrics_path: String,
    /// Path to the configuration file.
    pub config_path: Option<String>,
    /// Where standard output goes; the configuration does not set it.
    pub stdout_to: Option<String>,
    /// Where standard error goes; the configuration does not set it.
    pub stderr_to: Option<String>,
}

/// The socket path allocated to an instance that has none configured.
pub open spec fn default_socket_of(id: Seq<char>) -> Seq<char> {
    "/run/firecracker-"@ + id + ".socket"@
}

/// What building a bare asynchronous Firecracker decides: the binary, lock,
/// log and metrics paths must be given.
pub open spec fn firecracker_async_entries_outcome(c: HypervisorConfig) -> Outcome {
    if c.frck_bin is None {
        Err((RtckErrorKind::Config, missing_entry_text("firecracker binary"@)))
    } else if c.lock_path is None {
        Err((RtckErrorKind::Config, missing_entry_text("lock path"@)))
    } else if c.log_path is None {
        Err((RtckErrorKind::Config, missing_entry_text("log path"@)))
    } else if c.metrics_path is None {
        Err((RtckErrorKind::Config, missing_entry_text("metrics path"@)))
    } else {
        Ok(())
    }
}

/// What building from a laid-out jail decides: the socket, lock, log and
/// metrics paths must have been exported.
pub open spec fn from_jailer_outcome(j: crate::jailer::Jailer) -> Outcome {
    if j.socket_path_export is None {
        Err((RtckErrorKind::Config, "jailer without socket path exported"@))
    } else if j.lock_path_export is None {
        Err((RtckErrorKind::Config, "jailer without lock path exported"@))
    } else if j.log_path_export is None {
        Err((RtckErrorKind::Config, "jailer without log path exported"@))
    } else if j.metrics_path_export is None {
        Err((RtckErrorKind::Config, "jailer without metrics path exported"@))
    } else {
        Ok(())
    }
}

fn exported(o: &Option<String>, msg: &str) -> (r: Result<String, RtckError>)
    ensures
        match *o {
            Some(p) => r matches Ok(x) && x@ == p@,
            None => r matches Err(e) && err_view(e) == (RtckErrorKind::Config, msg@),
        },
{
    match o {
        Some(p) => Ok(p.clone()),
        None => Err(RtckError::Config(String::from_str(msg))),
    }
}

impl FirecrackerAsync {
    /// Builds a bare Firecracker of a configuration with the given instance
    /// id; without a configured socket it gets `/run/firecracker-<id>.socket`.
    pub fn from_config_with_id(config: &HypervisorConfig, id: String) -> (r: Result<Self, RtckError>)
        ensures
            match firecracker_async_entries_outcome(*config) {
                Err(e) => r matches Err(x) && err_view(x) == e,
                Ok(()) => r matches Ok(f) && f.id@ == id@ && f.bin@ == config.frck_bin->0@
                    && f.socket@ == match config.socket_path {
                        Some(s) => s@,
                        None => default_socket_of(id@),
                    }
                    && f.lock_path@ == config.lock_path->0@ && f.log_path@ == config.log_path->0@
                    && f.metrics_path@ == config.metrics_path->0@
                    && opt_view(f.config_path) == opt_view(config.frck_export_path)
                    && opt_view(f.stdout_to) == opt_view(config.stdout_to) && opt_view(f.stderr_to) == opt_view(config.stderr_to),
            },
    {
        let socket = match &config.socket_path {
            Some(s) => s.clone(),
            None => {
                let mut s = String::from_str("/run/firecracker-");
                s.append(id.as_str());
                s.append(".socket");
                s
            },
        };
        let bin = handle_entry(&config.frck_bin, "firecracker binary")?;
        let lock_path = handle_entry(&config.lock_path, "lock path")?;
        let log_path = handle_entry(&config.log_path, "log path")?;
        let metrics_path = handle_entry(&config.metrics_path, "metrics path")?;
        Ok(FirecrackerAsync {
            id,
            bin,
            socket,
            lock_path,
            log_path,
            metrics_path,
            config_path: config.frck_export_path.clone(),
            stdout_to: config.stdout_to.clone(),
            stderr_to: config.stderr_to.clone(),
        })
    }

    /// Builds a bare Firecracker of a configuration; the instance id is the
    /// configured one, or a random one when none is configured.
    pub fn from_config(config: &HypervisorConfig) -> (r: Result<Self, RtckError>)
        ensures
            match firecracker_async_entries_outcome(*config) {
                Err(e) => r matches Err(x) && err_view(x) == e,
                Ok(()) => r matches Ok(f) && f.bin@ == config.frck_bin->0@
                    && (config.id matches Some(i) ==> f.id@ == i@)
                    && (config.id is None ==> is_uuid_v4_text(f.id@))
                    && f.socket@ == match config.socket_path {
                        Some(s) => s@,
                        None => default_socket_of(f.id@),
                    }
                    && f.lock_path@ == config.lock_path->0@ && f.log_path@ == config.log_path->0@
                    && f.metrics_path@ == config.metrics_path->0@
                    && opt_view(f.config_path) == opt_view(config.frck_export_path)
                    && opt_view(f.stdout_to) == opt_view(config.stdout_to) && opt_view(f.stderr_to) == opt_view(config.stderr_to),
            },
    {
        let id = match &config.id {
            Some(i) => i.clone(),
            None => random_id(),
        };
        Self::from_config_with_id(config, id)
    }

    /// The Firecracker that a laid-out jail runs: the jail's exec file, its
    /// exported socket, lock, log and metrics paths, its configuration file.
    pub fn from_jailer(jailer: JailerAsync) -> (r: Result<Self, RtckError>)
        ensures
            match from_jailer_outcome(jailer.inner) {
                Err(e) => r matches Err(x) && err_view(x) == e,
                Ok(()) => r matches Ok(f) && f.id == jailer.inner.id && f.bin@ == jailer.inner.exec_file@
                    && f.socket@ == jailer.inner.socket_path_export->0@
                    && f.lock_path@ == jailer.inner.lock_path_export->0@
                    && f.log_path@ == jailer.inner.log_path_export->0@
                    && f.metrics_path@ == jailer.inner.metrics_path_export->0@
                    && f.config_path == jailer.inner.config_path
                    && f.stdout_to is None && f.stderr_to is None,
            },
    {
        let bin = jailer.get_firecracker_exec_file().clone();
        let socket = exported(&jailer.inner.socket_path_export, "jailer without socket path exported")?;
        let lock_path = exported(&jailer.inner.lock_path_export, "jailer without lock path exported")?;
        let log_path = exported(&jailer.inner.log_path_export, "jailer without log path exported")?;
        let metrics_path = exported(&jailer.inner.metrics_path_export, "jailer without metrics path exported")?;
        let config_path = jailer.inner.config_path;
        Ok(FirecrackerAsync {
            id: jailer.inner.id,
            bin,
            socket,
            lock_path,
            log_path,
            metrics_path,
            config_path,
            stdout_to: None,
            stderr_to: None,
        })
    }

    /// The socket path.
    pub fn get_socket_path(&self) -> (s: String)
        ensures
            s@ == self.socket@,
    {
        self.socket.clone()
    }

    /// The arguments Firecracker is launched with.
    pub fn launch_args(&self) -> (args: Vec<String>)
        ensures
            views(args@) == firecracker_launch_args(self.socket@, opt_view(self.config_path)),
    {
        launch_args_of(&self.socket, &self.config_path)
    }
}

/// The message of a connection given up: `fail to connect unix socket
/// after <retry> tries`, with a capital `F` where `capitalised` (the
/// synchronous jailer's wording).
pub open spec fn connect_failure_text(retry: nat, capitalised: bool) -> Seq<char> {
    (if capitalised { "Fail"@ } else { "fail"@ }) + " to connect unix socket after "@ + decimal(retry) + " tries"@
}

/// The attempts at connecting to the API socket: `retry` of them at most,
/// one second apart. `capitalised` picks the wording of the failure.
#[derive(Debug)]
pub struct ConnectRetry {
    pub retry: usize,
    pub trying: usize,
    pub capitalised: bool,
}

impl ConnectRetry {
    /// No attempt made yet.
    pub fn new(retry: usize, capitalised: bool) -> (c: Self)
        ensures
            c.retry == retry,
            c.trying == retry,
            c.capitalised == capitalised,
    {
        ConnectRetry { retry, trying: retry, capitalised }
    }

    /// Before an attempt: go on while attempts are left, else give up with
    /// a Firecracker error naming how many were made.
    pub fn check(&self) -> (r: Result<(), RtckError>)
        ensures
            self.trying > 0 ==> r is Ok,
            self.trying == 0 ==> (r matches Err(e)
                && err_view(e) == (RtckErrorKind::Firecracker, connect_failure_text(self.retry as nat, self.capitalised))),
    {
        if self.trying == 0 {
            let mut m = if self.capitalised { String::from_str("Fail") } else { String::from_str("fail") };
            m.append(" to connect unix socket after ");
            push_decimal(&mut m, self.retry as u64);
            m.append(" tries");
            Err(RtckError::Firecracker(m))
        } else {
            Ok(())
        }
    }

    /// After a failed attempt: one attempt fewer is left.
    pub fn failed(&mut self)
        requires
            old(self).trying > 0,
        ensures
            final(self).retry == old(self).retry,
            final(self).capitalised == old(self).capitalised,
            final(self).trying == old(self).trying - 1,
    {
        self.trying = self.trying - 1;
    }
}

} // verus!
