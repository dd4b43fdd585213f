//! Builders of the Firecracker and jailer command lines. The standard streams
//! of the spawned process are attached where the process is spawned.
use vstd::prelude::*;
use vstd::string::*;
use crate::jailer::{opt_view, push_str_arg, push_string_arg, views};
use crate::text::{decimal, decimal_string};

verus! {

/// The Firecracker binary used when none is set.
pub open spec fn default_fc_bin() -> Seq<char> {
    "firecracker"@
}

/// The jailer binary used when none is set.
pub open spec fn default_jailer_bin() -> Seq<char> {
    "jailer"@
}

pub(crate) fn append_all(v: &mut Vec<String>, more: &Vec<String>)
    ensures
        views(final(v)@) == views(old(v)@) + views(more@),
{
    let ghost start = views(v@);
    let mut i: usize = 0;
    while i < more.len()
        invariant
            i <= more@.len(),
            views(v@) == start + views(more@.take(i as int)),
        decreases more@.len() - i,
    {
        push_string_arg(v, more[i].clone());
        assert(views(more@.take(i + 1)) =~= views(more@.take(i as int)).push(more@[i as int]@));
        i = i + 1;
    }
    assert(more@.take(more@.len() as int) =~= more@);
}

/// Builds the command line of a bare Firecracker.
#[derive(Debug)]
pub struct VMMCommandBuilder {
    pub bin: Option<String>,
    pub args: Option<Vec<String>>,
    pub socket_path: Option<String>,
}

impl Default for VMMCommandBuilder {
    /// A builder for the `firecracker` binary.
    fn default() -> (b: Self)
        ensures
            opt_view(b.bin) == Some(default_fc_bin()),
            b.args is None,
            b.socket_path is None,
    {
        VMMCommandBuilder::new().with_bin(&String::from_str("firecracker"))
    }
}

impl VMMCommandBuilder {
    /// A blank builder.
    pub fn new() -> (b: Self)
        ensures
            b.bin is None && b.args is None && b.socket_path is None,
    {
        VMMCommandBuilder { bin: None, args: None, socket_path: None }
    }

    /// Sets the arguments passed through to Firecracker.
    pub fn with_args(self, args: Vec<String>) -> (b: Self)
        ensures
            b.args == Some(args),
            b.bin == self.bin,
            b.socket_path == self.socket_path,
    {
        VMMCommandBuilder { args: Some(args), ..self }
    }

    /// Appends arguments to those already set.
    pub fn add_args(&mut self, args: Vec<String>)
        ensures
            final(self).args matches Some(a) && views(a@) == match old(self).args {
                Some(b) => views(b@) + views(args@),
                None => views(args@),
            },
            final(self).bin == old(self).bin,
            final(self).socket_path == old(self).socket_path,
    {
        match &mut self.args {
            Some(a) => {
                append_all(a, &args);
            },
            None => {
                self.args = Some(args);
            },
        }
    }

    /// The binary set, or `firecracker` when none is set.
    pub fn bin(&self) -> (p: String)
        ensures
            p@ == match self.bin {
                Some(b) => b@,
                None => default_fc_bin(),
            },
    {
        match &self.bin {
            Some(b) => b.clone(),
            None => String::from_str("firecracker"),
        }
    }

    /// Sets the Firecracker binary.
    pub fn with_bin(self, bin: &String) -> (b: Self)
        ensures
            opt_view(b.bin) == Some(bin@),
            b.args == self.args,
            b.socket_path == self.socket_path,
    {
        VMMCommandBuilder { bin: Some(bin.clone()), ..self }
    }

    /// Sets the API socket path.
    pub fn with_socket_path(self, path: &String) -> (b: Self)
        ensures
            opt_view(b.socket_path) == Some(path@),
            b.args == self.args,
            b.bin == self.bin,
    {
        VMMCommandBuilder { socket_path: Some(path.clone()), ..self }
    }

    /// The arguments of the command: the API socket when set, then the
    /// arguments set.
    pub fn command_args(&self) -> (v: Vec<String>)
        ensures
            views(v@) == (match self.socket_path {
                Some(p) => seq!["--api-sock"@, p@],
                None => Seq::empty(),
            }) + match self.args {
                Some(a) => views(a@),
                None => Seq::empty(),
            },
    {
        let mut v: Vec<String> = Vec::new();
        if let Some(p) = &self.socket_path {
            push_str_arg(&mut v, "--api-sock");
            push_string_arg(&mut v, p.clone());
        }
        if let Some(a) = &self.args {
            append_all(&mut v, a);
        }
        assert(views(v@) =~= (match self.socket_path {
            Some(p) => seq!["--api-sock"@, p@],
            None => Seq::empty(),
        }) + match self.args {
            Some(a) => views(a@),
            None => Seq::empty(),
        });
        v
    }
}

/// Builds the command line of the jailer as a machine is jailed: its
/// arguments carry no NUMA node (see `jailer_command::JailerCommandBuilder`
/// for the client's builder, which passes one).
#[derive(Debug)]
pub struct JailerCommandBuilder {
    pub bin: String,
    pub id: String,
    pub uid: u32,
    pub gid: u32,
    pub exec_file: String,
    pub node: usize,
    pub chroot_base_dir: Option<String>,
    pub net_ns: Option<String>,
    pub daemonize: Option<bool>,
    pub firecracker_args: Option<Vec<String>>,
}

/// The jailer's arguments as the machine builds them (no NUMA node
/// argument): id, uid, gid and exec file, then the chroot base
/// directory and network namespace when set, `--daemonize` when asked for,
/// and `--` followed by Firecracker's arguments when there are any.
pub open spec fn jailer_builder_args(b: JailerCommandBuilder) -> Seq<Seq<char>> {
    seq!["--id"@, b.id@, "--uid"@, decimal(b.uid as nat), "--gid"@, decimal(b.gid as nat), "--exec-file"@, b.exec_file@]
        + match b.chroot_base_dir {
            Some(d) => seq!["--chroot-base-dir"@, d@],
            None => Seq::empty(),
        }
        + match b.net_ns {
            Some(n) => seq!["--netns"@, n@],
            None => Seq::empty(),
        }
        + (if b.daemonize == Some(true) { seq!["--daemonize"@] } else { Seq::empty() })
        + match b.firecracker_args {
            Some(a) => seq!["--"@] + views(a@),
            None => Seq::empty(),
        }
}

impl JailerCommandBuilder {
    /// A builder for the `jailer` binary with empty id and exec file, ids and
    /// NUMA node 0, and nothing optional set.
    pub fn new() -> (b: Self)
        ensures
            b.bin@ == default_jailer_bin(),
            b.id@ == Seq::<char>::empty(),
            b.uid == 0 && b.gid == 0 && b.node == 0,
            b.exec_file@ == Seq::<char>::empty(),
            b.chroot_base_dir is None && b.net_ns is None && b.daemonize is None && b.firecracker_args is None,
    {
        JailerCommandBuilder {
            bin: String::from_str("jailer"),
            id: String::new(),
            uid: 0,
            gid: 0,
            exec_file: String::new(),
            node: 0,
            chroot_base_dir: None,
            net_ns: None,
            daemonize: None,
            firecracker_args: None,
        }
    }

    /// The arguments the jailer is run with when a machine is jailed: no
    /// NUMA node argument.
    pub fn args(&self) -> (v: Vec<String>)
        ensures
            views(v@) == jailer_builder_args(*self),
    {
        let mut v: Vec<String> = Vec::new();
        push_str_arg(&mut v, "--id");
        push_string_arg(&mut v, self.id.clone());
        push_str_arg(&mut v, "--uid");
        push_string_arg(&mut v, decimal_string(self.uid as u64));
        push_str_arg(&mut v, "--gid");
        push_string_arg(&mut v, decimal_string(self.gid as u64));
        push_str_arg(&mut v, "--exec-file");
        push_string_arg(&mut v, self.exec_file.clone());
        if let Some(d) = &self.chroot_base_dir {
            push_str_arg(&mut v, "--chroot-base-dir");
            push_string_arg(&mut v, d.clone());
        }
        if let Some(n) = &self.net_ns {
            push_str_arg(&mut v, "--netns");
            push_string_arg(&mut v, n.clone());
        }
        if self.daemonize == Some(true) {
            push_str_arg(&mut v, "--daemonize");
        }
        if let Some(a) = &self.firecracker_args {
            push_str_arg(&mut v, "--");
            append_all(&mut v, a);
        }
        assert(views(v@) =~= jailer_builder_args(*self));
        v
    }

    /// The jailer binary.
    pub fn bin(&self) -> (p: String)
        ensures
            p == self.bin,
    {
        self.bin.clone()
    }

    pub fn with_bin(self, bin: String) -> (b: Self)
        ensures
            b == (JailerCommandBuilder { bin: bin, ..self }),
    {
        JailerCommandBuilder { bin, ..self }
    }

    pub fn with_id(self, id: &String) -> (b: Self)
        ensures
            b == (JailerCommandBuilder { id: *id, ..self }),
    {
        JailerCommandBuilder { id: id.clone(), ..self }
    }

    pub fn with_uid(self, uid: &u32) -> (b: Self)
        ensures
            b == (JailerCommandBuilder { uid: *uid, ..self }),
    {
        JailerCommandBuilder { uid: *uid, ..self }
    }

    pub fn with_gid(self, gid: &u32) -> (b: Self)
        ensures
            b == (JailerCommandBuilder { gid: *gid, ..self }),
    {
        JailerCommandBuilder { gid: *gid, ..self }
    }

    /// Sets the Firecracker binary that the jailer execs.
    pub fn with_exec_file(self, path: String) -> (b: Self)
        ensures
            b == (JailerCommandBuilder { exec_file: path, ..self }),
    {
        JailerCommandBuilder { exec_file: path, ..self }
    }

    /// Sets the NUMA node the process is assigned to.
    pub fn with_numa_node(self, node: &usize) -> (b: Self)
        ensures
            b == (JailerCommandBuilder { node: *node, ..self }),
    {
        JailerCommandBuilder { node: *node, ..self }
    }

    /// Sets where chroot jails are built.
    pub fn with_chroot_base_dir(self, path: String) -> (b: Self)
        ensures
            b == (JailerCommandBuilder { chroot_base_dir: Some(path), ..self }),
    {
        JailerCommandBuilder { chroot_base_dir: Some(path), ..self }
    }

    /// Sets the network namespace to join.
    pub fn with_net_ns(self, path: String) -> (b: Self)
        ensures
            b == (JailerCommandBuilder { net_ns: Some(path), ..self }),
    {
        JailerCommandBuilder { net_ns: Some(path), ..self }
    }

    /// Sets whether the jailer daemonizes.
    pub fn with_daemonize(self, daemonize: &bool) -> (b: Self)
        ensures
            b == (JailerCommandBuilder { daemonize: Some(*daemonize), ..self }),
    {
        JailerCommandBuilder { daemonize: Some(*daemonize), ..self }
    }

    /// Sets the arguments passed on to Firecracker after `--`.
    pub fn with_firecracker_args(self, args: Vec<String>) -> (b: Self)
        ensures
            b == (JailerCommandBuilder { firecracker_args: Some(args), ..self }),
    {
        JailerCommandBuilder { firecracker_args: Some(args), ..self }
    }
}

} // verus!
