//! The jailer's command line as a client builds it when jailing Firecracker.
use vstd::prelude::*;
use vstd::string::*;
use crate::command_builder::{append_all, default_jailer_bin};
use crate::jailer::{push_str_arg, push_string_arg, views};
use crate::text::{decimal, decimal_string};

verus! {

/// Builds the command line of the jailer, NUMA node included.
#[derive(Debug)]
pub struct JailerCommandBuilder {
    pub bin: String,
    pub id: String,
    pub uid: u32,
    pub gid: u32,
    pub exec_file: String,
    pub node: usize,
    pub chroot_base_dir: Option<String>,
    pub net_ns: Option<String>,
    pub daemonize: Option<bool>,
    pub firecracker_args: Option<Vec<String>>,
}

/// The jailer's arguments: id, uid, gid, exec file and NUMA node, then the
/// chroot base directory and network namespace when set, `--daemonize` when
/// asked for, and `--` followed by Firecracker's arguments when there are
/// any.
pub open spec fn jailer_args(b: JailerCommandBuilder) -> Seq<Seq<char>> {
    seq!["--id"@, b.id@, "--uid"@, decimal(b.uid as nat), "--gid"@, decimal(b.gid as nat), "--exec-file"@, b.exec_file@,
        "--node"@, decimal(b.node as nat)]
        + match b.chroot_base_dir {
            Some(d) => seq!["--chroot-base-dir"@, d@],
            None => Seq::empty(),
        }
        + match b.net_ns {
            Some(n) => seq!["--netns"@, n@],
            None => Seq::empty(),
        }
        + (if b.daemonize == Some(true) { seq!["--daemonize"@] } else { Seq::empty() })
        + match b.firecracker_args {
            Some(a) => seq!["--"@] + views(a@),
            None => Seq::empty(),
        }
}

impl JailerCommandBuilder {
    /// A builder for the `jailer` binary with empty id and exec file, ids and
    /// NUMA node 0, and nothing optional set.
    pub fn new() -> (b: Self)
        ensures
            b.bin@ == default_jailer_bin(),
            b.id@ == Seq::<char>::empty(),
            b.uid == 0 && b.gid == 0 && b.node == 0,
            b.exec_file@ == Seq::<char>::empty(),
            b.chroot_base_dir is None && b.net_ns is None && b.daemonize is None && b.firecracker_args is None,
    {
        JailerCommandBuilder {
            bin: String::from_str("jailer"),
            id: String::new(),
            uid: 0,
            gid: 0,
            exec_file: String::new(),
            node: 0,
            chroot_base_dir: None,
            net_ns: None,
            daemonize: None,
            firecracker_args: None,
        }
    }

    /// The arguments the jailer is run with.
    pub fn args(&self) -> (v: Vec<String>)
        ensures
            views(v@) == jailer_args(*self),
    {
        let mut v: Vec<String> = Vec::new();
        push_str_arg(&mut v, "--id");
        push_string_arg(&mut v, self.id.clone());
        push_str_arg(&mut v, "--uid");
        push_string_arg(&mut v, decimal_string(self.uid as u64));
        push_str_arg(&mut v, "--gid");
        push_string_arg(&mut v, decimal_string(self.gid as u64));
        push_str_arg(&mut v, "--exec-file");
        push_string_arg(&mut v, self.exec_file.clone());
        push_str_arg(&mut v, "--node");
        push_string_arg(&mut v, decimal_string(self.node as u64));
        if let Some(d) = &self.chroot_base_dir {
            push_str_arg(&mut v, "--chroot-base-dir");
            push_string_arg(&mut v, d.clone());
        }
        if let Some(n) = &self.net_ns {
            push_str_arg(&mut v, "--netns");
            push_string_arg(&mut v, n.clone());
        }
        if self.daemonize == Some(true) {
            push_str_arg(&mut v, "--daemonize");
        }
        if let Some(a) = &self.firecracker_args {
            push_str_arg(&mut v, "--");
            append_all(&mut v, a);
        }
        assert(views(v@) =~= jailer_args(*self));
        v
    }

    /// The jailer binary.
    pub fn bin(&self) -> (p: String)
        ensures
            p == self.bin,
    {
        self.bin.clone()
    }

    pub fn with_bin(self, bin: String) -> (b: Self)
        ensures
            b == (JailerCommandBuilder { bin: bin, ..self }),
    {
        JailerCommandBuilder { bin, ..self }
    }

    pub fn with_id(self, id: &String) -> (b: Self)
        ensures
            b == (JailerCommandBuilder { id: *id, ..self }),
    {
        JailerCommandBuilder { id: id.clone(), ..self }
    }

    pub fn with_uid(self, uid: &u32) -> (b: Self)
        ensures
            b == (JailerCommandBuilder { uid: *uid, ..self }),
    {
        JailerCommandBuilder { uid: *uid, ..self }
    }

    pub fn with_gid(self, gid: &u32) -> (b: Self)
        ensures
            b == (JailerCommandBuilder { gid: *gid, ..self }),
    {
        JailerCommandBuilder { gid: *gid, ..self }
    }

    /// Sets the Firecracker binary that the jailer execs.
    pub fn with_exec_file(self, path: String) -> (b: Self)
        ensures
            b == (JailerCommandBuilder { exec_file: path, ..self }),
    {
        JailerCommandBuilder { exec_file: path, ..self }
    }

    /// Sets the NUMA node the process is assigned to.
    pub fn with_numa_node(self, node: &usize) -> (b: Self)
        ensures
            b == (JailerCommandBuilder { node: *node, ..self }),
    {
        JailerCommandBuilder { node: *node, ..self }
    }

    /// Sets where chroot jails are built.
    pub fn with_chroot_base_dir(self, path: String) -> (b: Self)
        ensures
            b == (JailerCommandBuilder { chroot_base_dir: Some(path), ..self }),
    {
        JailerCommandBuilder { chroot_base_dir: Some(path), ..self }
    }

    /// Sets the network namespace to join.
    pub fn with_net_ns(self, path: String) -> (b: Self)
        ensures
            b == (JailerCommandBuilder { net_ns: Some(path), ..self }),
    {
        JailerCommandBuilder { net_ns: Some(path), ..self }
    }

    /// Sets whether the jailer daemonizes.
    pub fn with_daemonize(self, daemonize: &bool) -> (b: Self)
        ensures
            b == (JailerCommandBuilder { daemonize: Some(*daemonize), ..self }),
    {
        JailerCommandBuilder { daemonize: Some(*daemonize), ..self }
    }

    /// Sets the arguments passed on to Firecracker after `--`.
    pub fn with_firecracker_args(self, args: Vec<String>) -> (b: Self)
        ensures
            b == (JailerCommandBuilder { firecracker_args: Some(args), ..self }),
    {
        JailerCommandBuilder { firecracker_args: Some(args), ..self }
    }
}


} // verus!
