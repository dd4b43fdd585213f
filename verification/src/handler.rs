//! Named handlers that prepare and start a microVM, the ordered lists they
//! are kept in, and the list operations with the laws they obey.
use vstd::prelude::*;
use vstd::string::*;
use crate::machine::{jailer_handler_outcome, machine_err_view, machine_outcome, network_outcome, MachineConfig, MachineError, MachineErrorKind};
use crate::paths::{file_name, path_file_name};

verus! {

/// Marks the types that name a handler.
pub trait HandlerName {
}

/// Which handler a name denotes; handlers are compared by it.
#[derive(Clone, Copy, PartialEq, Eq, Structural, Debug)]
pub enum HandlerKind {
    StartVMM,
    BootstrapLogging,
    CreateLogFiles,
    CreateMachine,
    CreateBootSource,
    AttachDrives,
    CreateNetworkInterfaces,
    AddVsocks,
    SetMetadata,
    ConfigMmds,
    LinkFilesToRootFS,
    SetupNetwork,
    SetupKernelArgs,
    CreateBalloon,
    ValidateCfg,
    ValidateJailerCfg,
    ValidateNetworkCfg,
}

/// The name of the `StartVMM` handler.
#[derive(Clone, Copy, Debug, PartialEq, Eq, PartialOrd, Ord)]
pub struct StartVMMHandlerName;

impl HandlerName for StartVMMHandlerName {
}

impl StartVMMHandlerName {
    /// The handler kind this name denotes.
    pub fn kind(&self) -> (k: HandlerKind)
        ensures
            k == HandlerKind::StartVMM,
    {
        HandlerKind::StartVMM
    }
}

/// The name of the `BootstrapLogging` handler.
#[derive(Clone, Copy, Debug, PartialEq, Eq, PartialOrd, Ord)]
pub struct BootstrapLoggingHandlerName;

impl HandlerName for BootstrapLoggingHandlerName {
}

impl BootstrapLoggingHandlerName {
    /// The handler kind this name denotes.
    pub fn kind(&self) -> (k: HandlerKind)
        ensures
            k == HandlerKind::BootstrapLogging,
    {
        HandlerKind::BootstrapLogging
    }
}

/// The name of the `CreateLogFiles` handler.
#[derive(Clone, Copy, Debug, PartialEq, Eq, PartialOrd, Ord)]
pub struct CreateLogFilesHandlerName;

impl HandlerName for CreateLogFilesHandlerName {
}

impl CreateLogFilesHandlerName {
    /// The handler kind this name denotes.
    pub fn kind(&self) -> (k: HandlerKind)
        ensures
            k == HandlerKind::CreateLogFiles,
    {
        HandlerKind::CreateLogFiles
    }
}

/// The name of the `CreateMachine` handler.
#[derive(Clone, Copy, Debug, PartialEq, Eq, PartialOrd, Ord)]
pub struct CreateMachineHandlerName;

impl HandlerName for CreateMachineHandlerName {
}

impl CreateMachineHandlerName {
    /// The handler kind this name denotes.
    pub fn kind(&self) -> (k: HandlerKind)
        ensures
            k == HandlerKind::CreateMachine,
    {
        HandlerKind::CreateMachine
    }
}

/// The name of the `CreateBootSource` handler.
#[derive(Clone, Copy, Debug, PartialEq, Eq, PartialOrd, Ord)]
pub struct CreateBootSourceHandlerName;

impl HandlerName for CreateBootSourceHandlerName {
}

impl CreateBootSourceHandlerName {
    /// The handler kind this name denotes.
    pub fn kind(&self) -> (k: HandlerKind)
        ensures
            k == HandlerKind::CreateBootSource,
    {
        HandlerKind::CreateBootSource
    }
}

/// The name of the `AttachDrives` handler.
#[derive(Clone, Copy, Debug, PartialEq, Eq, PartialOrd, Ord)]
pub struct AttachDrivesHandlerName;

impl HandlerName for AttachDrivesHandlerName {
}

impl AttachDrivesHandlerName {
    /// The handler kind this name denotes.
    pub fn kind(&self) -> (k: HandlerKind)
        ensures
            k == HandlerKind::AttachDrives,
    {
        HandlerKind::AttachDrives
    }
}

/// The name of the `CreateNetworkInterfaces` handler.
#[derive(Clone, Copy, Debug, PartialEq, Eq, PartialOrd, Ord)]
pub struct CreateNetworkInterfacesHandlerName;

impl HandlerName for CreateNetworkInterfacesHandlerName {
}

impl CreateNetworkInterfacesHandlerName {
    /// The handler kind this name denotes.
    pub fn kind(&self) -> (k: HandlerKind)
        ensures
            k == HandlerKind::CreateNetworkInterfaces,
    {
        HandlerKind::CreateNetworkInterfaces
    }
}

/// The name of the `AddVsocks` handler.
#[derive(Clone, Copy, Debug, PartialEq, Eq, PartialOrd, Ord)]
pub struct AddVsocksHandlerName;

impl HandlerName for AddVsocksHandlerName {
}

impl AddVsocksHandlerName {
    /// The handler kind this name denotes.
    pub fn kind(&self) -> (k: HandlerKind)
        ensures
            k == HandlerKind::AddVsocks,
    {
        HandlerKind::AddVsocks
    }
}

/// The name of the `SetMetadata` handler.
#[derive(Clone, Copy, Debug, PartialEq, Eq, PartialOrd, Ord)]
pub struct SetMetadataHandlerName;

impl HandlerName for SetMetadataHandlerName {
}

impl SetMetadataHandlerName {
    /// The handler kind this name denotes.
    pub fn kind(&self) -> (k: HandlerKind)
        ensures
            k == HandlerKind::SetMetadata,
    {
        HandlerKind::SetMetadata
    }
}

/// The name of the `ConfigMmds` handler.
#[derive(Clone, Copy, Debug, PartialEq, Eq, PartialOrd, Ord)]
pub struct ConfigMmdsHandlerName;

impl HandlerName for ConfigMmdsHandlerName {
}

impl ConfigMmdsHandlerName {
    /// The handler kind this name denotes.
    pub fn kind(&self) -> (k: HandlerKind)
        ensures
            k == HandlerKind::ConfigMmds,
    {
        HandlerKind::ConfigMmds
    }
}

/// The name of the `LinkFilesToRootFS` handler.
#[derive(Clone, Copy, Debug, PartialEq, Eq, PartialOrd, Ord)]
pub struct LinkFilesToRootFSHandlerName;

impl HandlerName for LinkFilesToRootFSHandlerName {
}

impl LinkFilesToRootFSHandlerName {
    /// The handler kind this name denotes.
    pub fn kind(&self) -> (k: HandlerKind)
        ensures
            k == HandlerKind::LinkFilesToRootFS,
    {
        HandlerKind::LinkFilesToRootFS
    }
}

/// The name of the `SetupNetwork` handler.
#[derive(Clone, Copy, Debug, PartialEq, Eq, PartialOrd, Ord)]
pub struct SetupNetworkHandlerName;

impl HandlerName for SetupNetworkHandlerName {
}

impl SetupNetworkHandlerName {
    /// The handler kind this name denotes.
    pub fn kind(&self) -> (k: HandlerKind)
        ensures
            k == HandlerKind::SetupNetwork,
    {
        HandlerKind::SetupNetwork
    }
}

/// The name of the `SetupKernelArgs` handler.
#[derive(Clone, Copy, Debug, PartialEq, Eq, PartialOrd, Ord)]
pub struct SetupKernelArgsHandlerName;

impl HandlerName for SetupKernelArgsHandlerName {
}

impl SetupKernelArgsHandlerName {
    /// The handler kind this name denotes.
    pub fn kind(&self) -> (k: HandlerKind)
        ensures
            k == HandlerKind::SetupKernelArgs,
    {
        HandlerKind::SetupKernelArgs
    }
}

/// The name of the `CreateBalloon` handler.
#[derive(Clone, Copy, Debug, PartialEq, Eq, PartialOrd, Ord)]
pub struct CreateBalloonHandlerName;

impl HandlerName for CreateBalloonHandlerName {
}

impl CreateBalloonHandlerName {
    /// The handler kind this name denotes.
    pub fn kind(&self) -> (k: HandlerKind)
        ensures
            k == HandlerKind::CreateBalloon,
    {
        HandlerKind::CreateBalloon
    }
}

/// The name of the `ValidateCfg` handler.
#[derive(Clone, Copy, Debug, PartialEq, Eq, PartialOrd, Ord)]
pub struct ValidateCfgHandlerName;

impl HandlerName for ValidateCfgHandlerName {
}

impl ValidateCfgHandlerName {
    /// The handler kind this name denotes.
    pub fn kind(&self) -> (k: HandlerKind)
        ensures
            k == HandlerKind::ValidateCfg,
    {
        HandlerKind::ValidateCfg
    }
}

/// The name of the `ValidateJailerCfg` handler.
#[derive(Clone, Copy, Debug, PartialEq, Eq, PartialOrd, Ord)]
pub struct ValidateJailerCfgHandlerName;

impl HandlerName for ValidateJailerCfgHandlerName {
}

impl ValidateJailerCfgHandlerName {
    /// The handler kind this name denotes.
    pub fn kind(&self) -> (k: HandlerKind)
        ensures
            k == HandlerKind::ValidateJailerCfg,
    {
        HandlerKind::ValidateJailerCfg
    }
}

/// The name of the `ValidateNetworkCfg` handler.
#[derive(Clone, Copy, Debug, PartialEq, Eq, PartialOrd, Ord)]
pub struct ValidateNetworkCfgHandlerName;

impl HandlerName for ValidateNetworkCfgHandlerName {
}

impl ValidateNetworkCfgHandlerName {
    /// The handler kind this name denotes.
    pub fn kind(&self) -> (k: HandlerKind)
        ensures
            k == HandlerKind::ValidateNetworkCfg,
    {
        HandlerKind::ValidateNetworkCfg
    }
}

/// A handler: a named step of preparing or starting a microVM.
#[derive(Debug)]
pub enum Handler {
    /// Validates that the required fields are present (without the jailer).
    ConfigValidationHandler {
        name: ValidateCfgHandlerName,
    },
    /// Validates the jailer's required fields.
    JailerConfigValidationHandler {
        name: ValidateJailerCfgHandlerName,
    },
    /// Validates the network configuration.
    NetworkConfigValidationHandler {
        name: ValidateNetworkCfgHandlerName,
    },
    /// Starts the VMM.
    StartVMMHandler {
        name: StartVMMHandlerName,
    },
    /// Creates the log and metrics fifos or files.
    CreateLogFilesHandler {
        name: CreateLogFilesHandlerName,
    },
    /// Sets up logging and metrics of the Firecracker process.
    BootstrapLoggingHandler {
        name: BootstrapLoggingHandlerName,
    },
    /// Puts the machine configuration to the Firecracker process.
    CreateMachineHandler {
        name: CreateMachineHandlerName,
    },
    /// Sets up the boot source.
    CreateBootSourceHandler {
        name: CreateBootSourceHandlerName,
    },
    /// Attaches all drives.
    AttachDrivesHandler {
        name: AttachDrivesHandlerName,
    },
    /// Registers the network interfaces.
    CreateNetworkInterfacesHandler {
        name: CreateNetworkInterfacesHandlerName,
    },
    /// Sets up the network namespace and interfaces before the VMM starts.
    SetupNetworkHandler {
        name: SetupNetworkHandlerName,
    },
    /// Updates the kernel boot arguments.
    SetupKernelArgsHandler {
        name: SetupKernelArgsHandlerName,
    },
    /// Adds the vsock devices.
    AddVsocksHandler {
        name: AddVsocksHandlerName,
    },
    /// Puts the metadata into the Firecracker process.
    NewSetMetadataHandler {
        name: SetMetadataHandlerName,
        data: String,
    },
    /// Puts the MMDS configuration into the Firecracker process.
    ConfigMmdsHandler {
        name: ConfigMmdsHandlerName,
    },
    /// Puts a memory balloon into the Firecracker process.
    NewCreateBalloonHandler {
        name: CreateBalloonHandlerName,
        amount_mib: i64,
        deflate_on_oom: bool,
        stats_polling_interval_s: i64,
    },
    /// Links the kernel image, drives and fifos into the jail's root file system.
    LinkFilesHandler {
        name: LinkFilesToRootFSHandlerName,
        kernel_image_file_name: String,
    },
}

impl Handler {
    /// Which handler this is.
    pub open spec fn kind(self) -> HandlerKind {
        match self {
            Handler::ConfigValidationHandler { .. } => HandlerKind::ValidateCfg,
            Handler::JailerConfigValidationHandler { .. } => HandlerKind::ValidateJailerCfg,
            Handler::NetworkConfigValidationHandler { .. } => HandlerKind::ValidateNetworkCfg,
            Handler::StartVMMHandler { .. } => HandlerKind::StartVMM,
            Handler::CreateLogFilesHandler { .. } => HandlerKind::CreateLogFiles,
            Handler::BootstrapLoggingHandler { .. } => HandlerKind::BootstrapLogging,
            Handler::CreateMachineHandler { .. } => HandlerKind::CreateMachine,
            Handler::CreateBootSourceHandler { .. } => HandlerKind::CreateBootSource,
            Handler::AttachDrivesHandler { .. } => HandlerKind::AttachDrives,
            Handler::CreateNetworkInterfacesHandler { .. } => HandlerKind::CreateNetworkInterfaces,
            Handler::SetupNetworkHandler { .. } => HandlerKind::SetupNetwork,
            Handler::SetupKernelArgsHandler { .. } => HandlerKind::SetupKernelArgs,
            Handler::AddVsocksHandler { .. } => HandlerKind::AddVsocks,
            Handler::NewSetMetadataHandler { .. } => HandlerKind::SetMetadata,
            Handler::ConfigMmdsHandler { .. } => HandlerKind::ConfigMmds,
            Handler::NewCreateBalloonHandler { .. } => HandlerKind::CreateBalloon,
            Handler::LinkFilesHandler { .. } => HandlerKind::LinkFilesToRootFS,
        }
    }

    /// The name of this handler, by which lists find it.
    pub fn name(&self) -> (k: HandlerKind)
        ensures
            k == self.kind(),
    {
        match self {
            Handler::ConfigValidationHandler { name, .. } => name.kind(),
            Handler::JailerConfigValidationHandler { name, .. } => name.kind(),
            Handler::NetworkConfigValidationHandler { name, .. } => name.kind(),
            Handler::StartVMMHandler { name, .. } => name.kind(),
            Handler::CreateLogFilesHandler { name, .. } => name.kind(),
            Handler::BootstrapLoggingHandler { name, .. } => name.kind(),
            Handler::CreateMachineHandler { name, .. } => name.kind(),
            Handler::CreateBootSourceHandler { name, .. } => name.kind(),
            Handler::AttachDrivesHandler { name, .. } => name.kind(),
            Handler::CreateNetworkInterfacesHandler { name, .. } => name.kind(),
            Handler::SetupNetworkHandler { name, .. } => name.kind(),
            Handler::SetupKernelArgsHandler { name, .. } => name.kind(),
            Handler::AddVsocksHandler { name, .. } => name.kind(),
            Handler::NewSetMetadataHandler { name, .. } => name.kind(),
            Handler::ConfigMmdsHandler { name, .. } => name.kind(),
            Handler::NewCreateBalloonHandler { name, .. } => name.kind(),
            Handler::LinkFilesHandler { name, .. } => name.kind(),
        }
    }

    /// A copy of this handler.
    pub fn duplicate(&self) -> (h: Handler)
        ensures
            h == *self,
    {
        match self {
            Handler::ConfigValidationHandler { name } => Handler::ConfigValidationHandler { name: *name },
            Handler::JailerConfigValidationHandler { name } => Handler::JailerConfigValidationHandler { name: *name },
            Handler::NetworkConfigValidationHandler { name } => Handler::NetworkConfigValidationHandler { name: *name },
            Handler::StartVMMHandler { name } => Handler::StartVMMHandler { name: *name },
            Handler::CreateLogFilesHandler { name } => Handler::CreateLogFilesHandler { name: *name },
            Handler::BootstrapLoggingHandler { name } => Handler::BootstrapLoggingHandler { name: *name },
            Handler::CreateMachineHandler { name } => Handler::CreateMachineHandler { name: *name },
            Handler::CreateBootSourceHandler { name } => Handler::CreateBootSourceHandler { name: *name },
            Handler::AttachDrivesHandler { name } => Handler::AttachDrivesHandler { name: *name },
            Handler::CreateNetworkInterfacesHandler { name } => Handler::CreateNetworkInterfacesHandler { name: *name },
            Handler::SetupNetworkHandler { name } => Handler::SetupNetworkHandler { name: *name },
            Handler::SetupKernelArgsHandler { name } => Handler::SetupKernelArgsHandler { name: *name },
            Handler::AddVsocksHandler { name } => Handler::AddVsocksHandler { name: *name },
            Handler::NewSetMetadataHandler { name, data } => Handler::NewSetMetadataHandler { name: *name, data: data.clone() },
            Handler::ConfigMmdsHandler { name } => Handler::ConfigMmdsHandler { name: *name },
            Handler::NewCreateBalloonHandler { name, amount_mib, deflate_on_oom, stats_polling_interval_s } => Handler::NewCreateBalloonHandler { name: *name, amount_mib: *amount_mib, deflate_on_oom: *deflate_on_oom, stats_polling_interval_s: *stats_polling_interval_s },
            Handler::LinkFilesHandler { name, kernel_image_file_name } => Handler::LinkFilesHandler { name: *name, kernel_image_file_name: kernel_image_file_name.clone() },
        }
    }
}

/// The kinds of the handlers of a list, in order.
pub open spec fn kinds(s: Seq<Handler>) -> Seq<HandlerKind> {
    s.map_values(|h: Handler| h.kind())
}

/// Whether a handler of the given kind is in the list.
pub open spec fn has_kind(s: Seq<Handler>, name: HandlerKind) -> bool {
    exists|i: int| 0 <= i < s.len() && (#[trigger] s[i]).kind() == name
}

/// How many handlers of the given kind are in the list.
pub open spec fn count_kind(s: Seq<Handler>, name: HandlerKind) -> nat
    decreases s.len(),
{
    if s.len() == 0 {
        0
    } else {
        count_kind(s.drop_last(), name) + if s.last().kind() == name { 1nat } else { 0nat }
    }
}

/// The list without the handlers of the given kind, the others in order.
pub open spec fn without_kind(s: Seq<Handler>, name: HandlerKind) -> Seq<Handler>
    decreases s.len(),
{
    if s.len() == 0 {
        s
    } else {
        without_kind(s.drop_last(), name) + if s.last().kind() == name {
            Seq::<Handler>::empty()
        } else {
            seq![s.last()]
        }
    }
}

/// The list with every handler of `h`'s kind replaced by `h`.
pub open spec fn with_replaced(s: Seq<Handler>, h: Handler) -> Seq<Handler>
    decreases s.len(),
{
    if s.len() == 0 {
        s
    } else {
        with_replaced(s.drop_last(), h).push(if s.last().kind() == h.kind() { h } else { s.last() })
    }
}

/// The list with `h` inserted right after every handler of the given kind.
pub open spec fn with_after(s: Seq<Handler>, name: HandlerKind, h: Handler) -> Seq<Handler>
    decreases s.len(),
{
    if s.len() == 0 {
        s
    } else {
        with_after(s.drop_last(), name, h) + if s.last().kind() == name {
            seq![s.last(), h]
        } else {
            seq![s.last()]
        }
    }
}

/// The list after `replacend`: replaced where the kind is present, appended
/// otherwise.
pub open spec fn with_replacend(s: Seq<Handler>, h: Handler) -> Seq<Handler> {
    if has_kind(s, h.kind()) {
        with_replaced(s, h)
    } else {
        s.push(h)
    }
}

/// An ordered list of handlers.
#[derive(Debug)]
pub struct HandlerList(pub Vec<Handler>);

impl View for HandlerList {
    type V = Seq<Handler>;

    open spec fn view(&self) -> Seq<Handler> {
        self.0@
    }
}

/// The handlers that set up and start a microVM, in the order they run.
pub open spec fn default_fcinit_kinds() -> Seq<HandlerKind> {
    seq![
        HandlerKind::SetupNetwork,
        HandlerKind::SetupKernelArgs,
        HandlerKind::StartVMM,
        HandlerKind::CreateLogFiles,
        HandlerKind::BootstrapLogging,
        HandlerKind::CreateMachine,
        HandlerKind::CreateBootSource,
        HandlerKind::AttachDrives,
        HandlerKind::CreateNetworkInterfaces,
        HandlerKind::AddVsocks,
    ]
}

impl HandlerList {
    /// The default set-up handlers.
    pub fn default_fcinit_handler_list() -> (l: Self)
        ensures
            kinds(l@) == default_fcinit_kinds(),
    {
        let mut v: Vec<Handler> = Vec::new();
        v.push(Handler::SetupNetworkHandler { name: SetupNetworkHandlerName });
        v.push(Handler::SetupKernelArgsHandler { name: SetupKernelArgsHandlerName });
        v.push(Handler::StartVMMHandler { name: StartVMMHandlerName });
        v.push(Handler::CreateLogFilesHandler { name: CreateLogFilesHandlerName });
        v.push(Handler::BootstrapLoggingHandler { name: BootstrapLoggingHandlerName });
        v.push(Handler::CreateMachineHandler { name: CreateMachineHandlerName });
        v.push(Handler::CreateBootSourceHandler { name: CreateBootSourceHandlerName });
        v.push(Handler::AttachDrivesHandler { name: AttachDrivesHandlerName });
        v.push(Handler::CreateNetworkInterfacesHandler { name: CreateNetworkInterfacesHandlerName });
        v.push(Handler::AddVsocksHandler { name: AddVsocksHandlerName });
        let l = HandlerList(v);
        assert(kinds(l@) =~= default_fcinit_kinds());
        l
    }

    /// The default validation handlers: the network check.
    pub fn default_validation_handler_list() -> (l: Self)
        ensures
            kinds(l@) == seq![HandlerKind::ValidateNetworkCfg],
    {
        let mut v: Vec<Handler> = Vec::new();
        v.push(Handler::NetworkConfigValidationHandler { name: ValidateNetworkCfgHandlerName });
        let l = HandlerList(v);
        assert(kinds(l@) =~= seq![HandlerKind::ValidateNetworkCfg]);
        l
    }

    /// Puts the given handlers in front of the list, in their order.
    pub fn prepend(&mut self, handlers: Vec<Handler>)
        ensures
            final(self)@ == handlers@ + old(self)@,
    {
        let mut v = handlers;
        let ghost hs = v@;
        let ghost old_list = self@;
        let mut i: usize = 0;
        while i < self.0.len()
            invariant
                i <= self.0@.len(),
                self@ == old_list,
                v@ == hs + old_list.take(i as int),
            decreases self.0@.len() - i,
        {
            v.push(self.0[i].duplicate());
            assert(old_list.take(i + 1) =~= old_list.take(i as int).push(old_list[i as int]));
            i = i + 1;
        }
        assert(old_list.take(old_list.len() as int) =~= old_list);
        self.0 = v;
    }

    /// Puts the given handlers at the end of the list, in their order.
    pub fn append(&mut self, handlers: Vec<Handler>)
        ensures
            final(self)@ == old(self)@ + handlers@,
    {
        let mut hs = handlers;
        self.0.append(&mut hs);
    }

    /// Inserts a copy of `handler` right after every handler of kind `name`.
    pub fn append_after(&mut self, name: HandlerKind, handler: &Handler)
        ensures
            final(self)@ == with_after(old(self)@, name, *handler),
    {
        let ghost old_list = self@;
        let mut v: Vec<Handler> = Vec::new();
        let mut i: usize = 0;
        while i < self.0.len()
            invariant
                i <= self.0@.len(),
                self@ == old_list,
                v@ == with_after(old_list.take(i as int), name, *handler),
            decreases self.0@.len() - i,
        {
            let h = &self.0[i];
            assert(old_list.take(i + 1).drop_last() =~= old_list.take(i as int));
            if h.name() == name {
                v.push(h.duplicate());
                v.push(handler.duplicate());
                assert(v@ =~= with_after(old_list.take(i + 1), name, *handler));
            } else {
                v.push(h.duplicate());
                assert(v@ =~= with_after(old_list.take(i + 1), name, *handler));
            }
            i = i + 1;
        }
        assert(old_list.take(old_list.len() as int) =~= old_list);
        self.0 = v;
    }

    /// The number of handlers.
    pub fn len(&self) -> (n: usize)
        ensures
            n == self@.len(),
    {
        self.0.len()
    }

    /// Whether a handler of kind `name` is in the list.
    pub fn has(&self, name: HandlerKind) -> (b: bool)
        ensures
            b == has_kind(self@, name),
    {
        let mut i: usize = 0;
        while i < self.0.len()
            invariant
                i <= self.0@.len(),
                forall|j: int| 0 <= j < i ==> (#[trigger] self@[j]).kind() != name,
            decreases self.0@.len() - i,
        {
            if self.0[i].name() == name {
                return true;
            }
            i = i + 1;
        }
        false
    }

    /// Replaces every handler of `handler`'s kind by a copy of `handler`.
    pub fn replace(&mut self, handler: &Handler)
        ensures
            final(self)@ == with_replaced(old(self)@, *handler),
    {
        let ghost old_list = self@;
        let mut v: Vec<Handler> = Vec::new();
        let mut i: usize = 0;
        let hk = handler.name();
        while i < self.0.len()
            invariant
                i <= self.0@.len(),
                self@ == old_list,
                hk == handler.kind(),
                v@ == with_replaced(old_list.take(i as int), *handler),
            decreases self.0@.len() - i,
        {
            let h = &self.0[i];
            assert(old_list.take(i + 1).drop_last() =~= old_list.take(i as int));
            if h.name() == hk {
                v.push(handler.duplicate());
            } else {
                v.push(h.duplicate());
            }
            i = i + 1;
        }
        assert(old_list.take(old_list.len() as int) =~= old_list);
        self.0 = v;
    }

    /// Replaces the handlers of `handler`'s kind when there are any, and
    /// appends `handler` otherwise.
    pub fn replacend(&mut self, handler: &Handler)
        ensures
            final(self)@ == with_replacend(old(self)@, *handler),
    {
        if self.has(handler.name()) {
            self.replace(handler);
        } else {
            let mut v: Vec<Handler> = Vec::new();
            v.push(handler.duplicate());
            self.append(v);
            assert(self@ =~= old(self)@.push(*handler));
        }
    }

    /// Removes every handler of kind `name`, keeping the others in order.
    pub fn remove(&mut self, name: HandlerKind)
        ensures
            final(self)@ == without_kind(old(self)@, name),
    {
        let ghost old_list = self@;
        let mut v: Vec<Handler> = Vec::new();
        let mut i: usize = 0;
        while i < self.0.len()
            invariant
                i <= self.0@.len(),
                self@ == old_list,
                v@ == without_kind(old_list.take(i as int), name),
            decreases self.0@.len() - i,
        {
            let h = &self.0[i];
            assert(old_list.take(i + 1).drop_last() =~= old_list.take(i as int));
            if h.name() != name {
                v.push(h.duplicate());
                assert(v@ =~= without_kind(old_list.take(i + 1), name));
            } else {
                assert(v@ =~= without_kind(old_list.take(i + 1), name));
            }
            i = i + 1;
        }
        assert(old_list.take(old_list.len() as int) =~= old_list);
        self.0 = v;
    }

    /// Removes every handler.
    pub fn clear(&mut self)
        ensures
            final(self)@ == Seq::<Handler>::empty(),
    {
        self.0.clear();
    }
}

/// The validation handlers and the set-up handlers of a machine.
#[derive(Debug)]
pub struct Handlers {
    pub validation: HandlerList,
    pub fcinit: HandlerList,
}

impl Default for Handlers {
    fn default() -> (h: Self)
        ensures
            kinds(h.validation@) == seq![HandlerKind::ValidateNetworkCfg],
            kinds(h.fcinit@) == default_fcinit_kinds(),
    {
        Handlers {
            validation: HandlerList::default_validation_handler_list(),
            fcinit: HandlerList::default_fcinit_handler_list(),
        }
    }
}

/// A kind is present exactly when it is counted at least once.
pub proof fn lemma_has_iff_counted(s: Seq<Handler>, name: HandlerKind)
    ensures
        has_kind(s, name) <==> count_kind(s, name) > 0,
    decreases s.len(),
{
    if s.len() > 0 {
        lemma_has_iff_counted(s.drop_last(), name);
        if has_kind(s, name) && s.last().kind() != name {
            let i = choose|i: int| 0 <= i < s.len() && (#[trigger] s[i]).kind() == name;
            assert(s.drop_last()[i].kind() == name);
        }
        if has_kind(s.drop_last(), name) {
            let i = choose|i: int| 0 <= i < s.drop_last().len() && (#[trigger] s.drop_last()[i]).kind() == name;
            assert(s[i].kind() == name);
        }
        if s.last().kind() == name {
            assert(s[s.len() - 1].kind() == name);
        }
    }
}

/// Removing a kind leaves no handler of it, keeps every other kind present
/// or absent as it was, and shortens the list by the number removed.
pub proof fn lemma_remove_removes(s: Seq<Handler>, name: HandlerKind)
    ensures
        !has_kind(without_kind(s, name), name),
        forall|m: HandlerKind| m != name ==> (has_kind(without_kind(s, name), m) <==> has_kind(s, m)),
        without_kind(s, name).len() + count_kind(s, name) == s.len(),
    decreases s.len(),
{
    if s.len() > 0 {
        let t = s.drop_last();
        lemma_remove_removes(t, name);
        let w = without_kind(s, name);
        let wt = without_kind(t, name);
        assert forall|m: HandlerKind| has_kind(w, m) <==> (has_kind(wt, m) || (s.last().kind() != name && s.last().kind() == m)) by {
            if has_kind(w, m) {
                let i = choose|i: int| 0 <= i < w.len() && (#[trigger] w[i]).kind() == m;
                if i < wt.len() {
                    assert(wt[i] == w[i]);
                }
            }
            if has_kind(wt, m) {
                let i = choose|i: int| 0 <= i < wt.len() && (#[trigger] wt[i]).kind() == m;
                assert(w[i] == wt[i]);
            }
            if s.last().kind() != name && s.last().kind() == m {
                assert(w[w.len() - 1] == s.last());
            }
        }
        assert forall|m: HandlerKind| has_kind(s, m) <==> (has_kind(t, m) || s.last().kind() == m) by {
            if has_kind(s, m) {
                let i = choose|i: int| 0 <= i < s.len() && (#[trigger] s[i]).kind() == m;
                if i < t.len() {
                    assert(t[i] == s[i]);
                }
            }
            if has_kind(t, m) {
                let i = choose|i: int| 0 <= i < t.len() && (#[trigger] t[i]).kind() == m;
                assert(s[i] == t[i]);
            }
            if s.last().kind() == m {
                assert(s[s.len() - 1].kind() == m);
            }
        }
    }
}

/// Removing a kind twice is removing it once.
pub proof fn lemma_remove_idempotent(s: Seq<Handler>, name: HandlerKind)
    ensures
        without_kind(without_kind(s, name), name) == without_kind(s, name),
    decreases s.len(),
{
    lemma_remove_removes(s, name);
    lemma_without_absent(without_kind(s, name), name);
}

/// Removing a kind that is absent changes nothing.
pub proof fn lemma_without_absent(s: Seq<Handler>, name: HandlerKind)
    requires
        !has_kind(s, name),
    ensures
        without_kind(s, name) == s,
    decreases s.len(),
{
    if s.len() > 0 {
        let t = s.drop_last();
        assert(!has_kind(t, name)) by {
            if has_kind(t, name) {
                let i = choose|i: int| 0 <= i < t.len() && (#[trigger] t[i]).kind() == name;
                assert(s[i] == t[i]);
            }
        }
        lemma_without_absent(t, name);
        assert(s[s.len() - 1].kind() != name);
        assert(without_kind(s, name) =~= s);
    }
}

/// Replacing keeps the length and the kind at every position, so the same
/// kinds stay present.
pub proof fn lemma_replace_keeps_kinds(s: Seq<Handler>, h: Handler)
    ensures
        with_replaced(s, h).len() == s.len(),
        kinds(with_replaced(s, h)) == kinds(s),
        forall|m: HandlerKind| has_kind(with_replaced(s, h), m) <==> has_kind(s, m),
    decreases s.len(),
{
    if s.len() > 0 {
        lemma_replace_keeps_kinds(s.drop_last(), h);
        assert(kinds(with_replaced(s, h)) =~= kinds(s)) by {
            let r = with_replaced(s, h);
            let rt = with_replaced(s.drop_last(), h);
            assert forall|i: int| 0 <= i < r.len() implies r[i].kind() == s[i].kind() by {
                if i < rt.len() {
                    assert(kinds(rt)[i] == kinds(s.drop_last())[i]);
                }
            }
        }
    }
    let r = with_replaced(s, h);
    assert forall|m: HandlerKind| has_kind(r, m) <==> has_kind(s, m) by {
        if has_kind(r, m) {
            let i = choose|i: int| 0 <= i < r.len() && (#[trigger] r[i]).kind() == m;
            assert(kinds(r)[i] == kinds(s)[i]);
        }
        if has_kind(s, m) {
            let i = choose|i: int| 0 <= i < s.len() && (#[trigger] s[i]).kind() == m;
            assert(kinds(r)[i] == kinds(s)[i]);
        }
    }
}

/// Every handler of `h`'s kind in a replaced list is `h`.
pub proof fn lemma_replaced_is_h(s: Seq<Handler>, h: Handler)
    ensures
        forall|i: int| 0 <= i < with_replaced(s, h).len() && (#[trigger] with_replaced(s, h)[i]).kind() == h.kind() ==> with_replaced(s, h)[i] == h,
    decreases s.len(),
{
    if s.len() > 0 {
        lemma_replaced_is_h(s.drop_last(), h);
        lemma_replace_keeps_kinds(s.drop_last(), h);
    }
}

/// After `replacend` a handler of `h`'s kind is present.
pub proof fn lemma_replacend_has(s: Seq<Handler>, h: Handler)
    ensures
        has_kind(with_replacend(s, h), h.kind()),
{
    if has_kind(s, h.kind()) {
        lemma_replace_keeps_kinds(s, h);
    } else {
        let r = s.push(h);
        assert(r[s.len() as int].kind() == h.kind());
    }
}

/// Replacing again with the same handler changes nothing.
pub proof fn lemma_replace_idempotent(s: Seq<Handler>, h: Handler)
    ensures
        with_replaced(with_replaced(s, h), h) == with_replaced(s, h),
    decreases s.len(),
{
    if s.len() > 0 {
        lemma_replace_idempotent(s.drop_last(), h);
        let r = with_replaced(s, h);
        assert(r.drop_last() =~= with_replaced(s.drop_last(), h));
    }
}

/// `replacend` twice with the same handler is `replacend` once.
pub proof fn lemma_replacend_idempotent(s: Seq<Handler>, h: Handler)
    ensures
        with_replacend(with_replacend(s, h), h) == with_replacend(s, h),
{
    lemma_replacend_has(s, h);
    let r = with_replacend(s, h);
    if has_kind(s, h.kind()) {
        lemma_replace_idempotent(s, h);
    } else {
        lemma_replaced_absent(s, h);
        assert(r.drop_last() =~= s);
        assert(with_replaced(r, h) =~= with_replaced(s, h).push(h));
    }
}

/// Replacing a kind that is absent changes nothing.
pub proof fn lemma_replaced_absent(s: Seq<Handler>, h: Handler)
    requires
        !has_kind(s, h.kind()),
    ensures
        with_replaced(s, h) == s,
    decreases s.len(),
{
    if s.len() > 0 {
        let t = s.drop_last();
        assert(!has_kind(t, h.kind())) by {
            if has_kind(t, h.kind()) {
                let i = choose|i: int| 0 <= i < t.len() && (#[trigger] t[i]).kind() == h.kind();
                assert(s[i] == t[i]);
            }
        }
        lemma_replaced_absent(t, h);
        assert(s[s.len() - 1].kind() != h.kind());
        assert(with_replaced(s, h) =~= s);
    }
}

/// Inserting after a kind adds one handler per handler of that kind, and
/// the inserted handler is present when that kind was.
pub proof fn lemma_append_after_len(s: Seq<Handler>, name: HandlerKind, h: Handler)
    ensures
        with_after(s, name, h).len() == s.len() + count_kind(s, name),
        has_kind(s, name) ==> has_kind(with_after(s, name, h), h.kind()),
    decreases s.len(),
{
    lemma_has_iff_counted(s, name);
    if s.len() > 0 {
        lemma_append_after_len(s.drop_last(), name, h);
        lemma_has_iff_counted(s.drop_last(), name);
        let r = with_after(s, name, h);
        let rt = with_after(s.drop_last(), name, h);
        if s.last().kind() == name {
            assert(r[r.len() - 1] == h);
        } else if has_kind(s, name) {
            assert(has_kind(rt, h.kind()));
            let i = choose|i: int| 0 <= i < rt.len() && (#[trigger] rt[i]).kind() == h.kind();
            assert(r[i] == rt[i]);
        }
    }
}

/// The link-files handler for a kernel image file name.
pub open spec fn link_files_handler(f: String) -> Handler {
    Handler::LinkFilesHandler { name: LinkFilesToRootFSHandlerName, kernel_image_file_name: f }
}

/// What adapting the handlers to a chroot strategy does: the link-files
/// handler goes right after the log-files handler of the set-up list, which
/// must hold one, and the kernel image path must have a file name; on an
/// error the set-up list is unchanged. The validation list never changes.
pub open spec fn adapted(s: HandlersAdapter, before: Handlers, after: Handlers, r: Result<(), MachineError>) -> bool {
    &&& match s {
        HandlersAdapter::NaiveChrootStrategy { rootfs, kernel_image_path } => {
            if !has_kind(before.fcinit@, HandlerKind::CreateLogFiles) {
                r matches Err(e) && machine_err_view(e) == (MachineErrorKind::Initialize, "required handler is missing from FcInit's list"@)
                    && after.fcinit@ == before.fcinit@
            } else {
                match path_file_name(kernel_image_path@) {
                    None => r matches Err(e) && machine_err_view(e) == (MachineErrorKind::FileError, "fail to get file base name from "@ + kernel_image_path@)
                        && after.fcinit@ == before.fcinit@,
                    Some(n) => r is Ok && exists|f: String| f@ == n && after.fcinit@ == with_after(before.fcinit@, HandlerKind::CreateLogFiles,
                        #[trigger] link_files_handler(f)),
                }
            }
        },
    }
    &&& after.validation@ == before.validation@
}

/// How files are brought into the jail's root file system.
#[derive(Debug)]
pub enum HandlersAdapter {
    /// Hard links the kernel image and drives into the root drive.
    NaiveChrootStrategy { rootfs: String, kernel_image_path: String },
}

impl HandlersAdapter {
    /// Injects the link-files handler right after the log-files handler of the
    /// set-up list; the set-up list must hold a log-files handler and the
    /// kernel image path must have a file name.
    pub fn adapt_handlers(&self, handlers: &mut Handlers) -> (r: Result<(), MachineError>)
        ensures
            adapted(*self, *old(handlers), *final(handlers), r),
    {
        match self {
            HandlersAdapter::NaiveChrootStrategy { rootfs: _, kernel_image_path } => {
                if !handlers.fcinit.has(HandlerKind::CreateLogFiles) {
                    return Err(MachineError::Initialize(String::from_str("required handler is missing from FcInit's list")));
                }
                let name = match file_name(kernel_image_path.as_str()) {
                    Some(n) => n,
                    None => {
                        let mut m = String::from_str("fail to get file base name from ");
                        m.append(kernel_image_path.as_str());
                        return Err(MachineError::FileError(m));
                    },
                };
                let ghost g = name;
                let h = Handler::LinkFilesHandler { name: LinkFilesToRootFSHandlerName, kernel_image_file_name: name };
                handlers.fcinit.append_after(HandlerKind::CreateLogFiles, &h);
                assert(h == link_files_handler(g));
                Ok(())
            },
        }
    }
}

/// What running a handler comes to: an outcome decided here, or the work
/// to do on the machine (the link-files handler's links are planned by
/// `launch::handler_link_plan` with its kernel file name).
#[derive(Debug)]
pub enum HandlerWork {
    Done(Result<(), MachineError>),
    ValidateConfig,
    StartVmm,
    CreateLogFiles,
    BootstrapLogging,
    CreateMachine,
    CreateBootSource,
    AttachDrives,
    CreateNetworkInterfaces,
    SetupNetwork,
    SetupKernelArgs,
    AddVsocks,
    SetMetadata(String),
    ConfigMmds,
    CreateBalloon { amount_mib: i64, deflate_on_oom: bool, stats_polling_interval_s: i64 },
    LinkFiles(String),
}

impl Handler {
    /// Runs a handler as far as it is a decision on the configuration: the
    /// jailer and network checks are decided here; the others name the work
    /// to do on the machine.
    pub fn work(&self, cfg: &MachineConfig) -> (w: HandlerWork)
        requires
            self is JailerConfigValidationHandler && cfg.jailer_cfg is Some ==> cfg.drives is Some,
        ensures
            match *self {
                Handler::ConfigValidationHandler { .. } => w is ValidateConfig,
                Handler::JailerConfigValidationHandler { .. } => w matches HandlerWork::Done(r)
                    && machine_outcome(r) == jailer_handler_outcome(*cfg),
                Handler::NetworkConfigValidationHandler { .. } => w matches HandlerWork::Done(r)
                    && machine_outcome(r) == network_outcome(*cfg),
                Handler::StartVMMHandler { .. } => w is StartVmm,
                Handler::CreateLogFilesHandler { .. } => w is CreateLogFiles,
                Handler::BootstrapLoggingHandler { .. } => w is BootstrapLogging,
                Handler::CreateMachineHandler { .. } => w is CreateMachine,
                Handler::CreateBootSourceHandler { .. } => w is CreateBootSource,
                Handler::AttachDrivesHandler { .. } => w is AttachDrives,
                Handler::CreateNetworkInterfacesHandler { .. } => w is CreateNetworkInterfaces,
                Handler::SetupNetworkHandler { .. } => w is SetupNetwork,
                Handler::SetupKernelArgsHandler { .. } => w is SetupKernelArgs,
                Handler::AddVsocksHandler { .. } => w is AddVsocks,
                Handler::NewSetMetadataHandler { data, .. } => w matches HandlerWork::SetMetadata(d) && d == data,
                Handler::ConfigMmdsHandler { .. } => w is ConfigMmds,
                Handler::NewCreateBalloonHandler { amount_mib, deflate_on_oom, stats_polling_interval_s, .. } =>
                    w == (HandlerWork::CreateBalloon { amount_mib, deflate_on_oom, stats_polling_interval_s }),
                Handler::LinkFilesHandler { kernel_image_file_name, .. } => w matches HandlerWork::LinkFiles(k)
                    && k == kernel_image_file_name,
            },
    {
        match self {
            Handler::ConfigValidationHandler { .. } => HandlerWork::ValidateConfig,
            Handler::JailerConfigValidationHandler { .. } => HandlerWork::Done(cfg.jailer_handler_check()),
            Handler::NetworkConfigValidationHandler { .. } => HandlerWork::Done(cfg.validate_network()),
            Handler::StartVMMHandler { .. } => HandlerWork::StartVmm,
            Handler::CreateLogFilesHandler { .. } => HandlerWork::CreateLogFiles,
            Handler::BootstrapLoggingHandler { .. } => HandlerWork::BootstrapLogging,
            Handler::CreateMachineHandler { .. } => HandlerWork::CreateMachine,
            Handler::CreateBootSourceHandler { .. } => HandlerWork::CreateBootSource,
            Handler::AttachDrivesHandler { .. } => HandlerWork::AttachDrives,
            Handler::CreateNetworkInterfacesHandler { .. } => HandlerWork::CreateNetworkInterfaces,
            Handler::SetupNetworkHandler { .. } => HandlerWork::SetupNetwork,
            Handler::SetupKernelArgsHandler { .. } => HandlerWork::SetupKernelArgs,
            Handler::AddVsocksHandler { .. } => HandlerWork::AddVsocks,
            Handler::NewSetMetadataHandler { data, .. } => HandlerWork::SetMetadata(data.clone()),
            Handler::ConfigMmdsHandler { .. } => HandlerWork::ConfigMmds,
            Handler::NewCreateBalloonHandler { amount_mib, deflate_on_oom, stats_polling_interval_s, .. } =>
                HandlerWork::CreateBalloon {
                    amount_mib: *amount_mib,
                    deflate_on_oom: *deflate_on_oom,
                    stats_polling_interval_s: *stats_polling_interval_s,
                },
            Handler::LinkFilesHandler { kernel_image_file_name, .. } => HandlerWork::LinkFiles(kernel_image_file_name.clone()),
        }
    }
}

} // verus!
