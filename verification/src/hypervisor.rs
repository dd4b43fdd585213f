//! The microVM status a hypervisor keeps, and how each lifecycle request and
//! the reply it gets move it. The hypervisor sends the requests and reads the
//! replies; these functions decide.
use vstd::prelude::*;
use vstd::string::*;
use crate::config::HypervisorConfig;
use crate::error::{err_view, RtckError, RtckErrorKind};

verus! {

/// The status of the microVM a hypervisor holds.
#[derive(Clone, Copy, Debug, PartialEq, Eq, Structural)]
pub enum MicroVMStatus {
    /// No microVM running now.
    NoMicroVM,
    /// Being started.
    Start,
    /// Running.
    Running,
    /// Paused.
    Paused,
    /// Stopped.
    Stop,
    /// Deleted, waiting for its resources to be collected.
    Delete,
    /// Encountered a failure.
    Failure,
}

/// How a request to Firecracker went.
#[derive(Clone, Copy, Debug, PartialEq, Eq, Structural)]
pub enum ApiReply {
    /// The request could not be sent or its reply could not be read.
    AgentFailed,
    /// Firecracker answered with an error.
    Refused,
    /// Firecracker answered with success.
    Accepted,
}

/// The instance state Firecracker reports.
#[derive(Clone, Copy, Debug, PartialEq, Eq, Structural)]
pub enum InstanceState {
    NotStarted,
    Running,
    Paused,
}

/// The status a reported instance state stands for.
pub open spec fn status_of_state(s: InstanceState) -> MicroVMStatus {
    match s {
        InstanceState::NotStarted => MicroVMStatus::Stop,
        InstanceState::Paused => MicroVMStatus::Paused,
        InstanceState::Running => MicroVMStatus::Running,
    }
}

/// The status after the instance-start request got `reply`.
pub open spec fn after_start(reply: ApiReply) -> MicroVMStatus {
    if reply == ApiReply::Accepted { MicroVMStatus::Running } else { MicroVMStatus::Failure }
}

/// The status after a pause request sent in status `s` got `reply`.
pub open spec fn after_pause(s: MicroVMStatus, reply: ApiReply) -> MicroVMStatus {
    if reply == ApiReply::Accepted { MicroVMStatus::Paused } else { s }
}

/// The status after a resume request sent in status `s` got `reply`.
pub open spec fn after_resume(s: MicroVMStatus, reply: ApiReply) -> MicroVMStatus {
    if reply == ApiReply::Accepted { MicroVMStatus::Running } else { s }
}

/// The status after a stop request sent in status `s` got `reply`.
pub open spec fn after_stop(s: MicroVMStatus, reply: ApiReply) -> MicroVMStatus {
    if reply == ApiReply::Accepted { MicroVMStatus::Stop } else { s }
}

/// Pausing as a whole: only a running microVM is asked to pause.
pub open spec fn pause_op(s: MicroVMStatus, reply: ApiReply) -> MicroVMStatus {
    if s == MicroVMStatus::Running { after_pause(s, reply) } else { s }
}

/// Resuming as a whole: only a paused microVM is asked to resume.
pub open spec fn resume_op(s: MicroVMStatus, reply: ApiReply) -> MicroVMStatus {
    if s == MicroVMStatus::Paused { after_resume(s, reply) } else { s }
}

/// The microVM status a hypervisor keeps between requests.
#[derive(Debug)]
pub struct VmLifecycle {
    pub status: MicroVMStatus,
}

fn hypervisor_error(msg: &str) -> (e: RtckError)
    ensures
        err_view(e) == (RtckErrorKind::Hypervisor, msg@),
{
    RtckError::Hypervisor(String::from_str(msg))
}

fn machine_error(msg: &str) -> (e: RtckError)
    ensures
        err_view(e) == (RtckErrorKind::Machine, msg@),
{
    RtckError::Machine(String::from_str(msg))
}

impl VmLifecycle {
    /// A freshly created hypervisor holds no microVM.
    pub fn new() -> (l: Self)
        ensures
            l.status == MicroVMStatus::NoMicroVM,
    {
        VmLifecycle { status: MicroVMStatus::NoMicroVM }
    }

    /// The status the hypervisor holds.
    pub fn check_status(&self) -> (s: MicroVMStatus)
        ensures
            s == self.status,
    {
        self.status
    }

    /// Whether checking the process is worth it: not while no microVM runs.
    pub fn check_state_needed(&self) -> (b: bool)
        ensures
            b == (self.status != MicroVMStatus::NoMicroVM),
    {
        self.status != MicroVMStatus::NoMicroVM
    }

    /// Starting begins: the status becomes `Start`.
    pub fn begin_start(&mut self)
        ensures
            final(self).status == MicroVMStatus::Start,
    {
        self.status = MicroVMStatus::Start;
    }

    /// Configuring the microVM failed: the status becomes `Failure`.
    pub fn configure_failed(&mut self) -> (e: RtckError)
        ensures
            final(self).status == MicroVMStatus::Failure,
            err_view(e) == (RtckErrorKind::Hypervisor, "fail to start"@),
    {
        self.status = MicroVMStatus::Failure;
        hypervisor_error("fail to start")
    }

    /// The instance-start request got its reply: `Running` on success,
    /// `Failure` and an error otherwise.
    pub fn finish_start(&mut self, reply: ApiReply) -> (r: Result<(), RtckError>)
        ensures
            final(self).status == after_start(reply),
            reply == ApiReply::Accepted ==> r is Ok,
            reply != ApiReply::Accepted ==> (r matches Err(e) && err_view(e) == (RtckErrorKind::Hypervisor, "fail to start"@)),
    {
        match reply {
            ApiReply::Accepted => {
                self.status = MicroVMStatus::Running;
                Ok(())
            },
            _ => {
                self.status = MicroVMStatus::Failure;
                Err(hypervisor_error("fail to start"))
            },
        }
    }

    /// Whether a pause request is sent: only a running microVM is paused;
    /// otherwise pausing does nothing and succeeds.
    pub fn pause_needed(&self) -> (b: bool)
        ensures
            b == (self.status == MicroVMStatus::Running),
    {
        self.status == MicroVMStatus::Running
    }

    /// The pause request got its reply: `Paused` on success; a failure to pause
    /// is no fatal error and leaves the status as it was.
    pub fn finish_pause(&mut self, reply: ApiReply) -> (r: Result<(), RtckError>)
        ensures
            final(self).status == after_pause(old(self).status, reply),
            reply == ApiReply::Accepted ==> r is Ok,
            reply != ApiReply::Accepted ==> (r matches Err(e) && err_view(e) == (RtckErrorKind::Hypervisor, "fail to pause"@)),
    {
        match reply {
            ApiReply::Accepted => {
                self.status = MicroVMStatus::Paused;
                Ok(())
            },
            _ => Err(hypervisor_error("fail to pause")),
        }
    }

    /// Whether a resume request is sent: only a paused microVM is resumed;
    /// otherwise resuming does nothing and succeeds.
    pub fn resume_needed(&self) -> (b: bool)
        ensures
            b == (self.status == MicroVMStatus::Paused),
    {
        self.status == MicroVMStatus::Paused
    }

    /// The resume request got its reply: `Running` on success; a failure
    /// leaves the status as it was.
    pub fn finish_resume(&mut self, reply: ApiReply) -> (r: Result<(), RtckError>)
        ensures
            final(self).status == after_resume(old(self).status, reply),
            reply == ApiReply::Accepted ==> r is Ok,
            reply != ApiReply::Accepted ==> (r matches Err(e) && err_view(e) == (RtckErrorKind::Machine, "fail to resume"@)),
    {
        match reply {
            ApiReply::Accepted => {
                self.status = MicroVMStatus::Running;
                Ok(())
            },
            _ => Err(machine_error("fail to resume")),
        }
    }

    /// The stop request (Ctrl+Alt+Del) got its reply: `Stop` on success; a
    /// failure leaves the status as it was.
    pub fn finish_stop(&mut self, reply: ApiReply) -> (r: Result<(), RtckError>)
        ensures
            final(self).status == after_stop(old(self).status, reply),
            reply == ApiReply::Accepted ==> r is Ok,
            reply == ApiReply::AgentFailed ==> (r matches Err(e) && err_view(e) == (RtckErrorKind::Machine, "fail to stop"@)),
            reply == ApiReply::Refused ==> (r matches Err(e) && err_view(e) == (RtckErrorKind::Hypervisor, "fail to stop"@)),
    {
        match reply {
            ApiReply::Accepted => {
                self.status = MicroVMStatus::Stop;
                Ok(())
            },
            ApiReply::AgentFailed => Err(machine_error("fail to stop")),
            ApiReply::Refused => Err(hypervisor_error("fail to stop")),
        }
    }

    /// Checks the microVM's status with Firecracker and syncs the held status
    /// with it: `Failure` when the describe-instance request failed or was
    /// refused, else the status of the reported state. The held status
    /// becomes what is returned.
    pub fn sync_status(&mut self, reply: ApiReply, state: InstanceState) -> (s: MicroVMStatus)
        ensures
            reply != ApiReply::Accepted ==> s == MicroVMStatus::Failure,
            reply == ApiReply::Accepted ==> s == status_of_state(state),
            final(self).status == s,
    {
        let s = match reply {
            ApiReply::Accepted => match state {
                InstanceState::NotStarted => MicroVMStatus::Stop,
                InstanceState::Paused => MicroVMStatus::Paused,
                InstanceState::Running => MicroVMStatus::Running,
            },
            _ => MicroVMStatus::Failure,
        };
        self.status = s;
        s
    }
}

/// The status a reported state stands for is the status the lifecycle
/// operations reach for it: a running instance is what a start or resume
/// makes, a paused one what a pause makes, one not started what a stop
/// makes; and no two states stand for the same status.
pub proof fn lemma_state_status(s: InstanceState, t: InstanceState, m: MicroVMStatus)
    ensures
        (status_of_state(s) == MicroVMStatus::Running) <==> s == InstanceState::Running,
        (status_of_state(s) == MicroVMStatus::Paused) <==> s == InstanceState::Paused,
        (status_of_state(s) == MicroVMStatus::Stop) <==> s == InstanceState::NotStarted,
        status_of_state(s) == status_of_state(t) ==> s == t,
        status_of_state(InstanceState::Running) == after_start(ApiReply::Accepted),
        status_of_state(InstanceState::Running) == after_resume(m, ApiReply::Accepted),
        status_of_state(InstanceState::Paused) == after_pause(m, ApiReply::Accepted),
        status_of_state(InstanceState::NotStarted) == after_stop(m, ApiReply::Accepted),
{
}

/// A start in progress: the number of configuration steps, how many have
/// been put to Firecracker, and whether the start is over.
#[derive(Debug)]
pub struct StartRun {
    pub total: usize,
    pub done: usize,
    pub finished: bool,
}

/// What a start does next: put configuration step `i`, start the instance,
/// or end with an outcome.
#[derive(Debug)]
pub enum StartAction {
    Configure(usize),
    StartInstance,
    Finish(Result<(), RtckError>),
}

/// The action after `done` of `total` configuration steps went through.
pub open spec fn start_next(done: nat, total: nat) -> StartAction {
    if done < total { StartAction::Configure(done as usize) } else { StartAction::StartInstance }
}

/// How a finished start leaves the status: `Ok` exactly when the microVM is
/// running, and a failed start leaves it failed.
pub open spec fn start_settled(r: Result<(), RtckError>, s: MicroVMStatus) -> bool {
    &&& (r is Ok <==> s == MicroVMStatus::Running)
    &&& (r is Err ==> s == MicroVMStatus::Failure)
}

impl VmLifecycle {
    /// Begins a start with `total` configuration steps: the status becomes
    /// `Start` and the first step (or, without steps, the instance start)
    /// comes next.
    pub fn begin_run(&mut self, total: usize) -> (r: (StartRun, StartAction))
        ensures
            final(self).status == MicroVMStatus::Start,
            r.0 == (StartRun { total, done: 0, finished: false }),
            r.1 == start_next(0, total as nat),
    {
        self.begin_start();
        let a = if 0 < total { StartAction::Configure(0) } else { StartAction::StartInstance };
        (StartRun { total, done: 0, finished: false }, a)
    }

    /// Moves a start on by the outcome of configuration step `run.done`:
    /// the next step once it went through; otherwise the start ends failed
    /// with `fail to start`, no later step being put.
    pub fn configured(&mut self, run: StartRun, outcome: Result<(), RtckError>) -> (r: (StartRun, StartAction))
        requires
            !run.finished,
            run.done < run.total,
            old(self).status == MicroVMStatus::Start,
        ensures
            outcome is Ok ==> r.0 == (StartRun { done: (run.done + 1) as usize, ..run })
                && r.1 == start_next((run.done + 1) as nat, run.total as nat)
                && final(self).status == MicroVMStatus::Start,
            outcome is Err ==> r.0 == (StartRun { finished: true, ..run })
                && (r.1 matches StartAction::Finish(Err(e)) && err_view(e) == (RtckErrorKind::Hypervisor, "fail to start"@)),
            r.1 matches StartAction::Finish(x) ==> r.0.finished && start_settled(x, final(self).status),
            !(r.1 is Finish) ==> final(self).status == MicroVMStatus::Start,
    {
        match outcome {
            Ok(()) => {
                let done = run.done + 1;
                let a = if done < run.total { StartAction::Configure(done) } else { StartAction::StartInstance };
                (StartRun { total: run.total, done, finished: false }, a)
            },
            Err(_) => {
                let e = self.configure_failed();
                (StartRun { total: run.total, done: run.done, finished: true }, StartAction::Finish(Err(e)))
            },
        }
    }

    /// Ends a start once every configuration step went through, by
    /// Firecracker's reply to the instance start.
    pub fn started(&mut self, run: StartRun, reply: ApiReply) -> (r: (StartRun, StartAction))
        requires
            !run.finished,
            run.done == run.total,
            old(self).status == MicroVMStatus::Start,
        ensures
            r.0 == (StartRun { finished: true, ..run }),
            final(self).status == after_start(reply),
            r.1 matches StartAction::Finish(x) && start_settled(x, final(self).status)
                && (reply == ApiReply::Accepted ==> x is Ok)
                && (reply != ApiReply::Accepted ==> (x matches Err(e) && err_view(e) == (RtckErrorKind::Hypervisor, "fail to start"@))),
    {
        let x = self.finish_start(reply);
        (StartRun { total: run.total, done: run.done, finished: true }, StartAction::Finish(x))
    }
}

/// A step that undoes part of launching or configuring a microVM, run when
/// the hypervisor is torn down.
#[derive(Debug)]
pub enum Rollback {
    /// Remove the jail's instance directory.
    Jailing { instance_dir: String },
    /// Stop the Firecracker process.
    StopProcess { pid: u32 },
    /// Remove the API socket.
    RemoveSocket { path: String },
    /// Remove the lock file.
    RemoveFsLock { path: String },
    /// Give a file back to its former owner.
    Chown { path: String, original_uid: u32, original_gid: u32 },
    /// Unmount a bind mount.
    Umount { mount_point: String },
}

/// What launching or configuring a microVM just did.
#[derive(Debug)]
pub enum LaunchEvent {
    /// The jail was laid out in this instance directory.
    Jailed(String),
    /// The Firecracker (or jailer) process was spawned with this pid.
    Spawned(u32),
    /// The API socket appeared at this path.
    SocketReady(String),
    /// The lock file was opened at this path.
    LockOpened(String),
    /// A file was handed to the jailer's user; it belonged to this uid and gid.
    Chowned { path: String, original_uid: u32, original_gid: u32 },
    /// A directory was bind-mounted at this mount point.
    Mounted(String),
}

/// The step that undoes an event.
pub open spec fn rollback_of(e: LaunchEvent) -> Rollback {
    match e {
        LaunchEvent::Jailed(d) => Rollback::Jailing { instance_dir: d },
        LaunchEvent::Spawned(p) => Rollback::StopProcess { pid: p },
        LaunchEvent::SocketReady(p) => Rollback::RemoveSocket { path: p },
        LaunchEvent::LockOpened(p) => Rollback::RemoveFsLock { path: p },
        LaunchEvent::Chowned { path, original_uid, original_gid } => Rollback::Chown { path, original_uid, original_gid },
        LaunchEvent::Mounted(m) => Rollback::Umount { mount_point: m },
    }
}

/// Whether an event's step goes on top of the stack (laying out the jail,
/// spawning the process); the others are inserted right after the first
/// step.
pub open spec fn goes_on_top(e: LaunchEvent) -> bool {
    e is Jailed || e is Spawned
}

/// The rollback stack after an event is recorded.
pub open spec fn rollback_after(s: Seq<Rollback>, e: LaunchEvent) -> Seq<Rollback> {
    if goes_on_top(e) {
        s.push(rollback_of(e))
    } else {
        s.insert(1, rollback_of(e))
    }
}

/// Records the step that undoes an event: the jail and the process go on
/// top; the socket, the lock file, ownership changes and mounts go right
/// after the first step, which must be there.
pub fn record_rollback(stack: &mut Vec<Rollback>, e: LaunchEvent)
    requires
        !goes_on_top(e) ==> old(stack)@.len() >= 1,
    ensures
        final(stack)@ == rollback_after(old(stack)@, e),
{
    match e {
        LaunchEvent::Jailed(d) => stack.push(Rollback::Jailing { instance_dir: d }),
        LaunchEvent::Spawned(p) => stack.push(Rollback::StopProcess { pid: p }),
        LaunchEvent::SocketReady(p) => stack.insert(1, Rollback::RemoveSocket { path: p }),
        LaunchEvent::LockOpened(p) => stack.insert(1, Rollback::RemoveFsLock { path: p }),
        LaunchEvent::Chowned { path, original_uid, original_gid } => stack.insert(1, Rollback::Chown { path, original_uid, original_gid }),
        LaunchEvent::Mounted(m) => stack.insert(1, Rollback::Umount { mount_point: m }),
    }
}

/// Launching under the jailer records, in order, the jail, the process, the
/// socket and the lock file; the stack then holds the jail, the lock file,
/// the socket and the process, in that order.
pub proof fn lemma_jailed_launch_rollbacks(dir: String, pid: u32, socket: String, lock: String)
    ensures
        rollback_after(rollback_after(rollback_after(rollback_after(Seq::empty(),
            LaunchEvent::Jailed(dir)), LaunchEvent::Spawned(pid)), LaunchEvent::SocketReady(socket)),
            LaunchEvent::LockOpened(lock))
        == seq![
            Rollback::Jailing { instance_dir: dir },
            Rollback::RemoveFsLock { path: lock },
            Rollback::RemoveSocket { path: socket },
            Rollback::StopProcess { pid },
        ],
{
    let s2 = seq![Rollback::Jailing { instance_dir: dir }, Rollback::StopProcess { pid }];
    assert(rollback_after(rollback_after(Seq::empty(), LaunchEvent::Jailed(dir)), LaunchEvent::Spawned(pid)) =~= s2);
    let s3 = seq![Rollback::Jailing { instance_dir: dir }, Rollback::RemoveSocket { path: socket }, Rollback::StopProcess { pid }];
    assert(s2.insert(1, Rollback::RemoveSocket { path: socket }) =~= s3);
    assert(s3.insert(1, Rollback::RemoveFsLock { path: lock }) =~= seq![
        Rollback::Jailing { instance_dir: dir },
        Rollback::RemoveFsLock { path: lock },
        Rollback::RemoveSocket { path: socket },
        Rollback::StopProcess { pid },
    ]);
}

/// Launching without the jailer records the process, the socket and the
/// lock file; the stack then holds the process, the lock file and the
/// socket, in that order.
pub proof fn lemma_bare_launch_rollbacks(pid: u32, socket: String, lock: String)
    ensures
        rollback_after(rollback_after(rollback_after(Seq::empty(), LaunchEvent::Spawned(pid)),
            LaunchEvent::SocketReady(socket)), LaunchEvent::LockOpened(lock))
        == seq![
            Rollback::StopProcess { pid },
            Rollback::RemoveFsLock { path: lock },
            Rollback::RemoveSocket { path: socket },
        ],
{
    let s1 = seq![Rollback::StopProcess { pid }];
    assert(rollback_after(Seq::empty(), LaunchEvent::Spawned(pid)) =~= s1);
    let s2 = seq![Rollback::StopProcess { pid }, Rollback::RemoveSocket { path: socket }];
    assert(s1.insert(1, Rollback::RemoveSocket { path: socket }) =~= s2);
    assert(s2.insert(1, Rollback::RemoveFsLock { path: lock }) =~= seq![
        Rollback::StopProcess { pid },
        Rollback::RemoveFsLock { path: lock },
        Rollback::RemoveSocket { path: socket },
    ]);
}

/// Whether the jailer's working directory is removed with the microVM: only
/// when asked for (default: kept).
pub fn clears_jailer(c: &HypervisorConfig) -> (b: bool)
    ensures
        b == (c.clear_jailer == Some(true)),
{
    c.clear_jailer == Some(true)
}

/// Whether waiting for the microVM to exit ends on this poll: only when
/// Firecracker answers that the instance is not started; a failed or refused
/// poll, or a running or paused instance, keeps waiting.
pub fn wait_finished(reply: ApiReply, state: InstanceState) -> (b: bool)
    ensures
        b == (reply == ApiReply::Accepted && state == InstanceState::NotStarted),
{
    match reply {
        ApiReply::Accepted => match state {
            InstanceState::NotStarted => true,
            _ => false,
        },
        _ => false,
    }
}

/// Pausing and then resuming, both accepted, leaves a running or paused
/// microVM running, and any other status as it was.
pub proof fn lemma_pause_then_resume(s: MicroVMStatus)
    ensures
        resume_op(pause_op(s, ApiReply::Accepted), ApiReply::Accepted) == if s == MicroVMStatus::Running
            || s == MicroVMStatus::Paused {
            MicroVMStatus::Running
        } else {
            s
        },
{
}

/// A pause, resume or stop request that is not accepted leaves the status as
/// it was.
pub proof fn lemma_failed_requests_keep_status(s: MicroVMStatus, reply: ApiReply)
    requires
        reply != ApiReply::Accepted,
    ensures
        pause_op(s, reply) == s,
        resume_op(s, reply) == s,
        after_stop(s, reply) == s,
{
}

/// Starting ends in `Running` or `Failure`, and in `Running` exactly when the
/// start request was accepted.
pub proof fn lemma_start_outcome(reply: ApiReply)
    ensures
        after_start(reply) == MicroVMStatus::Running || after_start(reply) == MicroVMStatus::Failure,
        after_start(reply) == MicroVMStatus::Running <==> reply == ApiReply::Accepted,
{
}

/// Pausing yields `Paused` only from a running microVM or one already paused.
pub proof fn lemma_pause_only_from_running(s: MicroVMStatus, reply: ApiReply)
    ensures
        pause_op(s, reply) == MicroVMStatus::Paused ==> (s == MicroVMStatus::Running || s == MicroVMStatus::Paused),
{
}

} // verus!
