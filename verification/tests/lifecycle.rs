use rustcracker::error::{RtckError, RtckErrorKind};
use rustcracker::hypervisor::{wait_finished, ApiReply, InstanceState, MicroVMStatus, StartAction, VmLifecycle};
use rustcracker::microvm::{require_boot_source, BootSource};

#[test]
fn new_hypervisor_holds_no_microvm() {
    let l = VmLifecycle::new();
    assert_eq!(l.check_status(), MicroVMStatus::NoMicroVM);
    assert!(!l.check_state_needed());
}

#[test]
fn start_pause_resume_stop() {
    let mut l = VmLifecycle::new();
    l.begin_start();
    assert_eq!(l.check_status(), MicroVMStatus::Start);
    l.finish_start(ApiReply::Accepted).unwrap();
    assert_eq!(l.check_status(), MicroVMStatus::Running);
    assert!(l.pause_needed());
    l.finish_pause(ApiReply::Accepted).unwrap();
    assert_eq!(l.check_status(), MicroVMStatus::Paused);
    assert!(l.resume_needed());
    l.finish_resume(ApiReply::Accepted).unwrap();
    assert_eq!(l.check_status(), MicroVMStatus::Running);
    l.finish_stop(ApiReply::Accepted).unwrap();
    assert_eq!(l.check_status(), MicroVMStatus::Stop);
}

#[test]
fn failed_start_marks_failure() {
    let mut l = VmLifecycle::new();
    l.begin_start();
    let e = l.finish_start(ApiReply::Refused).unwrap_err();
    assert_eq!(e.kind(), RtckErrorKind::Hypervisor);
    assert_eq!(e.message(), "fail to start");
    assert_eq!(l.check_status(), MicroVMStatus::Failure);
    let mut l = VmLifecycle::new();
    l.begin_start();
    let e = l.configure_failed();
    assert_eq!(e.message(), "fail to start");
    assert_eq!(l.check_status(), MicroVMStatus::Failure);
}

#[test]
fn failed_requests_keep_the_status() {
    let mut l = VmLifecycle { status: MicroVMStatus::Running };
    let e = l.finish_pause(ApiReply::AgentFailed).unwrap_err();
    assert_eq!(e.message(), "fail to pause");
    assert_eq!(l.check_status(), MicroVMStatus::Running);
    let mut p = VmLifecycle { status: MicroVMStatus::Paused };
    let e = p.finish_resume(ApiReply::Refused).unwrap_err();
    assert_eq!(e.kind(), RtckErrorKind::Machine);
    assert_eq!(e.message(), "fail to resume");
    assert_eq!(p.check_status(), MicroVMStatus::Paused);
    let e = l.finish_stop(ApiReply::Refused).unwrap_err();
    assert_eq!(e.message(), "fail to stop");
    assert_eq!(l.check_status(), MicroVMStatus::Running);
}

#[test]
fn pause_and_resume_only_where_they_apply() {
    assert!(!VmLifecycle { status: MicroVMStatus::Paused }.pause_needed());
    assert!(!VmLifecycle { status: MicroVMStatus::Running }.resume_needed());
    assert!(VmLifecycle { status: MicroVMStatus::Start }.check_state_needed());
}

#[test]
fn status_follows_reported_state() {
    let mut l = VmLifecycle { status: MicroVMStatus::Running };
    assert_eq!(l.sync_status(ApiReply::Accepted, InstanceState::Paused), MicroVMStatus::Paused);
    assert_eq!(l.check_status(), MicroVMStatus::Paused);
    assert_eq!(l.sync_status(ApiReply::Accepted, InstanceState::NotStarted), MicroVMStatus::Stop);
    assert_eq!(l.check_status(), MicroVMStatus::Stop);
    assert_eq!(l.sync_status(ApiReply::Refused, InstanceState::Running), MicroVMStatus::Failure);
    assert_eq!(l.check_status(), MicroVMStatus::Failure);
    let mut r = VmLifecycle { status: MicroVMStatus::Running };
    assert_eq!(r.sync_status(ApiReply::AgentFailed, InstanceState::Running), MicroVMStatus::Failure);
    assert_eq!(r.check_status(), MicroVMStatus::Failure);
}

#[test]
fn waiting_ends_when_the_instance_is_not_started() {
    assert!(wait_finished(ApiReply::Accepted, InstanceState::NotStarted));
    assert!(!wait_finished(ApiReply::Accepted, InstanceState::Running));
    assert!(!wait_finished(ApiReply::Accepted, InstanceState::Paused));
    assert!(!wait_finished(ApiReply::Refused, InstanceState::NotStarted));
    assert!(!wait_finished(ApiReply::AgentFailed, InstanceState::NotStarted));
}

#[test]
fn start_runs_every_step_then_the_instance() {
    let mut l = VmLifecycle::new();
    let (run, a) = l.begin_run(2);
    assert!(matches!(a, StartAction::Configure(0)));
    assert_eq!(l.check_status(), MicroVMStatus::Start);
    let (run, a) = l.configured(run, Ok(()));
    assert!(matches!(a, StartAction::Configure(1)));
    let (run, a) = l.configured(run, Ok(()));
    assert!(matches!(a, StartAction::StartInstance));
    let (run, a) = l.started(run, ApiReply::Accepted);
    assert!(run.finished);
    assert!(matches!(a, StartAction::Finish(Ok(()))));
    assert_eq!(l.check_status(), MicroVMStatus::Running);
}

#[test]
fn start_stops_at_the_first_refused_step() {
    let mut l = VmLifecycle::new();
    let (run, _) = l.begin_run(3);
    let (run, _) = l.configured(run, Ok(()));
    let (run, a) = l.configured(run, Err(RtckError::Hypervisor("fail to configure metrics, rollback".to_string())));
    assert!(run.finished);
    assert_eq!(run.done, 1);
    match a {
        StartAction::Finish(Err(e)) => {
            assert_eq!(e.kind(), RtckErrorKind::Hypervisor);
            assert_eq!(e.message(), "fail to start");
        }
        _ => panic!("expected the start to fail"),
    }
    assert_eq!(l.check_status(), MicroVMStatus::Failure);
}

#[test]
fn start_without_steps_fails_on_a_refused_instance_start() {
    let mut l = VmLifecycle::new();
    let (run, a) = l.begin_run(0);
    assert!(matches!(a, StartAction::StartInstance));
    let (_, a) = l.started(run, ApiReply::Refused);
    assert!(matches!(a, StartAction::Finish(Err(_))));
    assert_eq!(l.check_status(), MicroVMStatus::Failure);
}

#[test]
fn synchronous_boot_source_is_required() {
    let e = require_boot_source(&None).unwrap_err();
    assert_eq!(e.kind(), RtckErrorKind::Config);
    assert_eq!(e.message(), "Must specify BootSource config in MicroVMConfig passed in");
    let b = BootSource { kernel_image_path: "/k".to_string(), boot_args: None, initrd_path: None };
    assert!(require_boot_source(&Some(b)).is_ok());
}
