use rustcracker::handler::{
    CreateBalloonHandlerName, CreateLogFilesHandlerName, Handler, HandlerKind, HandlerList, Handlers,
    HandlersAdapter, LinkFilesToRootFSHandlerName, SetMetadataHandlerName, StartVMMHandlerName,
    ValidateCfgHandlerName,
};
use rustcracker::machine::MachineError;

fn kinds(l: &HandlerList) -> Vec<HandlerKind> {
    l.0.iter().map(|h| h.name()).collect()
}

#[test]
fn default_lists() {
    let l = HandlerList::default_fcinit_handler_list();
    assert_eq!(
        kinds(&l),
        vec![
            HandlerKind::SetupNetwork,
            HandlerKind::SetupKernelArgs,
            HandlerKind::StartVMM,
            HandlerKind::CreateLogFiles,
            HandlerKind::BootstrapLogging,
            HandlerKind::CreateMachine,
            HandlerKind::CreateBootSource,
            HandlerKind::AttachDrives,
            HandlerKind::CreateNetworkInterfaces,
            HandlerKind::AddVsocks,
        ]
    );
    assert_eq!(kinds(&HandlerList::default_validation_handler_list()), vec![HandlerKind::ValidateNetworkCfg]);
    let h = Handlers::default();
    assert_eq!(h.fcinit.len(), 10);
    assert_eq!(h.validation.len(), 1);
}

#[test]
fn remove_removes_every_occurrence_and_is_idempotent() {
    let mut l = HandlerList::default_fcinit_handler_list();
    l.append(vec![Handler::StartVMMHandler { name: StartVMMHandlerName }]);
    l.remove(HandlerKind::StartVMM);
    assert!(!l.has(HandlerKind::StartVMM));
    assert_eq!(l.len(), 9);
    l.remove(HandlerKind::StartVMM);
    assert_eq!(l.len(), 9);
}

#[test]
fn prepend_append_and_clear() {
    let mut l = HandlerList(vec![]);
    l.append(vec![Handler::StartVMMHandler { name: StartVMMHandlerName }]);
    l.prepend(vec![Handler::ConfigValidationHandler { name: ValidateCfgHandlerName }]);
    assert_eq!(kinds(&l), vec![HandlerKind::ValidateCfg, HandlerKind::StartVMM]);
    l.clear();
    assert_eq!(l.len(), 0);
}

#[test]
fn append_after_inserts_behind_each_match() {
    let mut l = HandlerList::default_fcinit_handler_list();
    let h = Handler::NewSetMetadataHandler { name: SetMetadataHandlerName, data: "{}".to_string() };
    l.append_after(HandlerKind::CreateLogFiles, &h);
    let k = kinds(&l);
    assert_eq!(k.len(), 11);
    assert_eq!(k[3], HandlerKind::CreateLogFiles);
    assert_eq!(k[4], HandlerKind::SetMetadata);
    let mut none = HandlerList(vec![]);
    none.append_after(HandlerKind::CreateLogFiles, &h);
    assert_eq!(none.len(), 0);
}

#[test]
fn replace_and_replacend() {
    let mut l = HandlerList::default_fcinit_handler_list();
    let balloon = Handler::NewCreateBalloonHandler {
        name: CreateBalloonHandlerName,
        amount_mib: 64,
        deflate_on_oom: true,
        stats_polling_interval_s: 1,
    };
    l.replace(&balloon);
    assert_eq!(l.len(), 10);
    assert!(!l.has(HandlerKind::CreateBalloon));
    l.replacend(&balloon);
    assert_eq!(l.len(), 11);
    assert!(l.has(HandlerKind::CreateBalloon));
    l.replacend(&balloon);
    assert_eq!(l.len(), 11);
    let log = Handler::CreateLogFilesHandler { name: CreateLogFilesHandlerName };
    l.replace(&log);
    assert_eq!(kinds(&l)[3], HandlerKind::CreateLogFiles);
}

#[test]
fn naive_strategy_links_after_log_files() {
    let mut h = Handlers::default();
    let s = HandlersAdapter::NaiveChrootStrategy {
        rootfs: "/root".to_string(),
        kernel_image_path: "/img/vmlinux".to_string(),
    };
    s.adapt_handlers(&mut h).unwrap();
    let k = kinds(&h.fcinit);
    assert_eq!(k[3], HandlerKind::CreateLogFiles);
    assert_eq!(k[4], HandlerKind::LinkFilesToRootFS);
    match &h.fcinit.0[4] {
        Handler::LinkFilesHandler { name, kernel_image_file_name } => {
            assert_eq!(*name, LinkFilesToRootFSHandlerName);
            assert_eq!(kernel_image_file_name, "vmlinux");
        }
        other => panic!("unexpected handler {:?}", other),
    }
}

#[test]
fn naive_strategy_errors() {
    let mut h = Handlers { validation: HandlerList(vec![]), fcinit: HandlerList(vec![]) };
    let s = HandlersAdapter::NaiveChrootStrategy { rootfs: "/r".to_string(), kernel_image_path: "/img/vmlinux".to_string() };
    assert!(matches!(s.adapt_handlers(&mut h), Err(MachineError::Initialize(m)) if m == "required handler is missing from FcInit's list"));
    let mut h = Handlers::default();
    let s = HandlersAdapter::NaiveChrootStrategy { rootfs: "/r".to_string(), kernel_image_path: "/".to_string() };
    assert!(matches!(s.adapt_handlers(&mut h), Err(MachineError::FileError(m)) if m == "fail to get file base name from /"));
    assert_eq!(h.fcinit.len(), 10);
}

#[test]
fn duplicate_keeps_fields() {
    let h = Handler::NewSetMetadataHandler { name: SetMetadataHandlerName, data: "x".to_string() };
    match h.duplicate() {
        Handler::NewSetMetadataHandler { data, .. } => assert_eq!(data, "x"),
        _ => panic!("wrong variant"),
    }
    assert_eq!(StartVMMHandlerName.kind(), HandlerKind::StartVMM);
}
