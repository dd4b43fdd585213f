use rustcracker::error::{handle_entry, handle_entry_default, handle_entry_ref, RtckError, RtckErrorKind, UnexpectedNullError};
use rustcracker::machine::MachineError;
use rustcracker::options::{FirecrackerOption, JailerOption};
use rustcracker::paths::{path_is_absolute, path_join};
use rustcracker::text::decimal_string;

#[test]
fn entries_and_their_errors() {
    assert_eq!(handle_entry(&Some(3u32), "socket path").unwrap(), 3);
    let e = handle_entry::<u32>(&None, "socket path").unwrap_err();
    assert_eq!(e.kind(), RtckErrorKind::Config);
    assert_eq!(e.message(), "Missing socket path entry");
    assert_eq!(handle_entry_default(&None, 7u8), 7);
    assert_eq!(handle_entry_default(&Some(1u8), 7u8), 1);
    let o = Some("x".to_string());
    assert_eq!(handle_entry_ref(&o, "id").unwrap(), "x");
    let none: Option<String> = None;
    let e = handle_entry_ref(&none, "id").unwrap_err();
    assert_eq!(e.kind(), RtckErrorKind::Jailer);
    assert_eq!(e.message(), "Missing id entry");
}

#[test]
fn error_texts() {
    assert_eq!(RtckError::Config("bad".to_string()).to_text(), "Configure: bad");
    assert_eq!(RtckError::Encode("x".to_string()).to_text(), "Fail to encode structs: x");
    assert_eq!(RtckError::Machine("m".to_string()).to_text(), "Process: m");
    assert_eq!(RtckError::IO("io".to_string()).to_text(), "IO error: io");
    assert_eq!(
        MachineError::ArgWrong("no socket".to_string()).to_text(),
        "Missing arguments, reason: no socket"
    );
    assert_eq!(UnexpectedNullError.to_text(), "unexpected null; try decoding as an `Option`");
}

#[test]
fn options_start_empty() {
    let f = FirecrackerOption::new();
    assert!(f.api_sock.is_none() && f.id.is_none() && f.start_time_us.is_none());
    let j = JailerOption::default();
    assert!(j.exec_file.is_none() && j.cgroup_version.is_none() && j.parent_cgroup.is_none());
}

#[test]
fn path_joining_follows_pathbuf() {
    assert_eq!(path_join("/srv/jailer", "firecracker"), "/srv/jailer/firecracker");
    assert_eq!(path_join("/srv/jailer/", "x"), "/srv/jailer/x");
    assert_eq!(path_join("/srv", "/abs"), "/abs");
    assert_eq!(path_join("", "rel"), "rel");
    assert!(path_is_absolute("/a"));
    assert!(!path_is_absolute("a/b"));
    for (base, p) in [("/a", "b"), ("/a/", "b"), ("a", "/b"), ("", "c")] {
        assert_eq!(
            path_join(base, p),
            std::path::Path::new(base).join(p).to_string_lossy().into_owned()
        );
    }
}

#[test]
fn decimal_texts() {
    assert_eq!(decimal_string(0), "0");
    assert_eq!(decimal_string(1234567890), "1234567890");
    assert_eq!(decimal_string(u64::MAX), u64::MAX.to_string());
}
