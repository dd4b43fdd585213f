use rustcracker::error::{RtckError, RtckErrorKind};
use rustcracker::exchange::{EventExchange, ExchangeAction, ExchangeStep};
use rustcracker::firecracker::ConnectRetry;

fn performs(a: &ExchangeAction) -> ExchangeStep {
    match a {
        ExchangeAction::Perform(s) => *s,
        ExchangeAction::Finish(_) => panic!("expected a step"),
    }
}

#[test]
fn locked_exchange_runs_in_order() {
    let (s, a) = EventExchange::start(true);
    assert_eq!(performs(&a), ExchangeStep::Lock);
    let mut s = s;
    let mut seen = vec![];
    loop {
        let (t, a) = s.step(Ok(()));
        s = t;
        match a {
            ExchangeAction::Perform(st) => {
                if st == ExchangeStep::Send || st == ExchangeStep::Receive || st == ExchangeStep::ClearStream {
                    assert!(s.held);
                }
                seen.push(st)
            }
            ExchangeAction::Finish(r) => {
                assert!(r.is_ok());
                break;
            }
        }
    }
    assert_eq!(
        seen,
        vec![
            ExchangeStep::ClearStream,
            ExchangeStep::Send,
            ExchangeStep::Receive,
            ExchangeStep::Unlock,
            ExchangeStep::Decode
        ]
    );
    assert!(!s.held);
}

#[test]
fn failed_send_is_reported_after_unlocking() {
    let (s, _) = EventExchange::start(true);
    let (s, _) = s.step(Ok(()));
    let (s, _) = s.step(Ok(()));
    let (s, a) = s.step(Err(RtckError::Agent("When writing to the socket stream: broken pipe".to_string())));
    assert_eq!(performs(&a), ExchangeStep::Unlock);
    assert!(s.held);
    let (s, a) = s.step(Ok(()));
    assert!(!s.held);
    match a {
        ExchangeAction::Finish(Err(e)) => {
            assert_eq!(e.message(), "When writing to the socket stream: broken pipe")
        }
        _ => panic!("expected the send error"),
    }
}

#[test]
fn failed_unlock_reports_its_own_error() {
    let (s, _) = EventExchange::start(true);
    let (s, _) = s.step(Ok(()));
    let (s, _) = s.step(Err(RtckError::Agent("Fail to clear the socket stream".to_string())));
    let (_, a) = s.step(Err(RtckError::Agent("When unlocking the lock file: busy".to_string())));
    match a {
        ExchangeAction::Finish(Err(e)) => assert_eq!(e.message(), "When unlocking the lock file: busy"),
        _ => panic!("expected the unlock error"),
    }
}

#[test]
fn failed_lock_ends_the_exchange() {
    let (s, _) = EventExchange::start(true);
    let (s, a) = s.step(Err(RtckError::Agent("When locking the lock file: denied".to_string())));
    assert_eq!(s.stage, ExchangeStep::Finished);
    assert!(!s.held);
    assert!(matches!(a, ExchangeAction::Finish(Err(_))));
}

#[test]
fn exchange_without_lock_decodes_after_receiving() {
    let (s, a) = EventExchange::start(false);
    assert_eq!(performs(&a), ExchangeStep::ClearStream);
    let (s, _) = s.step(Ok(()));
    let (s, a) = s.step(Ok(()));
    assert_eq!(performs(&a), ExchangeStep::Receive);
    let (s, a) = s.step(Ok(()));
    assert_eq!(performs(&a), ExchangeStep::Decode);
    let (_, a) = s.step(Err(RtckError::Decode("expected value at line 1".to_string())));
    match a {
        ExchangeAction::Finish(Err(e)) => {
            assert_eq!(e.kind(), RtckErrorKind::Agent);
            assert_eq!(e.message(), "Fail to decode response: expected value at line 1");
        }
        _ => panic!("expected a decode failure"),
    }
}

#[test]
fn exchange_without_lock_fails_at_once() {
    let (s, _) = EventExchange::start(false);
    let (s, a) = s.step(Err(RtckError::Agent("Incomplete response".to_string())));
    assert_eq!(s.stage, ExchangeStep::Finished);
    match a {
        ExchangeAction::Finish(Err(e)) => assert_eq!(e.message(), "Incomplete response"),
        _ => panic!("expected the failure"),
    }
}

#[test]
fn connect_gives_up_after_its_retries() {
    let mut c = ConnectRetry::new(3, false);
    let mut attempts = 0;
    while c.check().is_ok() {
        attempts += 1;
        c.failed();
    }
    assert_eq!(attempts, 3);
    let e = c.check().unwrap_err();
    assert_eq!(e.kind(), RtckErrorKind::Firecracker);
    assert_eq!(e.message(), "fail to connect unix socket after 3 tries");
    assert!(ConnectRetry::new(0, false).check().is_err());
    assert_eq!(
        ConnectRetry::new(0, true).check().unwrap_err().message(),
        "Fail to connect unix socket after 0 tries"
    );
}
