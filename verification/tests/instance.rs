use dispute::instance::{signals_launch, InstanceError, WatchEventKind};

#[test]
fn only_an_access_signals_a_launch() {
    assert!(signals_launch(Ok(WatchEventKind::Access)));
    assert!(!signals_launch(Ok(WatchEventKind::Modify)));
    assert!(!signals_launch(Ok(WatchEventKind::Create)));
    assert!(!signals_launch(Ok(WatchEventKind::Remove)));
    assert!(!signals_launch(Ok(WatchEventKind::Any)));
    assert!(!signals_launch(Ok(WatchEventKind::Other)));
    assert!(!signals_launch(Err(())));
}

#[test]
fn instance_errors_compare_by_kind_and_message() {
    assert_eq!(InstanceError::IsLocked, InstanceError::IsLocked);
    assert_ne!(InstanceError::IsLocked, InstanceError::Other("x".to_string()));
}
