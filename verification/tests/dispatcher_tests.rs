use cross_core::dispatcher::CoreId;
use cross_core::dispatcher::Dispatcher;
use cross_core::dispatcher::Invocation;
use cross_core::relay::CoreBridge;
use cross_core::signal::SignalId;

#[test]
fn core_ids_number_the_cores() {
    assert_eq!(CoreId::Core0.index(), 0);
    assert_eq!(CoreId::Core1.index(), 1);
}

#[test]
fn run_without_a_pended_line_invokes_nothing() {
    let line = SignalId::new(16).unwrap();
    let mut d = Dispatcher::<u32, 4>::new(CoreId::Core1, line);
    assert!(d.enqueue(5).is_ok());
    d.run();
    // The payload waits: the dispatch line was never pended.
    assert_eq!(d.queued(), 1);
    assert!(d.invocations().is_empty());
}

#[test]
fn forwarded_signal_triggers_a_full_drain() {
    let line = SignalId::new(16).unwrap();
    let mut d = Dispatcher::<u32, 4>::new(CoreId::Core1, line);
    let mut bridge = CoreBridge::new();
    assert!(d.enqueue(5).is_ok());
    assert!(d.enqueue(6).is_ok());
    assert_eq!(bridge.send_signal(line), Ok(()));
    assert_eq!(d.forward(&mut bridge), Ok(()));
    assert!(!bridge.is_pending());
    d.run();
    assert_eq!(d.queued(), 0);
    assert_eq!(
        d.invocations().as_slice(),
        &[
            Invocation { payload: 5, core: CoreId::Core1 },
            Invocation { payload: 6, core: CoreId::Core1 },
        ]
    );
    // A second run finds nothing pended and adds nothing.
    d.run();
    assert_eq!(d.invocations().len(), 2);
}

#[test]
fn signal_for_another_line_does_not_dispatch() {
    let line = SignalId::new(16).unwrap();
    let other = SignalId::new(3).unwrap();
    let mut d = Dispatcher::<u32, 4>::new(CoreId::Core0, line);
    let mut bridge = CoreBridge::new();
    assert!(d.enqueue(9).is_ok());
    assert_eq!(bridge.send_signal(other), Ok(()));
    assert_eq!(d.forward(&mut bridge), Ok(()));
    d.run();
    // The forwarded line is not the dispatch line: nothing drains.
    assert_eq!(d.queued(), 1);
    assert!(d.invocations().is_empty());
}

#[test]
fn forwarding_an_empty_mailbox_changes_nothing() {
    let line = SignalId::new(15).unwrap();
    let mut d = Dispatcher::<u32, 4>::new(CoreId::Core0, line);
    let mut bridge = CoreBridge::new();
    assert_eq!(d.forward(&mut bridge), Ok(()));
    d.run();
    assert!(d.invocations().is_empty());
}
