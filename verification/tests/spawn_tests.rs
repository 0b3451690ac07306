use cross_core::dispatcher::CoreId;
use cross_core::dispatcher::Invocation;
use cross_core::signal::SignalId;
use cross_core::spawn::SpawnApi;
use cross_core::spawn::SpawnError;

fn fresh_api() -> SpawnApi<u32, 4> {
    let line0 = SignalId::new(15).unwrap();
    let line1 = SignalId::new(16).unwrap();
    SpawnApi::new(line0, line1)
}

#[test]
fn one_invoke_is_one_invocation_after_the_signal() {
    let mut api = fresh_api();
    assert_eq!(api.invoke(CoreId::Core1, 42), Ok(()));
    assert_eq!(api.queued(CoreId::Core1), 1);
    // Before the signal is forwarded, a dispatcher run does nothing.
    api.dispatch(CoreId::Core1);
    assert!(api.invocations(CoreId::Core1).is_empty());
    assert_eq!(api.queued(CoreId::Core1), 1);
    // Forward the signal, then dispatch: exactly one invocation.
    assert_eq!(api.forward(CoreId::Core1), Ok(()));
    api.dispatch(CoreId::Core1);
    assert_eq!(
        api.invocations(CoreId::Core1).as_slice(),
        &[Invocation { payload: 42, core: CoreId::Core1 }]
    );
    assert_eq!(api.queued(CoreId::Core1), 0);
    // Nothing ran on the other core.
    assert!(api.invocations(CoreId::Core0).is_empty());
}

#[test]
fn back_to_back_invokes_drain_in_order() {
    let mut api = fresh_api();
    assert_eq!(api.invoke(CoreId::Core1, 1), Ok(()));
    // The second call coalesces with the pending signal.
    assert_eq!(api.invoke(CoreId::Core1, 2), Ok(()));
    assert_eq!(api.queued(CoreId::Core1), 2);
    assert!(api.signal_pending());
    assert_eq!(api.forward(CoreId::Core1), Ok(()));
    api.dispatch(CoreId::Core1);
    assert_eq!(
        api.invocations(CoreId::Core1).as_slice(),
        &[
            Invocation { payload: 1, core: CoreId::Core1 },
            Invocation { payload: 2, core: CoreId::Core1 },
        ]
    );
    assert_eq!(api.queued(CoreId::Core1), 0);
}

#[test]
fn invoke_on_a_full_queue_reports_and_sends_nothing() {
    let mut api = fresh_api();
    // Depth 4 means room for three payloads.
    assert_eq!(api.invoke(CoreId::Core0, 1), Ok(()));
    assert_eq!(api.invoke(CoreId::Core0, 2), Ok(()));
    assert_eq!(api.invoke(CoreId::Core0, 3), Ok(()));
    assert_eq!(api.invoke(CoreId::Core0, 4), Err(SpawnError::QueueFull));
    assert_eq!(api.queued(CoreId::Core0), 3);
    // The rejected call is simply gone; the queued ones drain in order.
    assert_eq!(api.forward(CoreId::Core0), Ok(()));
    api.dispatch(CoreId::Core0);
    assert_eq!(
        api.invocations(CoreId::Core0).as_slice(),
        &[
            Invocation { payload: 1, core: CoreId::Core0 },
            Invocation { payload: 2, core: CoreId::Core0 },
            Invocation { payload: 3, core: CoreId::Core0 },
        ]
    );
}

#[test]
fn signal_for_the_other_core_is_reported_lost() {
    let mut api = fresh_api();
    assert_eq!(api.invoke(CoreId::Core0, 10), Ok(()));
    // The mailbox still carries core 0's wake-up; core 1's cannot be sent.
    assert_eq!(api.invoke(CoreId::Core1, 20), Err(SpawnError::SignalLost));
    // The payload is queued all the same and survives for a later wake-up.
    assert_eq!(api.queued(CoreId::Core1), 1);
    assert_eq!(api.forward(CoreId::Core0), Ok(()));
    api.dispatch(CoreId::Core0);
    assert_eq!(
        api.invocations(CoreId::Core0).as_slice(),
        &[Invocation { payload: 10, core: CoreId::Core0 }]
    );
    // Mailbox drained: invoking core 1 again now succeeds and delivers both.
    assert_eq!(api.invoke(CoreId::Core1, 21), Ok(()));
    assert_eq!(api.forward(CoreId::Core1), Ok(()));
    api.dispatch(CoreId::Core1);
    assert_eq!(
        api.invocations(CoreId::Core1).as_slice(),
        &[
            Invocation { payload: 20, core: CoreId::Core1 },
            Invocation { payload: 21, core: CoreId::Core1 },
        ]
    );
}

#[test]
fn producer_and_consumer_interleave_without_corruption() {
    // Rapid toggling between the invoking core and the draining core: every
    // payload comes out exactly once, bit-for-bit, in the order it went in.
    let mut api = fresh_api();
    let mut delivered: Vec<u32> = Vec::new();
    let mut sent: Vec<u32> = Vec::new();
    let mut next: u32 = 0xa5a5_0000;
    for _round in 0..50 {
        for _burst in 0..3 {
            if api.invoke(CoreId::Core1, next).is_ok() {
                sent.push(next);
            }
            next = next.wrapping_add(0x0101_0101);
        }
        assert_eq!(api.forward(CoreId::Core1), Ok(()));
        api.dispatch(CoreId::Core1);
        for inv in api.invocations(CoreId::Core1).iter().skip(delivered.len()) {
            assert_eq!(inv.core, CoreId::Core1);
            delivered.push(inv.payload);
        }
        assert_eq!(delivered, sent);
    }
    assert_eq!(delivered.len(), sent.len());
    assert!(!delivered.is_empty());
}
