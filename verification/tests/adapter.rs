use managed::{Gate, ManagedExt, PollEvent, PollOutcome};

#[test]
fn resolves_and_releases() {
    let (control, mut adapter) = managed::new(0u8);
    assert_eq!(control.is_done(), false);
    assert_eq!(adapter.gate::<u8, &str>(), Gate::Poll);
    assert_eq!(
        adapter.settle::<u8, &str>(PollEvent::Ready(5)),
        PollOutcome::Ready(5)
    );
    assert_eq!(control.is_done(), true);
    assert_eq!(control.is_interrupted(), false);
}

#[test]
fn stop_is_seen_at_the_gate() {
    let (control, mut adapter) = managed::new(0u8);
    control.stop();
    assert_eq!(
        adapter.gate::<u8, &str>(),
        Gate::Done(PollOutcome::Failed(None))
    );
    assert_eq!(control.is_done(), true);
    assert_eq!(control.is_interrupted(), false);
}

#[test]
fn interrupt_is_seen_at_the_gate() {
    let (control, mut adapter) = managed::new(0u8);
    control.interrupt();
    assert_eq!(
        adapter.gate::<u8, &str>(),
        Gate::Done(PollOutcome::Failed(None))
    );
    assert_eq!(control.is_done(), true);
    assert_eq!(control.is_interrupted(), true);
}

#[test]
fn inner_failure_keeps_payload_and_interrupts() {
    let (control, mut adapter) = managed::new(0u8);
    assert_eq!(adapter.gate::<u8, &str>(), Gate::Poll);
    assert_eq!(
        adapter.settle::<u8, &str>(PollEvent::Failed("boom")),
        PollOutcome::Failed(Some("boom"))
    );
    assert_eq!(control.is_done(), true);
    assert_eq!(control.is_interrupted(), true);
}

#[test]
fn cancellation_wins_over_inner_failure() {
    let (control, mut adapter) = managed::new(0u8);
    control.interrupt();
    assert_eq!(
        adapter.gate::<u8, &str>(),
        Gate::Done(PollOutcome::Failed(None))
    );
    assert_eq!(control.is_interrupted(), true);
}

#[test]
fn terminal_adapter_is_idempotent() {
    let (control, mut adapter) = managed::new(0u8);
    assert_eq!(adapter.gate::<u8, &str>(), Gate::Poll);
    assert_eq!(
        adapter.settle::<u8, &str>(PollEvent::Ready(7)),
        PollOutcome::Ready(7)
    );
    for _ in 0..3 {
        assert_eq!(
            adapter.gate::<u8, &str>(),
            Gate::Done(PollOutcome::Failed(None))
        );
        assert_eq!(control.is_done(), true);
        assert_eq!(control.is_interrupted(), false);
    }
}

#[test]
fn pending_keeps_the_handle() {
    let (control, mut adapter) = managed::new(0u8);
    assert_eq!(adapter.gate::<u8, &str>(), Gate::Poll);
    assert_eq!(
        adapter.settle::<u8, &str>(PollEvent::Pending),
        PollOutcome::Pending
    );
    assert_eq!(control.is_done(), false);
    assert_eq!(adapter.gate::<u8, &str>(), Gate::Poll);
}

#[test]
fn settle_after_terminal_discards_the_event() {
    let (control, mut adapter) = managed::new(0u8);
    control.stop();
    assert_eq!(
        adapter.gate::<u8, &str>(),
        Gate::Done(PollOutcome::Failed(None))
    );
    assert_eq!(
        adapter.settle::<u8, &str>(PollEvent::Failed("late")),
        PollOutcome::Failed(None)
    );
    assert_eq!(control.is_interrupted(), false);
}

#[test]
fn postfix_construction_matches_new() {
    let (control, mut adapter) = 3u16.managed();
    assert_eq!(adapter.future, 3u16);
    assert_eq!(control.is_done(), false);
    assert_eq!(adapter.gate::<u16, &str>(), Gate::Poll);
    assert_eq!(
        adapter.settle::<u16, &str>(PollEvent::Ready(3)),
        PollOutcome::Ready(3)
    );
    assert_eq!(control.is_done(), true);
}
