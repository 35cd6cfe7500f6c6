use driver_bridge::event_loop::{
    loop_entry_actions, loop_exit_actions, react, Action, PollOutcome, SessionEvent,
    POLL_BACKOFF_MS,
};
use driver_bridge::haptics::{dispatch_haptics, make_haptics_command};
use driver_bridge::slot::ContextSlot;
use driver_bridge::vsync::vsync_sleep_duration;

fn active_slot() -> ContextSlot<u64> {
    let mut slot: ContextSlot<u64> = ContextSlot::new();
    slot.initialize_once(7);
    slot
}

#[test]
fn negative_haptics_duration_is_clamped_to_zero() {
    // A requested duration of -0.5 s arrives as -500_000_000 ns and is
    // forwarded as exactly 0 s.
    let cmd = make_haptics_command(3, -500_000_000, 440, 90);
    assert_eq!(cmd.duration_ns, 0);
    assert_eq!(cmd.device_id, 3);
    assert_eq!(cmd.frequency_bits, 440);
    assert_eq!(cmd.amplitude_bits, 90);
}

#[test]
fn nonnegative_haptics_duration_passes_through() {
    let cmd = make_haptics_command(3, 250_000, 440, 90);
    assert_eq!(cmd.duration_ns, 250_000);
}

#[test]
fn haptics_dispatch_forwards_only_while_a_context_is_present() {
    let slot = active_slot();
    let cmd = dispatch_haptics(&slot, 3, -500_000_000, 440, 90).unwrap();
    assert_eq!(cmd.duration_ns, 0);

    let empty: ContextSlot<u64> = ContextSlot::new();
    assert_eq!(dispatch_haptics(&empty, 3, 250_000, 440, 90), None);
}

#[test]
fn vsync_wait_is_skipped_when_optimization_is_disabled() {
    assert_eq!(vsync_sleep_duration(false, Some(12_000_000)), None);
    assert_eq!(vsync_sleep_duration(false, None), None);
}

#[test]
fn vsync_wait_sleeps_exactly_the_reported_duration_when_enabled() {
    // The session context reports 12 ms until the next vsync; the
    // caller is told to sleep exactly that long.
    assert_eq!(vsync_sleep_duration(true, Some(12_000_000)), Some(12_000_000));
    assert_eq!(vsync_sleep_duration(true, None), None);
}

#[test]
fn client_connected_initializes_streaming_then_resyncs() {
    let mut slot = active_slot();
    let step = react(&mut slot, PollOutcome::Event(SessionEvent::ClientConnected));
    assert_eq!(
        step.actions,
        vec![Action::InitializeStreaming, Action::RequestResync]
    );
    assert_eq!(step.taken, None);
    assert!(!step.terminate);
    assert!(slot.has_context());
}

#[test]
fn client_disconnected_deinitializes_streaming() {
    let mut slot = active_slot();
    let step = react(&mut slot, PollOutcome::Event(SessionEvent::ClientDisconnected));
    assert_eq!(step.actions, vec![Action::DeinitializeStreaming]);
    assert_eq!(step.taken, None);
    assert!(!step.terminate);
    assert!(slot.has_context());
}

#[test]
fn shutdown_pending_empties_the_slot_and_ends_the_loop() {
    let mut slot = active_slot();
    let step = react(&mut slot, PollOutcome::Event(SessionEvent::ShutdownPending));
    assert_eq!(step.actions, vec![Action::ShutdownHost]);
    assert_eq!(step.taken, None);
    assert!(step.terminate);
    assert!(!slot.has_context());
}

#[test]
fn restart_pending_hands_the_context_out_before_host_shutdown() {
    let mut slot = active_slot();
    let step = react(&mut slot, PollOutcome::Event(SessionEvent::RestartPending));
    assert_eq!(
        step.actions,
        vec![Action::RestartContext, Action::ShutdownHost]
    );
    assert_eq!(step.taken, Some(7));
    assert!(step.terminate);
    assert!(!slot.has_context());
}

#[test]
fn restart_pending_on_an_emptied_slot_skips_the_restart() {
    let mut slot: ContextSlot<u64> = ContextSlot::new();
    let step = react(&mut slot, PollOutcome::Event(SessionEvent::RestartPending));
    assert_eq!(step.actions, vec![Action::ShutdownHost]);
    assert_eq!(step.taken, None);
    assert!(step.terminate);
}

#[test]
fn an_empty_poll_sleeps_one_backoff_and_continues() {
    let mut slot = active_slot();
    let step = react(&mut slot, PollOutcome::NoEvent);
    assert_eq!(step.actions, vec![Action::SleepBackoff]);
    assert!(!step.terminate);
    assert_eq!(POLL_BACKOFF_MS, 100);
}

#[test]
fn direct_shutdown_mid_poll_terminates_the_loop_with_only_cleanup() {
    // The loop is between polls when a direct shutdown call takes the
    // context; its next iteration observes the empty slot, performs no
    // further host call, and ends; only the terminal cleanup remains.
    let mut slot = active_slot();
    assert_eq!(slot.take(), Some(7));
    let step = react(&mut slot, PollOutcome::SlotEmpty);
    assert!(step.actions.is_empty());
    assert_eq!(step.taken, None);
    assert!(step.terminate);
    assert_eq!(loop_exit_actions(), vec![Action::ShutdownClient]);
}

#[test]
fn loop_entry_starts_the_connection_of_a_present_context() {
    let slot = active_slot();
    assert_eq!(
        loop_entry_actions(&slot, false),
        vec![Action::InitClient, Action::StartConnection]
    );
    assert_eq!(
        loop_entry_actions(&slot, true),
        vec![
            Action::InitClient,
            Action::SetDefaultPlayArea,
            Action::StartConnection
        ]
    );
}

#[test]
fn loop_entry_on_an_empty_slot_skips_the_connection() {
    let slot: ContextSlot<u64> = ContextSlot::new();
    assert_eq!(loop_entry_actions(&slot, false), vec![Action::InitClient]);
    assert_eq!(
        loop_entry_actions(&slot, true),
        vec![Action::InitClient, Action::SetDefaultPlayArea]
    );
}
