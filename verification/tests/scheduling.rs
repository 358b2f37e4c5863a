use tsuki::input_policy::{grab_should_release, key_action, KeyAction, BTN_LEFT};
use tsuki::scheduler::{next_wake, plan_frame, FrameOutcome, FrameStep, WakeSource, RETRY_DELAY_MILLIS};
use tsuki::{choose_variant, seat_name, BackendVariant};

#[test]
fn damage_queues_and_awaits_vblank() {
    let outcome = FrameOutcome::Submitted { has_damage: true, needs_sync: false };
    assert_eq!(plan_frame(&outcome), FrameStep::QueueFrame);
    assert_eq!(next_wake(&outcome, true), WakeSource::AwaitVBlank);
}

#[test]
fn no_damage_arms_retry_timer() {
    let outcome = FrameOutcome::Submitted { has_damage: false, needs_sync: false };
    assert_eq!(plan_frame(&outcome), FrameStep::SkipQueue);
    assert_eq!(
        next_wake(&outcome, false),
        WakeSource::RetryTimer { delay_millis: 6 }
    );
    assert_eq!(RETRY_DELAY_MILLIS, 6);
}

#[test]
fn failed_render_arms_retry_timer() {
    let outcome = FrameOutcome::Failed { reason: "device lost".to_string() };
    assert_eq!(plan_frame(&outcome), FrameStep::SkipQueue);
    assert_eq!(
        next_wake(&outcome, false),
        WakeSource::RetryTimer { delay_millis: RETRY_DELAY_MILLIS }
    );
}

#[test]
fn failed_queue_drops_frame_and_retries() {
    let outcome = FrameOutcome::Submitted { has_damage: true, needs_sync: false };
    assert_eq!(
        next_wake(&outcome, false),
        WakeSource::RetryTimer { delay_millis: RETRY_DELAY_MILLIS }
    );
}

#[test]
fn sync_demand_is_fatal() {
    let outcome = FrameOutcome::Submitted { has_damage: true, needs_sync: true };
    assert_eq!(plan_frame(&outcome), FrameStep::FatalSyncRequired);
}

#[test]
fn quit_binding_needs_both_modifiers() {
    assert_eq!(key_action(0x51, true, true), KeyAction::Quit);
    assert_eq!(key_action(0x51, true, false), KeyAction::Forward);
    assert_eq!(key_action(0x51, false, true), KeyAction::Forward);
    assert_eq!(key_action(0x41, true, true), KeyAction::Forward);
}

#[test]
fn vt_switch_bindings_map_to_terminal_numbers() {
    assert_eq!(key_action(0x1008FE01, false, false), KeyAction::SwitchVt { vt: 1 });
    assert_eq!(key_action(0x1008FE05, false, false), KeyAction::SwitchVt { vt: 5 });
    assert_eq!(key_action(0x1008FE0C, true, true), KeyAction::SwitchVt { vt: 12 });
    assert_eq!(key_action(0x1008FE0D, false, false), KeyAction::Forward);
    assert_eq!(key_action(0x1008FE00, false, false), KeyAction::Forward);
}

#[test]
fn move_grab_releases_without_left_button() {
    assert!(grab_should_release(&vec![]));
    assert!(grab_should_release(&vec![0x111, 0x112]));
    assert!(!grab_should_release(&vec![BTN_LEFT]));
    assert!(!grab_should_release(&vec![0x111, BTN_LEFT]));
}

#[test]
fn variant_follows_host_display() {
    assert_eq!(choose_variant(true), BackendVariant::Windowed);
    assert_eq!(choose_variant(false), BackendVariant::Hardware);
}

#[test]
fn seat_names_per_variant() {
    let session_seat = "seat0".to_string();
    assert_eq!(seat_name(BackendVariant::Windowed, &session_seat), "winit");
    assert_eq!(seat_name(BackendVariant::Hardware, &session_seat), "seat0");
}
