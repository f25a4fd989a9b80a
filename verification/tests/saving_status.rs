use lovelock::bridge::ModVersionObservation;
use lovelock::detection::DetectionError;
use lovelock::dispatch::TriggerIdentity;
use lovelock::provider::{ProviderError, ProviderTarget};
use lovelock::saving::{
    backup_file_name, check_schema, invalid_state_warning, normalize_slots, preferred_target_id, preserve_failed_note,
    preserved_note, read_failure_warning, save_error_message, unavailable_warning, SaveReason, SaveSchedule,
    SAVE_DEBOUNCE_MS, SCHEMA_VERSION,
};
use lovelock::status::{
    action_status_label, ActionOutcome,
    choose_device, device_listed, failed_detection_status, found_log_status, icon_tone, provider_error_kind,
    status_description, BadgeTone, CredentialState, IconTone, LogDetectionStatus, TestActionStatus, VibrateMode,
};
use lovelock::triggers::TriggerKind;

#[test]
fn debounce_writes_once_and_flush_writes_immediately() {
    let initial = "{\"log_path\":\"\"}".to_owned();
    let mut schedule = SaveSchedule::opened(initial.clone(), false, 0);
    let changed = "{\"log_path\":\"/changed\"}".to_owned();
    let start = 10_000;
    assert!(!schedule.observe(changed.clone(), start));
    assert_eq!(schedule.remaining_ms(start), Some(SAVE_DEBOUNCE_MS));
    assert!(schedule.observe(changed.clone(), start + SAVE_DEBOUNCE_MS));
    schedule.committed(changed.clone());
    assert_eq!(schedule.remaining_ms(start + SAVE_DEBOUNCE_MS), None);
    assert_eq!(schedule.saved, changed);

    let exit_flush = "{\"log_path\":\"/exit-flush\"}".to_owned();
    assert!(!schedule.observe(exit_flush.clone(), start + SAVE_DEBOUNCE_MS * 2));
    assert_eq!(schedule.flush_reason(exit_flush.clone()), Some(SaveReason::Autosave));
    schedule.committed(exit_flush.clone());
    assert_eq!(schedule.saved, exit_flush);
    assert_eq!(schedule.flush_reason(exit_flush.clone()), None, "a clean state is not written again");

    let save_now = "{\"log_path\":\"/save-now\"}".to_owned();
    schedule.reset_shown(save_now.clone());
    schedule.committed(save_now.clone());
    assert_eq!(schedule.saved, save_now);
}

#[test]
fn unsupported_schema_is_backed_up_like_malformed_json() {
    let error = check_schema(SCHEMA_VERSION + 1).unwrap_err();
    assert!(error.contains("unsupported schema version"));
    assert_eq!(error, "unsupported schema version 8; expected 7");
    assert!(check_schema(SCHEMA_VERSION).is_ok());
}

#[test]
fn failed_reset_save_stays_dirty_and_reports_previous_disk_state() {
    let mut schedule = SaveSchedule::opened("{}".to_owned(), false, 0);
    let state = "{\"log_path\":\"/reset-in-memory\"}".to_owned();
    schedule.reset_shown(state.clone());
    schedule.commit_failed(state.clone(), SaveReason::Reset, "Is a directory (os error 21)");
    assert_eq!(schedule.pending, Some(state));
    assert!(schedule.save_error.as_deref().unwrap().contains("previous disk state may return"));
}

// Further cases of the same rules.

#[test]
fn going_back_to_the_saved_state_cancels_the_write_and_a_failed_autosave_retries() {
    let saved = "a".to_owned();
    let mut schedule = SaveSchedule::opened(saved.clone(), false, 0);
    assert!(!schedule.observe("b".to_owned(), 100));
    assert_eq!(schedule.pending.as_deref(), Some("b"));
    assert!(!schedule.observe(saved.clone(), 200));
    assert_eq!(schedule.pending, None);
    assert_eq!(schedule.deadline_ms, None);

    assert!(!schedule.observe("c".to_owned(), 300));
    assert!(schedule.observe("c".to_owned(), 300 + SAVE_DEBOUNCE_MS));
    schedule.commit_failed("c".to_owned(), SaveReason::Autosave, "disk full");
    schedule.retry_later(300 + SAVE_DEBOUNCE_MS);
    assert_eq!(schedule.remaining_ms(300 + SAVE_DEBOUNCE_MS), Some(SAVE_DEBOUNCE_MS));
    assert_eq!(
        schedule.save_error.as_deref(),
        Some("Could not save settings: disk full Changes remain unsaved and will be retried.")
    );
    let migrated = SaveSchedule::opened("m".to_owned(), true, 50);
    assert_eq!(migrated.deadline_ms, Some(50 + SAVE_DEBOUNCE_MS));
    assert_eq!(migrated.pending.as_deref(), Some("m"));
}

#[test]
fn load_and_backup_texts() {
    assert_eq!(
        backup_file_name("state", Some("json"), 1_700_000_000, 42, 0),
        "state.invalid-1700000000-000000042.json"
    );
    assert_eq!(backup_file_name("state", None, 5, 123_456_789, 2), "state.invalid-5-123456789-2");
    assert_eq!(
        read_failure_warning("/cfg/state.json", "denied"),
        "Could not read saved state at /cfg/state.json: denied. Defaults were restored."
    );
    assert_eq!(
        invalid_state_warning("expected value", &preserved_note("/cfg/state.invalid.json")),
        "Saved state was invalid (expected value). The invalid file was preserved at /cfg/state.invalid.json. Defaults were restored."
    );
    assert_eq!(
        preserve_failed_note("busy", "/cfg/state.json"),
        "The invalid file could not be moved to a backup (busy); it remains at /cfg/state.json."
    );
    assert_eq!(
        unavailable_warning("No config directory."),
        "Saved state is unavailable: No config directory. Settings will remain in memory for this session."
    );
    assert_eq!(
        save_error_message(SaveReason::Reset, "x"),
        "Current settings were reset in memory, but saved state could not be replaced: x The previous disk state may return after restart."
    );
    assert_eq!(preferred_target_id("  toy-1 ").unwrap(), "  toy-1 ");
    assert_eq!(preferred_target_id("   ").unwrap_err(), "preferred target ID is empty");
}

#[test]
fn normalized_filter_slots_are_sorted_unique_and_positive() {
    assert_eq!(normalize_slots(true, &vec![4, 0, 2, 4, 2]), vec![2, 4]);
    assert!(normalize_slots(false, &vec![1, 7]).is_empty());
    assert_eq!(normalize_slots(true, &vec![9, 3, 9, 1]), vec![1, 3, 9]);
}

#[test]
fn preferred_target_is_reconciled_against_fresh_targets() {
    let preferred = Some("toy-2".to_owned());
    let devices = vec![ProviderTarget::new("toy-1", "Alpha"), ProviderTarget::new("toy-2", "Beta")];
    assert_eq!(choose_device(&preferred, &devices), Some("toy-2".to_owned()));
    let fresh = vec![ProviderTarget::new("toy-3", "Gamma")];
    assert_eq!(choose_device(&preferred, &fresh), Some("toy-3".to_owned()));
    assert!(!device_listed(&fresh, &"toy-99".to_owned()));
    assert_eq!(choose_device(&preferred, &vec![]), None);
}

#[test]
fn test_action_status_reports_success_and_failure() {
    assert_eq!(TestActionStatus::Sent.label(), "Test vibration sent.");
    let failed = TestActionStatus::Failed(ProviderError::NotConnected.user_message());
    assert!(matches!(failed, TestActionStatus::Failed(_)));
    assert_eq!(TestActionStatus::Sending.label(), "Sending test vibration…");
}

#[test]
fn detection_status_updates_path_and_guidance() {
    assert_eq!(found_log_status(true, None), LogDetectionStatus::Found);
    assert!(found_log_status(false, None).label().contains("-condebug"));
    assert_eq!(
        failed_detection_status(&DetectionError::DeadlockNotInstalled),
        LogDetectionStatus::Failed(
            "Auto-detect failed: Deadlock is not installed in any Steam library visible to this user".to_owned()
        )
    );
    assert_eq!(
        found_log_status(true, Some("denied")),
        LogDetectionStatus::Failed("Deadlock console.log was found, but the listener could not start: denied".to_owned())
    );
}

#[test]
fn labels_tones_and_kinds() {
    assert_eq!(VibrateMode::default(), VibrateMode::Fixed);
    assert_eq!(VibrateMode::Interval.label(), "Random");
    assert_eq!(CredentialState::default().label(), "Not tested yet");
    assert_eq!(CredentialState::Invalid.label(), "Connection failed");
    assert_eq!(BadgeTone::Success.rgb(), (0x96, 0xE0, 0xB7));
    assert_eq!(icon_tone(true, true), IconTone::Selected);
    assert_eq!(icon_tone(true, false), IconTone::On);
    assert_eq!(icon_tone(false, false), IconTone::Off);
    assert_eq!(provider_error_kind(&ProviderError::InvalidSetup), "invalid_setup");
    let _ = ModVersionObservation::Unknown;
}

#[test]
fn action_status_contains_provider_target_and_trigger_details() {
    let trigger = TriggerIdentity {
        kind: TriggerKind::AbilityCooldownReady,
        session_id: "session".to_owned(),
        sequence: 9,
        client_time_ms: 9,
        detection: "charge_restored".to_owned(),
        ability_slot: Some(2),
        ability_name: Some("Test Ability".to_owned()),
        charges_before: Some(1),
        charges_after: Some(2),
        amount_total_bits: None,
        pulse: None,
    };
    let text = status_description(&trigger, "");
    assert_eq!(
        text,
        "ability cooldown ready slot 2 (Test Ability), detection charge_restored, charges 1→2, session#9"
    );
    let mut death = trigger.clone();
    death.kind = TriggerKind::Death;
    assert_eq!(status_description(&death, ""), "death session#9");
    let mut amount = trigger;
    amount.kind = TriggerKind::DamageTaken;
    amount.amount_total_bits = Some(180.0f32.to_bits());
    assert_eq!(
        status_description(&amount, "180"),
        "damage taken of 180 within the window, detection charge_restored, session#9"
    );
}

#[test]
fn normalization_canonicalizes_each_profile_and_filter_independently() {
    // Selected slots are sorted and deduplicated; an "all" filter keeps none.
    assert_eq!(normalize_slots(true, &vec![4, 0, 2, 4, 2]), vec![2, 4]);
    assert!(normalize_slots(false, &vec![1, 7]).is_empty());
    assert_eq!(normalize_slots(true, &vec![3]), vec![3]);
}

#[test]
fn action_statuses_read_as_one_line() {
    assert_eq!(
        action_status_label(&ActionOutcome::Sending, Some("Hub"), Some("15/20 for 3 s"), "death"),
        "Lovense: Sending vibrate to Hub at 15/20 for 3 s (death)\u{2026}"
    );
    assert_eq!(
        action_status_label(&ActionOutcome::Sent, None, Some("15/20 for 3 s"), "kill"),
        "Lovense: vibrate sent to no target at 15/20 for 3 s (kill)."
    );
    assert_eq!(
        action_status_label(&ActionOutcome::Failed("timeout".to_owned()), Some("Hub"), None, "death"),
        "Lovense: vibrate failed for Hub at settings unavailable (death): timeout"
    );
    assert_eq!(
        action_status_label(&ActionOutcome::Skipped("provider is not connected".to_owned()), None, None, "death"),
        "Lovense: vibrate skipped for no target at settings unavailable (death): provider is not connected"
    );
}
