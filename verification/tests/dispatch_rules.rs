use std::collections::BTreeSet;

use lovelock::bridge::{
    AbilityCatalog, AbilityCatalogEntry, AbilityTrigger, BridgeEvent, CountTrigger, HookReady, LocalPlayerRespawn,
};
use lovelock::dispatch::{
    action_job_expired_at, admission_skip_reason, catalog_from_entries, placement_skip_reason, resolved_for_trigger,
    resting_at_rest, resting_send_due, resting_should_act, route_event, ActionValidationError, ActiveAction, Admission,
    DispatchState, EventRoute, Placement, ResolvedAction, TriggerIdentity, ACTION_QUEUE_CAPACITY,
    MAX_ACTION_QUEUE_AGE_MS, RESPAWN_HOLD_SAFETY_CAP_SECS, RESTING_REASSERT_INTERVAL_MS, RESTING_RETRY_BACKOFF_MS,
};
use lovelock::settings::TriggerSettingsSet;
use lovelock::triggers::{priority_order_default, AbilityFilter, TriggerKind};

const NOW: u64 = 1_000_000;

fn settings() -> TriggerSettingsSet<u8, ()> {
    TriggerSettingsSet::default_with(10, (), (), ())
}

fn trigger(kind: TriggerKind, session_id: &str, sequence: u64) -> TriggerIdentity {
    let is_ability = matches!(kind, TriggerKind::AbilityUse | TriggerKind::AbilityCooldownReady);
    TriggerIdentity {
        kind,
        session_id: session_id.to_owned(),
        sequence,
        client_time_ms: sequence,
        detection: "test".to_owned(),
        ability_slot: if is_ability { Some(2) } else { None },
        ability_name: if is_ability { Some("Test Ability".to_owned()) } else { None },
        charges_before: None,
        charges_after: None,
        amount_total_bits: None,
        pulse: None,
    }
}

fn resolved(strength: u8, duration_ms: u64) -> ResolvedAction {
    ResolvedAction { strength, duration_ms }
}

/// What queueing a trigger reports as skipped, the way the app runs it:
/// screening, then placement with the effect its settings resolved to.
fn queue(
    state: &mut DispatchState,
    set: &TriggerSettingsSet<u8, ()>,
    t: TriggerIdentity,
    connected: bool,
) -> Option<String> {
    let admission = state.screen_trigger(set, &t);
    if admission != Admission::Admitted {
        return admission_skip_reason(admission).map(|r| r.to_owned());
    }
    let placement = state.place(set, &t, Some(Ok(resolved(15, 3000))), NOW, connected);
    placement_skip_reason(&placement)
}

fn watermark(state: &DispatchState) -> Option<(String, u64)> {
    state.last_sequence.clone()
}

#[test]
fn resting_send_is_due_on_backoff_when_behind_and_on_heartbeat_when_matched() {
    assert!(!resting_send_due(None, 5, 500));
    assert!(resting_send_due(None, 5, RESTING_RETRY_BACKOFF_MS));
    assert!(!resting_send_due(Some(5), 5, RESTING_RETRY_BACKOFF_MS));
    assert!(resting_send_due(Some(5), 5, RESTING_REASSERT_INTERVAL_MS));
    assert!(resting_send_due(Some(3), 5, RESTING_RETRY_BACKOFF_MS));
}

#[test]
fn a_disabled_baseline_stays_hands_off_until_it_has_driven_the_toy() {
    assert!(!resting_should_act(0, None));
    assert!(!resting_should_act(0, Some(0)));
    assert!(resting_at_rest(0, None));
    assert!(resting_at_rest(0, Some(0)));
    assert!(resting_should_act(0, Some(6)));
    assert!(!resting_at_rest(0, Some(6)));
    assert!(resting_should_act(5, None));
    assert!(!resting_at_rest(5, Some(3)));
    assert!(resting_at_rest(5, Some(5)));
}

#[test]
fn ability_filters_cover_all_selected_empty_and_unknown_slots() {
    assert!(AbilityFilter::All.accepts(1));
    assert!(AbilityFilter::All.accepts(999));
    let selected = AbilityFilter::Selected(BTreeSet::from([2, 5]));
    assert!(!selected.accepts(1));
    assert!(selected.accepts(2));
    assert!(!selected.accepts(999));
    assert!(!AbilityFilter::Selected(BTreeSet::new()).accepts(2));
}

#[test]
fn global_sequence_watermark_is_preserved_across_trigger_kinds() {
    let set = settings();
    let mut state = DispatchState::new();
    queue(&mut state, &set, trigger(TriggerKind::AbilityUse, "first", 4), false);
    assert_eq!(watermark(&state), Some(("first".to_owned(), 4)));
    queue(&mut state, &set, trigger(TriggerKind::Death, "first", 3), false);
    queue(&mut state, &set, trigger(TriggerKind::Death, "first", 5), false);
    assert_eq!(watermark(&state), Some(("first".to_owned(), 5)));
}

#[test]
fn kill_and_assist_triggers_queue_independently_of_death() {
    let mut set = settings();
    set.kill.enabled = true;
    set.assist.enabled = true;
    let mut state = DispatchState::new();
    assert_eq!(
        queue(&mut state, &set, trigger(TriggerKind::Kill, "session", 1), false),
        Some("provider is not connected".to_owned())
    );
    assert_eq!(
        queue(&mut state, &set, trigger(TriggerKind::Assist, "session", 2), false),
        Some("provider is not connected".to_owned())
    );
}

#[test]
fn disabled_kill_trigger_is_ignored() {
    let set = settings();
    assert!(!set.kill.enabled);
    let mut state = DispatchState::new();
    let t = trigger(TriggerKind::Kill, "session", 1);
    assert_eq!(state.screen_trigger(&set, &t), Admission::Disabled);
    assert_eq!(admission_skip_reason(Admission::Disabled), None);
}

#[test]
fn priority_order_defaults_and_normalization_keeps_every_kind_ranked() {
    let mut set = settings();
    assert_eq!(set.priority_order, priority_order_default());
    set.priority_order = vec![TriggerKind::Kill, TriggerKind::Kill];
    set.normalize_priority_order();
    assert_eq!(set.priority_order[0], TriggerKind::Kill);
    assert_eq!(set.priority_order.len(), priority_order_default().len());
    for kind in priority_order_default() {
        assert!(set.priority_order.contains(&kind));
    }
}

#[test]
fn lower_priority_trigger_is_held_back_while_a_higher_one_plays() {
    let mut set = settings();
    set.kill.enabled = true;
    let mut state = DispatchState::new();
    state.active_action = Some(ActiveAction { priority_rank: set.priority_rank(TriggerKind::Death), ends_at_ms: NOW + 5000 });
    assert_eq!(
        queue(&mut state, &set, trigger(TriggerKind::Kill, "session", 1), false),
        Some("a higher-priority effect is still playing".to_owned())
    );
}

#[test]
fn higher_priority_trigger_preempts_a_running_lower_one() {
    let set = settings();
    let mut state = DispatchState::new();
    state.active_action =
        Some(ActiveAction { priority_rank: set.priority_rank(TriggerKind::AbilityUse), ends_at_ms: NOW + 5000 });
    assert_eq!(
        queue(&mut state, &set, trigger(TriggerKind::Death, "session", 1), false),
        Some("provider is not connected".to_owned())
    );
}

#[test]
fn expired_active_action_stops_blocking_lower_priority_triggers() {
    let mut set = settings();
    set.kill.enabled = true;
    let mut state = DispatchState::new();
    state.active_action = Some(ActiveAction { priority_rank: set.priority_rank(TriggerKind::Death), ends_at_ms: NOW - 1000 });
    assert_eq!(
        queue(&mut state, &set, trigger(TriggerKind::Kill, "session", 1), false),
        Some("provider is not connected".to_owned())
    );
}

#[test]
fn hold_until_respawn_swaps_only_the_death_duration_for_the_safety_cap() {
    let base = resolved(14, 3000);
    assert_eq!(
        resolved_for_trigger(TriggerKind::Death, true, base),
        resolved(14, RESPAWN_HOLD_SAFETY_CAP_SECS as u64 * 1000)
    );
    assert_eq!(resolved_for_trigger(TriggerKind::Death, false, base), base);
    assert_eq!(resolved_for_trigger(TriggerKind::Kill, true, base), base);
}

#[test]
fn respawn_without_a_pending_hold_leaves_a_running_effect_alone() {
    let set = settings();
    let mut state = DispatchState::new();
    let ends_at = NOW + 20_000;
    state.active_action = Some(ActiveAction { priority_rank: set.priority_rank(TriggerKind::Death), ends_at_ms: ends_at });
    state.resting_applied = Some(4);
    assert!(!state.handle_respawn(false));
    assert!(matches!(state.active_action, Some(a) if a.ends_at_ms == ends_at));
    assert_eq!(state.resting_applied, Some(4));
}

#[test]
fn ability_and_assist_triggers_are_ignored_while_awaiting_respawn() {
    let mut set = settings();
    set.assist.enabled = true;
    set.ability_use.trigger.enabled = true;
    let mut state = DispatchState::new();
    state.awaiting_respawn = true;
    assert_eq!(
        queue(&mut state, &set, trigger(TriggerKind::Assist, "session", 1), false),
        Some("ignored while you're dead".to_owned())
    );
    assert_eq!(
        queue(&mut state, &set, trigger(TriggerKind::AbilityUse, "session", 2), false),
        Some("ignored while you're dead".to_owned())
    );
    assert_eq!(
        queue(&mut state, &set, trigger(TriggerKind::Death, "session", 3), false),
        Some("provider is not connected".to_owned())
    );
}

#[test]
fn suppress_toggle_off_lets_ability_triggers_through_while_awaiting_respawn() {
    let mut set = settings();
    set.suppress_triggers_while_dead = false;
    set.ability_use.trigger.enabled = true;
    let mut state = DispatchState::new();
    state.awaiting_respawn = true;
    assert_eq!(
        queue(&mut state, &set, trigger(TriggerKind::AbilityUse, "session", 1), false),
        Some("provider is not connected".to_owned())
    );
}

#[test]
fn respawn_event_clears_awaiting_respawn_and_the_active_effect() {
    let set = settings();
    let mut state = DispatchState::new();
    state.awaiting_respawn = true;
    state.resting_applied = Some(6);
    state.active_action = Some(ActiveAction { priority_rank: set.priority_rank(TriggerKind::Death), ends_at_ms: NOW + 30_000 });
    let respawn = LocalPlayerRespawn { schema: 1, session_id: "session".to_owned(), client_time_ms: 1 };
    assert_eq!(route_event(BridgeEvent::LocalPlayerRespawn(respawn.clone())), EventRoute::Respawn(respawn));
    assert!(!state.handle_respawn(false));
    assert!(!state.awaiting_respawn);
    assert!(state.active_action.is_none());
    assert_eq!(state.resting_applied, Some(6));
}

#[test]
fn manual_emergency_stop_clears_active_effect_tracking_even_without_a_provider() {
    let set = settings();
    let mut state = DispatchState::new();
    state.active_action = Some(ActiveAction {
        priority_rank: set.priority_rank(TriggerKind::Death),
        ends_at_ms: NOW + RESPAWN_HOLD_SAFETY_CAP_SECS as u64 * 1000,
    });
    state.awaiting_respawn = true;
    assert!(!state.force_stop(false));
    assert!(state.active_action.is_none());
    assert!(!state.awaiting_respawn);
}

#[test]
fn maintain_resting_without_a_provider_forgets_the_applied_baseline() {
    let mut state = DispatchState::new();
    state.resting_applied = Some(8);
    assert_eq!(state.maintain_resting(8, false, NOW), None);
    assert!(state.resting_applied.is_none());
}

#[test]
fn actionable_events_share_global_watermark_and_disabled_filtering_advances_it() {
    let mut set = settings();
    let mut state = DispatchState::new();
    queue(&mut state, &set, trigger(TriggerKind::AbilityUse, "first", 4), false);
    assert_eq!(watermark(&state), Some(("first".to_owned(), 4)));
    queue(&mut state, &set, trigger(TriggerKind::Death, "first", 3), false);
    set.ability_use.trigger.enabled = true;
    set.ability_use.ability_filter = AbilityFilter::Selected(BTreeSet::new());
    assert_eq!(
        state.screen_trigger(&set, &trigger(TriggerKind::AbilityUse, "first", 5)),
        Admission::Filtered
    );
    assert_eq!(watermark(&state), Some(("first".to_owned(), 5)));
    set.ability_use.ability_filter = AbilityFilter::All;
    assert_eq!(queue(&mut state, &set, trigger(TriggerKind::AbilityUse, "first", 5), false), None);
    queue(&mut state, &set, trigger(TriggerKind::AbilityUse, "first", 6), false);
    assert_eq!(watermark(&state), Some(("first".to_owned(), 6)));
}

#[test]
fn parsed_enabled_ability_event_reaches_action_queue_path() {
    let mut set = settings();
    set.ability_cooldown_ready.trigger.enabled = true;
    let event = BridgeEvent::AbilityCooldownReady(AbilityTrigger {
        schema: 1,
        session_id: "session".to_owned(),
        client_time_ms: 7,
        sequence: 3,
        ability_slot: 2,
        ability_name: Some("Bookwyrm".to_owned()),
        detection: "charge_restored".to_owned(),
        charges_before: Some(1),
        charges_after: Some(2),
    });
    let EventRoute::Trigger(t) = route_event(event) else {
        panic!("an ability event is a trigger");
    };
    let mut state = DispatchState::new();
    assert!(queue(&mut state, &set, t, false).is_some());
    assert_eq!(watermark(&state), Some(("session".to_owned(), 3)));
}

#[test]
fn hook_ready_and_catalog_events_do_not_advance_actionable_state() {
    let state = DispatchState::new();
    let ready = BridgeEvent::HookReady(HookReady {
        schema: 1,
        session_id: "session".to_owned(),
        client_time_ms: 1,
        poll_interval_ms: 100,
    });
    assert_eq!(route_event(ready), EventRoute::SessionStarted);
    let catalog = AbilityCatalog {
        schema: 1,
        session_id: "session".to_owned(),
        client_time_ms: 2,
        abilities: vec![AbilityCatalogEntry { ability_slot: 2, ability_name: Some("Replacement".to_owned()) }],
    };
    let EventRoute::Catalog(c) = route_event(BridgeEvent::AbilityCatalog(catalog)) else {
        panic!("a catalog event carries the catalog");
    };
    let map = catalog_from_entries(c);
    assert!(state.last_sequence.is_none());
    assert_eq!(map.get(&2), Some(&Some("Replacement".to_owned())));
    assert_eq!(map.get(&1), None);
}

#[test]
fn copy_transfers_only_active_action_settings() {
    let mut set = settings();
    set.death.enabled = false;
    set.death.actions = 15;
    set.ability_use.trigger.enabled = true;
    set.ability_use.ability_filter = AbilityFilter::Selected(BTreeSet::from([2]));
    assert!(set.copy_action_settings(TriggerKind::Death, TriggerKind::AbilityUse));
    assert_eq!(set.ability_use.trigger.actions, set.death.actions);
    assert!(set.ability_use.trigger.enabled);
    assert_eq!(set.ability_use.ability_filter, AbilityFilter::Selected(BTreeSet::from([2])));
}

#[test]
fn action_queue_preserves_capacity_and_expiry() {
    let (sender, receiver) = std::sync::mpsc::sync_channel(ACTION_QUEUE_CAPACITY);
    for value in 0..ACTION_QUEUE_CAPACITY {
        assert!(sender.try_send(value).is_ok());
    }
    assert!(matches!(sender.try_send(ACTION_QUEUE_CAPACITY), Err(std::sync::mpsc::TrySendError::Full(_))));
    drop(receiver);
    assert!(matches!(sender.try_send(0), Err(std::sync::mpsc::TrySendError::Disconnected(_))));
    let queued_at = NOW;
    assert!(action_job_expired_at(queued_at, queued_at + MAX_ACTION_QUEUE_AGE_MS));
}

#[test]
fn invalid_fixed_action_settings_are_skipped_without_fabricating_an_action() {
    let set = settings();
    let mut state = DispatchState::new();
    let t = trigger(TriggerKind::Death, "session", 1);
    assert_eq!(state.screen_trigger(&set, &t), Admission::Admitted);
    let placement = state.place(&set, &t, Some(Err(ActionValidationError::InvalidStrength)), NOW, true);
    assert_eq!(placement, Placement::InvalidSettings(ActionValidationError::InvalidStrength));
    let reason = placement_skip_reason(&placement).unwrap();
    assert!(reason.contains("invalid action settings"));
}

// Further cases of the same rules.

#[test]
fn a_connected_death_effect_is_sent_and_held_until_the_respawn() {
    let set = settings();
    let mut state = DispatchState::new();
    let t = trigger(TriggerKind::Death, "s", 1);
    assert_eq!(state.screen_trigger(&set, &t), Admission::Admitted);
    let placement = state.place(&set, &t, Some(Ok(resolved(12, 2000))), NOW, true);
    let rank = set.priority_rank(TriggerKind::Death);
    assert_eq!(
        placement,
        Placement::Send { resolved: resolved(12, 60_000), priority_rank: rank, hold_until_respawn: true }
    );
    state.on_enqueued(rank, resolved(12, 60_000), true, NOW);
    assert_eq!(state.active_action, Some(ActiveAction { priority_rank: rank, ends_at_ms: NOW + 60_000 }));
    assert!(state.awaiting_respawn);
    assert!(state.handle_respawn(true));
    assert!(!state.awaiting_respawn);
    assert!(state.active_action.is_none());
}

#[test]
fn the_resting_level_is_sent_between_effects_and_capped_at_twenty() {
    let mut state = DispatchState::new();
    assert_eq!(state.maintain_resting(25, true, NOW), Some(20));
    state.on_resting_dispatched(true, NOW);
    assert_eq!(state.maintain_resting(25, true, NOW + 10), None, "a send is in flight");
    state.on_resting_result(20, true);
    assert_eq!(state.resting_applied, Some(20));
    assert_eq!(state.maintain_resting(25, true, NOW + 10), None, "matched; only the heartbeat resends");
    assert_eq!(state.maintain_resting(25, true, NOW + RESTING_REASSERT_INTERVAL_MS), Some(20));
    state.active_action = Some(ActiveAction { priority_rank: 0, ends_at_ms: NOW + RESTING_REASSERT_INTERVAL_MS + 5 });
    assert_eq!(state.maintain_resting(25, true, NOW + RESTING_REASSERT_INTERVAL_MS), None, "an effect is playing");
}

#[test]
fn a_pulse_passes_the_novelty_gate_without_moving_the_watermark() {
    let set = settings();
    let mut state = DispatchState::new();
    state.last_sequence = Some(("s".to_owned(), 9));
    let mut pulse = trigger(TriggerKind::DamageTaken, "s", 3);
    pulse.pulse = Some(resolved(7, 450));
    assert!(state.trigger_is_new(&pulse));
    assert_eq!(watermark(&state), Some(("s".to_owned(), 9)));
    let stale = trigger(TriggerKind::Death, "s", 9);
    assert_eq!(state.screen_trigger(&set, &stale), Admission::Duplicate);
    let other_session = trigger(TriggerKind::Death, "t", 1);
    assert_eq!(state.screen_trigger(&set, &other_session), Admission::Admitted);
    assert_eq!(watermark(&state), Some(("t".to_owned(), 1)));
}

#[test]
fn count_events_become_triggers_of_their_kind() {
    let kill = CountTrigger {
        schema: 1,
        session_id: "abc".to_owned(),
        client_time_ms: 5,
        sequence: 8,
        detection: "kills".to_owned(),
        count_before: Some(2),
        count_after: Some(3),
    };
    let EventRoute::Trigger(t) = route_event(BridgeEvent::LocalPlayerKill(kill)) else {
        panic!("a kill is a trigger");
    };
    assert_eq!(t.kind, TriggerKind::Kill);
    assert_eq!(t.sequence, 8);
    assert_eq!(t.charges_before, Some(2));
    assert_eq!(t.charges_after, Some(3));
    assert_eq!(
        route_event(BridgeEvent::DamageTakenIntensity(CountTrigger {
            schema: 1,
            session_id: "abc".to_owned(),
            client_time_ms: 5,
            sequence: 9,
            detection: "x".to_owned(),
            count_before: None,
            count_after: None,
        })),
        EventRoute::Ignored
    );
}

#[test]
fn expired_completion_is_skipped_and_decrements_in_flight() {
    // The worker reports a job that waited past the queue age as skipped
    // with the reason "expired" instead of playing it.
    let queued_at = NOW;
    assert!(!action_job_expired_at(queued_at, queued_at));
    assert!(!action_job_expired_at(queued_at, queued_at + MAX_ACTION_QUEUE_AGE_MS - 1));
    assert!(action_job_expired_at(queued_at, queued_at + MAX_ACTION_QUEUE_AGE_MS));
    assert!(!action_job_expired_at(queued_at, queued_at - 1));
}

#[test]
fn no_connection_reports_skip_with_or_without_a_selected_toy() {
    // Which toy is selected is not part of placement: both shapes skip the
    // same way while no provider is connected.
    let set = settings();
    let mut state = DispatchState::new();
    assert_eq!(
        queue(&mut state, &set, trigger(TriggerKind::Death, "session", 1), false),
        Some("provider is not connected".to_owned())
    );
    let mut connected_shape = DispatchState::new();
    assert_eq!(
        queue(&mut connected_shape, &set, trigger(TriggerKind::Death, "session", 1), false),
        Some("provider is not connected".to_owned())
    );
    assert!(state.active_action.is_none());
}

#[test]
fn effects_are_summarised_in_strength_and_seconds() {
    assert_eq!(resolved(15, 3000).summary(), "15/20 for 3 s");
    assert_eq!(resolved(0, 250).summary(), "0/20 for 0.25 s");
    assert_eq!(resolved(20, 1500).summary(), "20/20 for 1.50 s");
    assert_eq!(resolved(7, 60000).summary(), "7/20 for 60 s");
    assert_eq!(resolved(3, 1996).summary(), "3/20 for 2.00 s");
}
