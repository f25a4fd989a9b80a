//! The decisions between a gameplay event and a command to the toy: which
//! triggers are new, enabled and allowed through, which effect keeps the toy
//! when two would overlap, the hold of a death effect until the respawn, and
//! the resting level kept between effects. Sending, timing and randomness
//! happen outside; their results come back as arguments.
use vstd::prelude::*;

use crate::bridge::{
    AbilityCatalog, AbilityCatalogEntry, AbilityTrigger, BridgeEvent, CountTrigger, LocalPlayerDeath,
    LocalPlayerRespawn, VitalsTrigger,
};
use crate::settings::TriggerSettingsSet;
use crate::text::{decimal, digit_char, push_decimal, push_str};
use crate::triggers::{spec_rank, spec_suppressed_while_dead, AbilityFilter, TriggerKind};

verus! {

broadcast use {vstd::std_specs::btree::group_btree_axioms, vstd::laws_cmp::group_laws_cmp};

/// How long a "hold until respawn" death effect runs at most.
pub const RESPAWN_HOLD_SAFETY_CAP_SECS: u32 = 60;
/// Queued actions older than this are dropped instead of played.
pub const MAX_ACTION_QUEUE_AGE_MS: u64 = 30000;
/// The action queue's capacity.
pub const ACTION_QUEUE_CAPACITY: usize = 10;
/// How often an unchanged resting level is sent again.
pub const RESTING_REASSERT_INTERVAL_MS: u64 = 120000;
/// The wait before an unconfirmed resting level is sent again.
pub const RESTING_RETRY_BACKOFF_MS: u64 = 2000;
/// The least gap between two intensity pulses of one trigger.
pub const INTENSITY_PULSE_GAP_MS: u64 = 450;

/// An effect with its random parts drawn: a strength from 0 to 20 and a
/// duration, in milliseconds.
#[derive(Clone, Copy, Debug, PartialEq, Eq, Structural)]
pub struct ResolvedAction {
    pub strength: u8,
    pub duration_ms: u64,
}

#[derive(Clone, Copy, Debug, PartialEq, Eq, Structural)]
pub enum ActionValidationError {
    InvalidDuration,
    InvalidInterval,
    InvalidStrength,
}

/// A duration in milliseconds as seconds: whole seconds without decimals,
/// anything else with two decimals, the hundredths rounded half up.
pub open spec fn seconds_text(ms: nat) -> Seq<char> {
    if ms % 1000 == 0 {
        decimal(ms / 1000)
    } else {
        let h = (ms + 5) / 10;
        decimal(h / 100) + seq!['.', digit_char((h % 100) / 10), digit_char(h % 10)]
    }
}

/// An effect as the status line shows it, such as `15/20 for 3 s`.
pub open spec fn action_summary_text(a: ResolvedAction) -> Seq<char> {
    decimal(a.strength as nat) + "/20 for "@ + seconds_text(a.duration_ms as nat) + " s"@
}

impl ResolvedAction {
    /// The effect as the status line shows it (see [`action_summary_text`]).
    pub fn summary(&self) -> (r: String)
        ensures
            r@ == action_summary_text(*self),
    {
        let mut out = String::new();
        push_decimal(&mut out, self.strength as u64);
        push_str(&mut out, "/20 for ");
        let ms = self.duration_ms;
        let ghost before = out@;
        if ms % 1000 == 0 {
            push_decimal(&mut out, ms / 1000);
        } else {
            let h: u64 = ms / 10 + (ms % 10 + 5) / 10;
            assert(h == (ms + 5) / 10);
            push_decimal(&mut out, h / 100);
            push_str(&mut out, ".");
            push_decimal(&mut out, (h % 100) / 10);
            push_decimal(&mut out, h % 10);
            proof {
                reveal_strlit(".");
                assert(decimal(((h % 100) / 10) as nat) == seq![digit_char(((h % 100) / 10) as nat)]);
                assert(decimal((h % 10) as nat) == seq![digit_char((h % 10) as nat)]);
            }
            assert(out@ =~= before + (decimal((h / 100) as nat) + seq!['.', digit_char(((h % 100) / 10) as nat), digit_char((h % 10) as nat)]));
        }
        push_str(&mut out, " s");
        out
    }
}

impl ActionValidationError {
    pub fn message(&self) -> (r: &'static str)
        ensures
            *self == ActionValidationError::InvalidDuration ==> r@
                == "duration is out of the supported range for this action"@,
            *self == ActionValidationError::InvalidInterval ==> r@ == "interval minimum must not exceed maximum"@,
            *self == ActionValidationError::InvalidStrength ==> r@
                == "vibration strength must be an integer from 0 to 20"@,
    {
        match self {
            ActionValidationError::InvalidDuration => "duration is out of the supported range for this action",
            ActionValidationError::InvalidInterval => "interval minimum must not exceed maximum",
            ActionValidationError::InvalidStrength => "vibration strength must be an integer from 0 to 20",
        }
    }
}

/// A trigger as it reaches the dispatcher.
#[derive(Clone, Debug, PartialEq, Eq)]
pub struct TriggerIdentity {
    pub kind: TriggerKind,
    pub session_id: String,
    pub sequence: u64,
    pub client_time_ms: u64,
    pub detection: String,
    pub ability_slot: Option<u32>,
    pub ability_name: Option<String>,
    pub charges_before: Option<u64>,
    pub charges_after: Option<u64>,
    /// Bit pattern of the windowed total of an amount trigger.
    pub amount_total_bits: Option<u32>,
    /// An intensity pulse carries its own action: it is played as is, and
    /// it takes no part in the sequence watermark.
    pub pulse: Option<ResolvedAction>,
}

impl TriggerIdentity {
    pub fn from_death(death: LocalPlayerDeath) -> (r: Self)
        ensures
            r.kind == TriggerKind::Death,
            r.session_id == death.session_id,
            r.sequence == death.sequence,
            r.client_time_ms == death.client_time_ms,
            r.detection == death.detection,
            r.ability_slot is None,
            r.ability_name is None,
            r.charges_before is None,
            r.charges_after is None,
            r.amount_total_bits is None,
            r.pulse is None,
    {
        TriggerIdentity {
            kind: TriggerKind::Death,
            session_id: death.session_id,
            sequence: death.sequence,
            client_time_ms: death.client_time_ms,
            detection: death.detection,
            ability_slot: None,
            ability_name: None,
            charges_before: None,
            charges_after: None,
            amount_total_bits: None,
            pulse: None,
        }
    }

    pub fn from_ability(kind: TriggerKind, ability: AbilityTrigger) -> (r: Self)
        ensures
            r.kind == kind,
            r.session_id == ability.session_id,
            r.sequence == ability.sequence,
            r.client_time_ms == ability.client_time_ms,
            r.detection == ability.detection,
            r.ability_slot == Some(ability.ability_slot),
            r.ability_name == ability.ability_name,
            r.charges_before == ability.charges_before,
            r.charges_after == ability.charges_after,
            r.amount_total_bits is None,
            r.pulse is None,
    {
        TriggerIdentity {
            kind,
            session_id: ability.session_id,
            sequence: ability.sequence,
            client_time_ms: ability.client_time_ms,
            detection: ability.detection,
            ability_slot: Some(ability.ability_slot),
            ability_name: ability.ability_name,
            charges_before: ability.charges_before,
            charges_after: ability.charges_after,
            amount_total_bits: None,
            pulse: None,
        }
    }

    pub fn from_count(kind: TriggerKind, count: CountTrigger) -> (r: Self)
        ensures
            r.kind == kind,
            r.session_id == count.session_id,
            r.sequence == count.sequence,
            r.client_time_ms == count.client_time_ms,
            r.detection == count.detection,
            r.ability_slot is None,
            r.ability_name is None,
            r.charges_before == count.count_before,
            r.charges_after == count.count_after,
            r.amount_total_bits is None,
            r.pulse is None,
    {
        TriggerIdentity {
            kind,
            session_id: count.session_id,
            sequence: count.sequence,
            client_time_ms: count.client_time_ms,
            detection: count.detection,
            ability_slot: None,
            ability_name: None,
            charges_before: count.count_before,
            charges_after: count.count_after,
            amount_total_bits: None,
            pulse: None,
        }
    }

    /// The pulse an amount trigger plays once its windowed total (bit
    /// pattern `total_bits`) reaches a level of its curve; `detection`
    /// describes the window.
    pub fn pulse_from_amount(
        kind: TriggerKind,
        vitals: &VitalsTrigger,
        total_bits: u32,
        detection: String,
        pulse: ResolvedAction,
    ) -> (r: Self)
        ensures
            r.kind == kind,
            r.session_id@ == vitals.session_id@,
            r.sequence == vitals.sequence,
            r.client_time_ms == vitals.client_time_ms,
            r.detection == detection,
            r.ability_slot is None,
            r.ability_name is None,
            r.charges_before is None,
            r.charges_after is None,
            r.amount_total_bits == Some(total_bits),
            r.pulse == Some(pulse),
    {
        TriggerIdentity {
            kind,
            session_id: vitals.session_id.clone(),
            sequence: vitals.sequence,
            client_time_ms: vitals.client_time_ms,
            detection,
            ability_slot: None,
            ability_name: None,
            charges_before: None,
            charges_after: None,
            amount_total_bits: Some(total_bits),
            pulse: Some(pulse),
        }
    }
}

/// The effect currently expected to be running on the toy.
#[derive(Clone, Copy, Debug, PartialEq, Eq, Structural)]
pub struct ActiveAction {
    pub priority_rank: usize,
    pub ends_at_ms: u64,
}

/// What the dispatcher remembers between triggers. Times are milliseconds
/// on one monotonic clock.
#[derive(Clone, Debug)]
pub struct DispatchState {
    /// The newest actionable (session, sequence) seen.
    pub last_sequence: Option<(String, u64)>,
    pub active_action: Option<ActiveAction>,
    /// A death effect holds the toy until the respawn.
    pub awaiting_respawn: bool,
    /// The resting level last confirmed on the toy.
    pub resting_applied: Option<u8>,
    pub resting_last_sent_ms: Option<u64>,
    pub resting_in_flight: bool,
}

/// The watermark with its session taken by value.
pub open spec fn watermark(s: DispatchState) -> Option<(Seq<char>, u64)> {
    match s.last_sequence {
        Some((id, seq)) => Some((id@, seq)),
        None => None,
    }
}

/// A trigger is stale when it is not a pulse and its session's watermark is
/// at or past its sequence.
pub open spec fn is_stale(s: DispatchState, t: TriggerIdentity) -> bool {
    t.pulse is None && (watermark(s) matches Some((id, seq)) && id == t.session_id@ && t.sequence <= seq)
}

/// The state with the watermark moved to the trigger (pulses leave it).
pub open spec fn after_watermark(s: DispatchState, t: TriggerIdentity) -> Option<(Seq<char>, u64)> {
    if t.pulse is Some {
        watermark(s)
    } else {
        Some((t.session_id@, t.sequence))
    }
}

/// Whether the filter lets the trigger through.
pub open spec fn filter_accepts(f: Option<AbilityFilter>, slot: Option<u32>) -> bool {
    match (f, slot) {
        (Some(AbilityFilter::All), Some(_)) => true,
        (Some(AbilityFilter::Selected(slots)), Some(s)) => slots@.contains(s),
        _ => true,
    }
}

/// Why a trigger was or was not let through.
#[derive(Clone, Copy, Debug, PartialEq, Eq, Structural)]
pub enum Admission {
    /// Already seen, or older than what was seen.
    Duplicate,
    Disabled,
    /// An ability trigger for a slot its filter leaves out.
    Filtered,
    /// Ignored while a death effect waits for the respawn.
    SuppressedWhileDead,
    Admitted,
}

/// The admission a trigger gets.
pub open spec fn admission_of<A, C>(s: DispatchState, set: TriggerSettingsSet<A, C>, t: TriggerIdentity) -> Admission {
    if is_stale(s, t) {
        Admission::Duplicate
    } else if !set.settings(t.kind).enabled {
        Admission::Disabled
    } else if !filter_accepts(set.spec_ability_filter(t.kind), t.ability_slot) {
        Admission::Filtered
    } else if s.awaiting_respawn && set.suppress_triggers_while_dead && spec_suppressed_while_dead(t.kind) {
        Admission::SuppressedWhileDead
    } else {
        Admission::Admitted
    }
}

/// Where an admitted trigger's effect ends up.
#[derive(Clone, Copy, Debug, PartialEq, Eq, Structural)]
pub enum Placement {
    /// The trigger's settings do not describe a playable effect.
    InvalidSettings(ActionValidationError),
    /// A higher-priority effect is still playing.
    LowerPriority(ResolvedAction),
    /// No toy connection to send it over.
    NotConnected(ResolvedAction),
    /// To be sent; `hold_until_respawn` marks a death effect held until the
    /// respawn.
    Send { resolved: ResolvedAction, priority_rank: usize, hold_until_respawn: bool },
}

/// A death effect held until the respawn runs for the safety cap instead of
/// its own duration.
pub open spec fn held_action(kind: TriggerKind, hold: bool, a: ResolvedAction) -> ResolvedAction {
    if kind == TriggerKind::Death && hold {
        ResolvedAction { strength: a.strength, duration_ms: (RESPAWN_HOLD_SAFETY_CAP_SECS * 1000) as u64 }
    } else {
        a
    }
}

/// A running effect keeps the toy from a trigger of lower priority.
pub open spec fn blocked_by(active: Option<ActiveAction>, rank: usize, now_ms: u64) -> bool {
    active matches Some(a) && a.ends_at_ms > now_ms && rank > a.priority_rank
}

/// The placement of an admitted trigger, given the effect its settings
/// resolved to (`resolution`, unused for a pulse).
pub open spec fn placement_of<A, C>(
    s: DispatchState,
    set: TriggerSettingsSet<A, C>,
    t: TriggerIdentity,
    resolution: Option<Result<ResolvedAction, ActionValidationError>>,
    now_ms: u64,
    connected: bool,
) -> Placement {
    let chosen = match t.pulse {
        Some(p) => Ok(p),
        None => resolution.unwrap(),
    };
    match chosen {
        Err(e) => Placement::InvalidSettings(e),
        Ok(a) => {
            let hold = t.kind == TriggerKind::Death && set.death_hold_until_respawn;
            let resolved = held_action(t.kind, hold, a);
            let rank = spec_rank(set.priority_order@, t.kind);
            if blocked_by(s.active_action, rank, now_ms) {
                Placement::LowerPriority(resolved)
            } else if !connected {
                Placement::NotConnected(resolved)
            } else {
                Placement::Send { resolved, priority_rank: rank, hold_until_respawn: hold }
            }
        },
    }
}

/// Why a trigger that was screened out is reported as skipped: only one
/// ignored while a death effect waits for the respawn is; a duplicate, a
/// disabled trigger and a filtered ability pass silently.
pub fn admission_skip_reason(a: Admission) -> (r: Option<&'static str>)
    ensures
        a == Admission::SuppressedWhileDead ==> (r matches Some(t) && t@ == "ignored while you're dead"@),
        a != Admission::SuppressedWhileDead ==> r is None,
{
    match a {
        Admission::SuppressedWhileDead => Some("ignored while you're dead"),
        _ => None,
    }
}

pub open spec fn placement_reason(p: Placement) -> Option<Seq<char>> {
    match p {
        Placement::InvalidSettings(e) => Some("invalid action settings: "@ + validation_text(e)),
        Placement::LowerPriority(_) => Some("a higher-priority effect is still playing"@),
        Placement::NotConnected(_) => Some("provider is not connected"@),
        Placement::Send { .. } => None,
    }
}

pub open spec fn validation_text(e: ActionValidationError) -> Seq<char> {
    match e {
        ActionValidationError::InvalidDuration => "duration is out of the supported range for this action"@,
        ActionValidationError::InvalidInterval => "interval minimum must not exceed maximum"@,
        ActionValidationError::InvalidStrength => "vibration strength must be an integer from 0 to 20"@,
    }
}

/// Why an effect that is not sent is reported as skipped.
pub fn placement_skip_reason(p: &Placement) -> (r: Option<String>)
    ensures
        match r {
            Some(t) => placement_reason(*p) == Some(t@),
            None => placement_reason(*p) is None,
        },
{
    let mut out = String::new();
    match p {
        Placement::InvalidSettings(e) => {
            push_str(&mut out, "invalid action settings: ");
            push_str(&mut out, e.message());
        },
        Placement::LowerPriority(_) => push_str(&mut out, "a higher-priority effect is still playing"),
        Placement::NotConnected(_) => push_str(&mut out, "provider is not connected"),
        Placement::Send { .. } => return None,
    }
    Some(out)
}

/// Applies the "hold until respawn" override to a resolved death effect.
pub fn resolved_for_trigger(kind: TriggerKind, hold_until_respawn: bool, resolved: ResolvedAction) -> (r:
    ResolvedAction)
    ensures
        r == held_action(kind, hold_until_respawn, resolved),
{
    if kind == TriggerKind::Death && hold_until_respawn {
        ResolvedAction { strength: resolved.strength, duration_ms: RESPAWN_HOLD_SAFETY_CAP_SECS as u64 * 1000 }
    } else {
        resolved
    }
}

/// A queued action that waited this long is dropped instead of played.
pub fn action_job_expired_at(queued_at_ms: u64, now_ms: u64) -> (r: bool)
    ensures
        r == (now_ms >= queued_at_ms && now_ms - queued_at_ms >= MAX_ACTION_QUEUE_AGE_MS),
{
    now_ms.saturating_sub(queued_at_ms) >= MAX_ACTION_QUEUE_AGE_MS
}

/// Whether the resting baseline should drive the toy at all: with the
/// baseline off (`desired == 0`) and the toy idle or never touched it stays
/// hands-off, so a partner's phone-driven vibration is not stopped.
pub fn resting_should_act(desired: u8, applied: Option<u8>) -> (r: bool)
    ensures
        r == (desired != 0 || !(applied is None || applied == Some(0u8))),
{
    desired != 0 || !matches!(applied, None | Some(0))
}

/// Whether the toy already sits where the baseline wants it.
pub fn resting_at_rest(desired: u8, applied: Option<u8>) -> (r: bool)
    ensures
        r == (applied == Some(desired) || !(desired != 0 || !(applied is None || applied == Some(0u8)))),
{
    applied == Some(desired) || !resting_should_act(desired, applied)
}

/// Whether the baseline is sent now, `since_sent_ms` after the last send:
/// after the retry backoff while it is not yet applied, otherwise only on
/// the slow heartbeat.
pub fn resting_send_due(applied: Option<u8>, desired: u8, since_sent_ms: u64) -> (r: bool)
    ensures
        applied == Some(desired) ==> r == (since_sent_ms >= RESTING_REASSERT_INTERVAL_MS),
        applied != Some(desired) ==> r == (since_sent_ms >= RESTING_RETRY_BACKOFF_MS),
{
    if applied == Some(desired) {
        since_sent_ms >= RESTING_REASSERT_INTERVAL_MS
    } else {
        since_sent_ms >= RESTING_RETRY_BACKOFF_MS
    }
}

/// Whether an intensity pulse may follow the previous one.
pub fn pulse_due(last_pulse_ms: Option<u64>, now_ms: u64) -> (r: bool)
    ensures
        r == (last_pulse_ms matches Some(last) ==> !(now_ms >= last && now_ms - last < INTENSITY_PULSE_GAP_MS)),
{
    match last_pulse_ms {
        Some(last) => !(now_ms >= last && now_ms - last < INTENSITY_PULSE_GAP_MS),
        None => true,
    }
}

/// No effect is running at `now_ms`.
pub open spec fn gate_open(active: Option<ActiveAction>, now_ms: u64) -> bool {
    active matches Some(a) ==> a.ends_at_ms <= now_ms
}

fn is_gate_open(active: Option<ActiveAction>, now_ms: u64) -> (r: bool)
    ensures
        r == gate_open(active, now_ms),
{
    match active {
        Some(a) => a.ends_at_ms <= now_ms,
        None => true,
    }
}

fn string_eq(a: &String, b: &String) -> (r: bool)
    ensures
        r == (a@ == b@),
{
    a.eq(b)
}

impl DispatchState {
    pub fn new() -> (r: Self)
        ensures
            r.last_sequence is None,
            r.active_action is None,
            !r.awaiting_respawn,
            r.resting_applied is None,
            r.resting_last_sent_ms is None,
            !r.resting_in_flight,
    {
        DispatchState {
            last_sequence: None,
            active_action: None,
            awaiting_respawn: false,
            resting_applied: None,
            resting_last_sent_ms: None,
            resting_in_flight: false,
        }
    }

    /// The novelty gate: a pulse always passes; any other trigger passes
    /// unless its session's watermark is at or past its sequence, and moves
    /// the watermark to itself when it passes.
    pub fn trigger_is_new(&mut self, trigger: &TriggerIdentity) -> (r: bool)
        ensures
            r == !is_stale(*old(self), *trigger),
            watermark(*final(self)) == if r {
                after_watermark(*old(self), *trigger)
            } else {
                watermark(*old(self))
            },
            final(self).active_action == old(self).active_action,
            final(self).awaiting_respawn == old(self).awaiting_respawn,
            final(self).resting_applied == old(self).resting_applied,
            final(self).resting_last_sent_ms == old(self).resting_last_sent_ms,
            final(self).resting_in_flight == old(self).resting_in_flight,
    {
        if trigger.pulse.is_some() {
            return true;
        }
        if let Some((session_id, sequence)) = &self.last_sequence {
            if string_eq(session_id, &trigger.session_id) && trigger.sequence <= *sequence {
                return false;
            }
        }
        self.last_sequence = Some((trigger.session_id.clone(), trigger.sequence));
        true
    }

    /// Decides whether a trigger goes on to play its effect. The novelty
    /// gate runs first and moves the watermark even for a trigger that is
    /// then found disabled or filtered out.
    pub fn screen_trigger<A, C>(&mut self, settings: &TriggerSettingsSet<A, C>, trigger: &TriggerIdentity) -> (r: Admission)
        ensures
            r == admission_of(*old(self), *settings, *trigger),
            watermark(*final(self)) == if r == Admission::Duplicate {
                watermark(*old(self))
            } else {
                after_watermark(*old(self), *trigger)
            },
            final(self).active_action == old(self).active_action,
            final(self).awaiting_respawn == old(self).awaiting_respawn,
            final(self).resting_applied == old(self).resting_applied,
            final(self).resting_last_sent_ms == old(self).resting_last_sent_ms,
            final(self).resting_in_flight == old(self).resting_in_flight,
    {
        if !self.trigger_is_new(trigger) {
            return Admission::Duplicate;
        }
        if !settings.get(trigger.kind).enabled {
            return Admission::Disabled;
        }
        if let (Some(filter), Some(slot)) = (settings.ability_filter(trigger.kind), trigger.ability_slot) {
            if !filter.accepts(slot) {
                return Admission::Filtered;
            }
        }
        if self.awaiting_respawn && settings.suppress_triggers_while_dead
            && trigger.kind.suppressed_while_dead() {
            return Admission::SuppressedWhileDead;
        }
        Admission::Admitted
    }

    /// Decides where an admitted trigger's effect goes. `resolution` is the
    /// effect the trigger's settings resolved to; a pulse plays its own.
    pub fn place<A, C>(
        &self,
        settings: &TriggerSettingsSet<A, C>,
        trigger: &TriggerIdentity,
        resolution: Option<Result<ResolvedAction, ActionValidationError>>,
        now_ms: u64,
        connected: bool,
    ) -> (r: Placement)
        requires
            trigger.pulse is None ==> resolution is Some,
        ensures
            r == placement_of(*self, *settings, *trigger, resolution, now_ms, connected),
    {
        let chosen = match trigger.pulse {
            Some(p) => Ok(p),
            None => resolution.unwrap(),
        };
        match chosen {
            Err(e) => Placement::InvalidSettings(e),
            Ok(a) => {
                let hold = trigger.kind == TriggerKind::Death && settings.death_hold_until_respawn;
                let resolved = resolved_for_trigger(trigger.kind, hold, a);
                let rank = settings.priority_rank(trigger.kind);
                let blocked = match self.active_action {
                    Some(active) => active.ends_at_ms > now_ms && rank > active.priority_rank,
                    None => false,
                };
                if blocked {
                    Placement::LowerPriority(resolved)
                } else if !connected {
                    Placement::NotConnected(resolved)
                } else {
                    Placement::Send { resolved, priority_rank: rank, hold_until_respawn: hold }
                }
            },
        }
    }

    /// Records an effect the action queue accepted at `now_ms`: it is now
    /// the running effect, a held death effect waits for the respawn, and
    /// the resting level is due again once it ends.
    pub fn on_enqueued(&mut self, priority_rank: usize, resolved: ResolvedAction, hold_until_respawn: bool, now_ms: u64)
        ensures
            final(self).active_action == Some(ActiveAction {
                priority_rank,
                ends_at_ms: if now_ms + resolved.duration_ms > u64::MAX {
                    u64::MAX
                } else {
                    (now_ms + resolved.duration_ms) as u64
                },
            }),
            final(self).awaiting_respawn == (old(self).awaiting_respawn || hold_until_respawn),
            final(self).resting_applied is None,
            final(self).resting_last_sent_ms is None,
            final(self).resting_in_flight == old(self).resting_in_flight,
            watermark(*final(self)) == watermark(*old(self)),
    {
        self.active_action = Some(
            ActiveAction { priority_rank, ends_at_ms: now_ms.saturating_add(resolved.duration_ms) },
        );
        if hold_until_respawn {
            self.awaiting_respawn = true;
        }
        self.resting_applied = None;
        self.resting_last_sent_ms = None;
    }

    /// Keeps the toy at the resting level whenever no effect plays. Returns
    /// the level to send now, if any; the caller reports the send with
    /// [`on_resting_dispatched`](Self::on_resting_dispatched).
    pub fn maintain_resting(&mut self, resting_strength: u8, connected: bool, now_ms: u64) -> (r: Option<u8>)
        ensures
            // a lapsed death hold stops suppressing triggers
            final(self).awaiting_respawn == (old(self).awaiting_respawn && !gate_open(
                old(self).active_action,
                now_ms,
            )),
            !connected ==> r is None && final(self).resting_applied is None
                && final(self).resting_last_sent_ms is None,
            connected ==> final(self).resting_applied == old(self).resting_applied
                && final(self).resting_last_sent_ms == old(self).resting_last_sent_ms,
            final(self).active_action == old(self).active_action,
            final(self).resting_in_flight == old(self).resting_in_flight,
            watermark(*final(self)) == watermark(*old(self)),
            r is Some <==> ({
                let desired = if resting_strength > 20 { 20u8 } else { resting_strength };
                let since = match old(self).resting_last_sent_ms {
                    Some(t) => if now_ms >= t { (now_ms - t) as u64 } else { 0u64 },
                    None => u64::MAX,
                };
                &&& connected
                &&& !old(self).resting_in_flight
                &&& gate_open(old(self).active_action, now_ms)
                &&& (desired != 0 || !(old(self).resting_applied is None || old(self).resting_applied
                    == Some(0u8)))
                &&& if old(self).resting_applied == Some(desired) {
                    since >= RESTING_REASSERT_INTERVAL_MS
                } else {
                    since >= RESTING_RETRY_BACKOFF_MS
                }
            }),
            r matches Some(level) ==> level == if resting_strength > 20 { 20u8 } else { resting_strength },
    {
        if self.awaiting_respawn && is_gate_open(self.active_action, now_ms) {
            self.awaiting_respawn = false;
        }
        if !connected {
            self.resting_applied = None;
            self.resting_last_sent_ms = None;
            return None;
        }
        if self.resting_in_flight {
            return None;
        }
        if !is_gate_open(self.active_action, now_ms) {
            return None;
        }
        let desired = if resting_strength > 20 {
            20
        } else {
            resting_strength
        };
        if !resting_should_act(desired, self.resting_applied) {
            return None;
        }
        let since_sent = match self.resting_last_sent_ms {
            Some(sent) => now_ms.saturating_sub(sent),
            None => u64::MAX,
        };
        if !resting_send_due(self.resting_applied, desired, since_sent) {
            return None;
        }
        Some(desired)
    }

    /// Records the outcome of handing a resting level to its worker: the
    /// send time moves either way, and an accepted job is in flight.
    pub fn on_resting_dispatched(&mut self, accepted: bool, now_ms: u64)
        ensures
            final(self).resting_last_sent_ms == Some(now_ms),
            final(self).resting_in_flight == (old(self).resting_in_flight || accepted),
            final(self).resting_applied == old(self).resting_applied,
            final(self).active_action == old(self).active_action,
            final(self).awaiting_respawn == old(self).awaiting_respawn,
            watermark(*final(self)) == watermark(*old(self)),
    {
        if accepted {
            self.resting_in_flight = true;
        }
        self.resting_last_sent_ms = Some(now_ms);
    }

    /// Records a resting worker's answer for `strength`.
    pub fn on_resting_result(&mut self, strength: u8, succeeded: bool)
        ensures
            !final(self).resting_in_flight,
            final(self).resting_applied == if succeeded {
                Some(strength)
            } else {
                old(self).resting_applied
            },
            final(self).resting_last_sent_ms == old(self).resting_last_sent_ms,
            final(self).active_action == old(self).active_action,
            final(self).awaiting_respawn == old(self).awaiting_respawn,
            watermark(*final(self)) == watermark(*old(self)),
    {
        self.resting_in_flight = false;
        if succeeded {
            self.resting_applied = Some(strength);
        }
    }

    /// Forgets everything the app thought was playing. Returns whether a
    /// stop should be sent: only over a live connection.
    pub fn force_stop(&mut self, connected: bool) -> (r: bool)
        ensures
            r == connected,
            final(self).active_action is None,
            !final(self).awaiting_respawn,
            final(self).resting_applied == old(self).resting_applied,
            final(self).resting_last_sent_ms == old(self).resting_last_sent_ms,
            final(self).resting_in_flight == old(self).resting_in_flight,
            watermark(*final(self)) == watermark(*old(self)),
    {
        self.active_action = None;
        self.awaiting_respawn = false;
        connected
    }

    /// Records the outcome of handing a forced stop to the resting worker.
    pub fn on_stop_dispatched(&mut self, accepted: bool, now_ms: u64)
        ensures
            accepted ==> final(self).resting_in_flight && final(self).resting_last_sent_ms == Some(now_ms),
            !accepted ==> final(self).resting_in_flight == old(self).resting_in_flight
                && final(self).resting_last_sent_ms == old(self).resting_last_sent_ms,
            final(self).resting_applied == old(self).resting_applied,
            final(self).active_action == old(self).active_action,
            final(self).awaiting_respawn == old(self).awaiting_respawn,
            watermark(*final(self)) == watermark(*old(self)),
    {
        if accepted {
            self.resting_in_flight = true;
            self.resting_last_sent_ms = Some(now_ms);
        }
    }

    /// The respawn ends a death effect held until it: everything is
    /// forgotten and a stop is due (over a live connection). Without such a
    /// hold, a respawn changes nothing and sends nothing.
    pub fn handle_respawn(&mut self, connected: bool) -> (r: bool)
        ensures
            !old(self).awaiting_respawn ==> !r && final(self).active_action == old(self).active_action
                && final(self).awaiting_respawn == old(self).awaiting_respawn,
            old(self).awaiting_respawn ==> r == connected && final(self).active_action is None
                && !final(self).awaiting_respawn,
            final(self).resting_applied == old(self).resting_applied,
            final(self).resting_last_sent_ms == old(self).resting_last_sent_ms,
            final(self).resting_in_flight == old(self).resting_in_flight,
            watermark(*final(self)) == watermark(*old(self)),
    {
        if !self.awaiting_respawn {
            return false;
        }
        self.force_stop(connected)
    }

    /// A profile switch: effect tracking and the resting level start over;
    /// the watermark is kept.
    pub fn on_profile_loaded(&mut self)
        ensures
            final(self).active_action is None,
            !final(self).awaiting_respawn,
            final(self).resting_applied is None,
            final(self).resting_last_sent_ms is None,
            final(self).resting_in_flight == old(self).resting_in_flight,
            watermark(*final(self)) == watermark(*old(self)),
    {
        self.active_action = None;
        self.awaiting_respawn = false;
        self.resting_applied = None;
        self.resting_last_sent_ms = None;
    }
}

/// A lower-priority trigger never displaces an effect that is still
/// playing: whenever a trigger is sent, no running effect outranks it.
pub proof fn lemma_send_respects_priority<A, C>(
    s: DispatchState,
    set: TriggerSettingsSet<A, C>,
    t: TriggerIdentity,
    resolution: Option<Result<ResolvedAction, ActionValidationError>>,
    now_ms: u64,
    connected: bool,
)
    ensures
        placement_of(s, set, t, resolution, now_ms, connected) matches Placement::Send {
            priority_rank,
            ..
        } ==> !blocked_by(s.active_action, priority_rank, now_ms),
{
}

/// A trigger that was already seen is dropped without touching anything.
pub proof fn lemma_stale_trigger_is_duplicate<A, C>(s: DispatchState, set: TriggerSettingsSet<A, C>, t: TriggerIdentity)
    requires
        is_stale(s, t),
    ensures
        admission_of(s, set, t) == Admission::Duplicate,
{
}

/// The watermark never goes back within a session: after any admission the
/// watermark of the same session is at least what it was.
pub proof fn lemma_watermark_monotonic(s: DispatchState, t: TriggerIdentity)
    ensures
        watermark(s) matches Some((id, seq)) ==> (after_watermark(s, t) matches Some((id2, seq2)) && (id2 == id
            && !is_stale(s, t) ==> seq2 >= seq)),
{
}

/// While a death effect waits for the respawn with suppression on, a
/// trigger that a spectated teammate can set off (ability use, cooldown
/// ready, assist, ally healed or shielded, soul deny or secure, parry,
/// the mod's damage-intensity signal) is never admitted; any other kind is
/// never held back for that reason.
pub proof fn lemma_spectator_kinds_wait_for_respawn<A, C>(
    s: DispatchState,
    set: TriggerSettingsSet<A, C>,
    t: TriggerIdentity,
)
    ensures
        s.awaiting_respawn && set.suppress_triggers_while_dead && (t.kind == TriggerKind::AbilityUse || t.kind
            == TriggerKind::AbilityCooldownReady || t.kind == TriggerKind::Assist || t.kind == TriggerKind::AllyHealed
            || t.kind == TriggerKind::AllyShielded || t.kind == TriggerKind::SoulDeny || t.kind
            == TriggerKind::SoulSecure || t.kind == TriggerKind::ParrySuccess || t.kind == TriggerKind::ParryFail
            || t.kind == TriggerKind::DamageTakenIntensity) ==> admission_of(s, set, t) != Admission::Admitted,
        (t.kind == TriggerKind::Death || t.kind == TriggerKind::Kill || t.kind == TriggerKind::DamageTaken || t.kind
            == TriggerKind::HealingReceived || t.kind == TriggerKind::DamageGiven || t.kind
            == TriggerKind::ObjectiveGuardian || t.kind == TriggerKind::ObjectiveWalker || t.kind
            == TriggerKind::ObjectiveBaseGuardian || t.kind == TriggerKind::ObjectiveShrine || t.kind
            == TriggerKind::ObjectivePatronWeakened || t.kind == TriggerKind::GameWon) ==> admission_of(s, set, t)
            != Admission::SuppressedWhileDead,
        !s.awaiting_respawn || !set.suppress_triggers_while_dead ==> admission_of(s, set, t)
            != Admission::SuppressedWhileDead,
{
}

/// Only a strictly higher-priority effect that is still playing holds a
/// trigger back: an effect of equal rank (such as a second kill while the
/// first kill's effect plays) replaces it, and one that has ended blocks
/// nothing. A playable effect that such an effect outranks is held back.
pub proof fn lemma_only_higher_priority_holds_back<A, C>(
    s: DispatchState,
    set: TriggerSettingsSet<A, C>,
    t: TriggerIdentity,
    resolution: Option<Result<ResolvedAction, ActionValidationError>>,
    now_ms: u64,
    connected: bool,
)
    requires
        t.pulse is None ==> resolution is Some,
    ensures
        placement_of(s, set, t, resolution, now_ms, connected) is LowerPriority ==> (s.active_action matches Some(
            a,
        ) && a.ends_at_ms > now_ms && spec_rank(set.priority_order@, t.kind) > a.priority_rank),
        (s.active_action matches Some(a) && (a.ends_at_ms <= now_ms || spec_rank(set.priority_order@, t.kind)
            <= a.priority_rank)) ==> !(placement_of(s, set, t, resolution, now_ms, connected) is LowerPriority),
        s.active_action is None ==> !(placement_of(s, set, t, resolution, now_ms, connected) is LowerPriority),
        (s.active_action matches Some(a) && a.ends_at_ms > now_ms && spec_rank(set.priority_order@, t.kind)
            > a.priority_rank && (t.pulse is Some || resolution matches Some(Ok(_)))) ==> placement_of(
            s,
            set,
            t,
            resolution,
            now_ms,
            connected,
        ) is LowerPriority,
{
}

/// Each bridge event that stands for a trigger becomes a trigger of its own
/// kind, carrying the event's session and sequence: a death a Death
/// trigger, a kill a Kill trigger, an assist an Assist trigger, and so on
/// through the count and ability events; the amount events go to their
/// intensity curves.
pub proof fn lemma_events_route_to_their_own_kind(e: BridgeEvent)
    ensures
        e matches BridgeEvent::LocalPlayerDeath(d) ==> route_of(e) matches EventRoute::Trigger(t) && t.kind
            == TriggerKind::Death && t.session_id == d.session_id && t.sequence == d.sequence && t.pulse is None,
        e matches BridgeEvent::LocalPlayerKill(c) ==> route_of(e) matches EventRoute::Trigger(t) && t.kind
            == TriggerKind::Kill && t.session_id == c.session_id && t.sequence == c.sequence && t.pulse is None,
        e matches BridgeEvent::LocalPlayerAssist(c) ==> route_of(e) matches EventRoute::Trigger(t) && t.kind
            == TriggerKind::Assist && t.session_id == c.session_id && t.sequence == c.sequence && t.pulse is None,
        e matches BridgeEvent::AllyHealed(c) ==> route_of(e) matches EventRoute::Trigger(t) && t.kind
            == TriggerKind::AllyHealed && t.session_id == c.session_id && t.sequence == c.sequence,
        e matches BridgeEvent::AllyShielded(c) ==> route_of(e) matches EventRoute::Trigger(t) && t.kind
            == TriggerKind::AllyShielded && t.session_id == c.session_id && t.sequence == c.sequence,
        e matches BridgeEvent::SoulDeny(c) ==> route_of(e) matches EventRoute::Trigger(t) && t.kind
            == TriggerKind::SoulDeny && t.session_id == c.session_id && t.sequence == c.sequence,
        e matches BridgeEvent::SoulSecure(c) ==> route_of(e) matches EventRoute::Trigger(t) && t.kind
            == TriggerKind::SoulSecure && t.session_id == c.session_id && t.sequence == c.sequence,
        e matches BridgeEvent::ParrySuccess(c) ==> route_of(e) matches EventRoute::Trigger(t) && t.kind
            == TriggerKind::ParrySuccess && t.session_id == c.session_id && t.sequence == c.sequence,
        e matches BridgeEvent::ParryFail(c) ==> route_of(e) matches EventRoute::Trigger(t) && t.kind
            == TriggerKind::ParryFail && t.session_id == c.session_id && t.sequence == c.sequence,
        e matches BridgeEvent::ObjectiveGuardian(c) ==> route_of(e) matches EventRoute::Trigger(t) && t.kind
            == TriggerKind::ObjectiveGuardian && t.session_id == c.session_id && t.sequence == c.sequence,
        e matches BridgeEvent::ObjectiveWalker(c) ==> route_of(e) matches EventRoute::Trigger(t) && t.kind
            == TriggerKind::ObjectiveWalker && t.session_id == c.session_id && t.sequence == c.sequence,
        e matches BridgeEvent::ObjectiveBaseGuardian(c) ==> route_of(e) matches EventRoute::Trigger(t) && t.kind
            == TriggerKind::ObjectiveBaseGuardian && t.session_id == c.session_id && t.sequence == c.sequence,
        e matches BridgeEvent::ObjectiveShrine(c) ==> route_of(e) matches EventRoute::Trigger(t) && t.kind
            == TriggerKind::ObjectiveShrine && t.session_id == c.session_id && t.sequence == c.sequence,
        e matches BridgeEvent::ObjectivePatronWeakened(c) ==> route_of(e) matches EventRoute::Trigger(t) && t.kind
            == TriggerKind::ObjectivePatronWeakened && t.session_id == c.session_id && t.sequence == c.sequence,
        e matches BridgeEvent::GameWon(c) ==> route_of(e) matches EventRoute::Trigger(t) && t.kind
            == TriggerKind::GameWon && t.session_id == c.session_id && t.sequence == c.sequence,
        e matches BridgeEvent::AbilityUsed(a) ==> route_of(e) matches EventRoute::Trigger(t) && t.kind
            == TriggerKind::AbilityUse && t.session_id == a.session_id && t.sequence == a.sequence
            && t.ability_slot == Some(a.ability_slot),
        e matches BridgeEvent::AbilityCooldownReady(a) ==> route_of(e) matches EventRoute::Trigger(t) && t.kind
            == TriggerKind::AbilityCooldownReady && t.session_id == a.session_id && t.sequence == a.sequence
            && t.ability_slot == Some(a.ability_slot),
        e matches BridgeEvent::DamageTaken(v) ==> route_of(e) == EventRoute::Amount(TriggerKind::DamageTaken, v),
        e matches BridgeEvent::HealingReceived(v) ==> route_of(e) == EventRoute::Amount(
            TriggerKind::HealingReceived,
            v,
        ),
        e matches BridgeEvent::DamageGiven(v) ==> route_of(e) == EventRoute::Amount(TriggerKind::DamageGiven, v),
        e is HookReady ==> route_of(e) == EventRoute::SessionStarted,
        e matches BridgeEvent::LocalPlayerRespawn(r) ==> route_of(e) == EventRoute::Respawn(r),
        e is DamageTakenIntensity ==> route_of(e) == EventRoute::Ignored,
{
}

/// What the app does with a bridge event.
#[derive(Clone, Debug, PartialEq, Eq)]
pub enum EventRoute {
    /// The mod (re)started: the ability catalog and the intensity windows
    /// start over.
    SessionStarted,
    Catalog(AbilityCatalog),
    Respawn(LocalPlayerRespawn),
    Trigger(TriggerIdentity),
    /// An amount for an intensity-curve trigger.
    Amount(TriggerKind, VitalsTrigger),
    /// The mod's own damage-intensity signal, superseded by the damage curve.
    Ignored,
}

pub open spec fn route_of(e: BridgeEvent) -> EventRoute {
    match e {
        BridgeEvent::HookReady(_) => EventRoute::SessionStarted,
        BridgeEvent::AbilityCatalog(c) => EventRoute::Catalog(c),
        BridgeEvent::LocalPlayerDeath(d) => EventRoute::Trigger(death_identity(d)),
        BridgeEvent::LocalPlayerRespawn(r) => EventRoute::Respawn(r),
        BridgeEvent::LocalPlayerKill(c) => EventRoute::Trigger(count_identity(TriggerKind::Kill, c)),
        BridgeEvent::LocalPlayerAssist(c) => EventRoute::Trigger(count_identity(TriggerKind::Assist, c)),
        BridgeEvent::AllyHealed(c) => EventRoute::Trigger(count_identity(TriggerKind::AllyHealed, c)),
        BridgeEvent::AllyShielded(c) => EventRoute::Trigger(count_identity(TriggerKind::AllyShielded, c)),
        BridgeEvent::SoulDeny(c) => EventRoute::Trigger(count_identity(TriggerKind::SoulDeny, c)),
        BridgeEvent::SoulSecure(c) => EventRoute::Trigger(count_identity(TriggerKind::SoulSecure, c)),
        BridgeEvent::ParrySuccess(c) => EventRoute::Trigger(count_identity(TriggerKind::ParrySuccess, c)),
        BridgeEvent::ParryFail(c) => EventRoute::Trigger(count_identity(TriggerKind::ParryFail, c)),
        BridgeEvent::ObjectiveGuardian(c) => EventRoute::Trigger(count_identity(TriggerKind::ObjectiveGuardian, c)),
        BridgeEvent::ObjectiveWalker(c) => EventRoute::Trigger(count_identity(TriggerKind::ObjectiveWalker, c)),
        BridgeEvent::ObjectiveBaseGuardian(c) => EventRoute::Trigger(
            count_identity(TriggerKind::ObjectiveBaseGuardian, c),
        ),
        BridgeEvent::ObjectiveShrine(c) => EventRoute::Trigger(count_identity(TriggerKind::ObjectiveShrine, c)),
        BridgeEvent::ObjectivePatronWeakened(c) => EventRoute::Trigger(
            count_identity(TriggerKind::ObjectivePatronWeakened, c),
        ),
        BridgeEvent::GameWon(c) => EventRoute::Trigger(count_identity(TriggerKind::GameWon, c)),
        BridgeEvent::DamageTakenIntensity(_) => EventRoute::Ignored,
        BridgeEvent::AbilityUsed(a) => EventRoute::Trigger(ability_identity(TriggerKind::AbilityUse, a)),
        BridgeEvent::AbilityCooldownReady(a) => EventRoute::Trigger(
            ability_identity(TriggerKind::AbilityCooldownReady, a),
        ),
        BridgeEvent::DamageTaken(v) => EventRoute::Amount(TriggerKind::DamageTaken, v),
        BridgeEvent::HealingReceived(v) => EventRoute::Amount(TriggerKind::HealingReceived, v),
        BridgeEvent::DamageGiven(v) => EventRoute::Amount(TriggerKind::DamageGiven, v),
    }
}

pub open spec fn death_identity(d: LocalPlayerDeath) -> TriggerIdentity {
    TriggerIdentity {
        kind: TriggerKind::Death,
        session_id: d.session_id,
        sequence: d.sequence,
        client_time_ms: d.client_time_ms,
        detection: d.detection,
        ability_slot: None,
        ability_name: None,
        charges_before: None,
        charges_after: None,
        amount_total_bits: None,
        pulse: None,
    }
}

pub open spec fn count_identity(kind: TriggerKind, c: CountTrigger) -> TriggerIdentity {
    TriggerIdentity {
        kind,
        session_id: c.session_id,
        sequence: c.sequence,
        client_time_ms: c.client_time_ms,
        detection: c.detection,
        ability_slot: None,
        ability_name: None,
        charges_before: c.count_before,
        charges_after: c.count_after,
        amount_total_bits: None,
        pulse: None,
    }
}

pub open spec fn ability_identity(kind: TriggerKind, a: AbilityTrigger) -> TriggerIdentity {
    TriggerIdentity {
        kind,
        session_id: a.session_id,
        sequence: a.sequence,
        client_time_ms: a.client_time_ms,
        detection: a.detection,
        ability_slot: Some(a.ability_slot),
        ability_name: a.ability_name,
        charges_before: a.charges_before,
        charges_after: a.charges_after,
        amount_total_bits: None,
        pulse: None,
    }
}

/// Sorts a bridge event into what the app does with it.
pub fn route_event(event: BridgeEvent) -> (r: EventRoute)
    ensures
        r == route_of(event),
{
    match event {
        BridgeEvent::HookReady(_) => EventRoute::SessionStarted,
        BridgeEvent::AbilityCatalog(c) => EventRoute::Catalog(c),
        BridgeEvent::LocalPlayerDeath(d) => EventRoute::Trigger(TriggerIdentity::from_death(d)),
        BridgeEvent::LocalPlayerRespawn(r) => EventRoute::Respawn(r),
        BridgeEvent::LocalPlayerKill(c) => EventRoute::Trigger(TriggerIdentity::from_count(TriggerKind::Kill, c)),
        BridgeEvent::LocalPlayerAssist(c) => EventRoute::Trigger(TriggerIdentity::from_count(TriggerKind::Assist, c)),
        BridgeEvent::AllyHealed(c) => EventRoute::Trigger(TriggerIdentity::from_count(TriggerKind::AllyHealed, c)),
        BridgeEvent::AllyShielded(c) => EventRoute::Trigger(
            TriggerIdentity::from_count(TriggerKind::AllyShielded, c),
        ),
        BridgeEvent::SoulDeny(c) => EventRoute::Trigger(TriggerIdentity::from_count(TriggerKind::SoulDeny, c)),
        BridgeEvent::SoulSecure(c) => EventRoute::Trigger(TriggerIdentity::from_count(TriggerKind::SoulSecure, c)),
        BridgeEvent::ParrySuccess(c) => EventRoute::Trigger(
            TriggerIdentity::from_count(TriggerKind::ParrySuccess, c),
        ),
        BridgeEvent::ParryFail(c) => EventRoute::Trigger(TriggerIdentity::from_count(TriggerKind::ParryFail, c)),
        BridgeEvent::ObjectiveGuardian(c) => EventRoute::Trigger(
            TriggerIdentity::from_count(TriggerKind::ObjectiveGuardian, c),
        ),
        BridgeEvent::ObjectiveWalker(c) => EventRoute::Trigger(
            TriggerIdentity::from_count(TriggerKind::ObjectiveWalker, c),
        ),
        BridgeEvent::ObjectiveBaseGuardian(c) => EventRoute::Trigger(
            TriggerIdentity::from_count(TriggerKind::ObjectiveBaseGuardian, c),
        ),
        BridgeEvent::ObjectiveShrine(c) => EventRoute::Trigger(
            TriggerIdentity::from_count(TriggerKind::ObjectiveShrine, c),
        ),
        BridgeEvent::ObjectivePatronWeakened(c) => EventRoute::Trigger(
            TriggerIdentity::from_count(TriggerKind::ObjectivePatronWeakened, c),
        ),
        BridgeEvent::GameWon(c) => EventRoute::Trigger(TriggerIdentity::from_count(TriggerKind::GameWon, c)),
        BridgeEvent::DamageTakenIntensity(_) => EventRoute::Ignored,
        BridgeEvent::AbilityUsed(a) => EventRoute::Trigger(TriggerIdentity::from_ability(TriggerKind::AbilityUse, a)),
        BridgeEvent::AbilityCooldownReady(a) => EventRoute::Trigger(
            TriggerIdentity::from_ability(TriggerKind::AbilityCooldownReady, a),
        ),
        BridgeEvent::DamageTaken(v) => EventRoute::Amount(TriggerKind::DamageTaken, v),
        BridgeEvent::HealingReceived(v) => EventRoute::Amount(TriggerKind::HealingReceived, v),
        BridgeEvent::DamageGiven(v) => EventRoute::Amount(TriggerKind::DamageGiven, v),
    }
}

/// The ability catalog as the app keeps it: every entry with a slot above
/// zero, a later entry for the same slot replacing an earlier one.
pub open spec fn catalog_map(entries: Seq<AbilityCatalogEntry>) -> Map<u32, Option<String>>
    decreases entries.len(),
{
    if entries.len() == 0 {
        Map::empty()
    } else {
        let m = catalog_map(entries.drop_last());
        let e = entries.last();
        if e.ability_slot > 0 {
            m.insert(e.ability_slot, e.ability_name)
        } else {
            m
        }
    }
}

pub fn catalog_from_entries(catalog: AbilityCatalog) -> (r: std::collections::BTreeMap<u32, Option<String>>)
    ensures
        r@ == catalog_map(catalog.abilities@),
{
    let mut map: std::collections::BTreeMap<u32, Option<String>> = std::collections::BTreeMap::new();
    let entries = catalog.abilities;
    let mut i: usize = 0;
    while i < entries.len()
        invariant
            i <= entries@.len(),
            map@ == catalog_map(entries@.take(i as int)),
        decreases entries@.len() - i,
    {
        assert(entries@.take(i + 1).drop_last() =~= entries@.take(i as int));
        let slot = entries[i].ability_slot;
        if slot > 0 {
            let name = entries[i].ability_name.clone();
            map.insert(slot, name);
        }
        i += 1;
    }
    assert(entries@.take(entries@.len() as int) =~= entries@);
    map
}

} // verus!
