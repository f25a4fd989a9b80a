//! What the companion shows about its own state: connection and detection
//! states with their labels, the chosen device, and the one-line
//! description of a trigger.
use vstd::prelude::*;

use crate::detection::{detection_error_text, DetectionError};
use crate::dispatch::TriggerIdentity;
use crate::provider::{ProviderError, ProviderTarget};
use crate::text::{decimal, push_decimal, push_str};
use crate::triggers::{kind_label, TriggerKind};

verus! {

/// How a vibrate action picks its strength and duration.
#[derive(Clone, Copy, Debug, PartialEq, Eq, Structural)]
pub enum VibrateMode {
    /// A random strength and duration from a range.
    Interval,
    /// A single strength held for a set time.
    Fixed,
}

impl Default for VibrateMode {
    fn default() -> (r: Self)
        ensures
            r == VibrateMode::Fixed,
    {
        VibrateMode::Fixed
    }
}

impl VibrateMode {
    pub fn label(self) -> (r: &'static str)
        ensures
            self == VibrateMode::Interval ==> r@ == "Random"@,
            self == VibrateMode::Fixed ==> r@ == "Fixed"@,
    {
        match self {
            VibrateMode::Interval => "Random",
            VibrateMode::Fixed => "Fixed",
        }
    }
}

/// Whether the Lovense connection settings are known to work.
#[derive(Clone, Copy, Debug, PartialEq, Eq, Structural)]
pub enum CredentialState {
    Unknown,
    Testing,
    Valid,
    Invalid,
}

impl Default for CredentialState {
    fn default() -> (r: Self)
        ensures
            r == CredentialState::Unknown,
    {
        CredentialState::Unknown
    }
}

impl CredentialState {
    pub fn label(self) -> (r: &'static str)
        ensures
            self == CredentialState::Unknown ==> r@ == "Not tested yet"@,
            self == CredentialState::Testing ==> r@ == "Testing connection…"@,
            self == CredentialState::Valid ==> r@ == "Connected"@,
            self == CredentialState::Invalid ==> r@ == "Connection failed"@,
    {
        match self {
            CredentialState::Unknown => "Not tested yet",
            CredentialState::Testing => "Testing connection…",
            CredentialState::Valid => "Connected",
            CredentialState::Invalid => "Connection failed",
        }
    }
}

/// The tone of a status pill.
#[derive(Clone, Copy, Debug, PartialEq, Eq, Structural)]
pub enum BadgeTone {
    Neutral,
    Success,
    Warning,
    Danger,
}

impl BadgeTone {
    /// The pill's colour as red, green and blue.
    pub fn rgb(self) -> (r: (u8, u8, u8))
        ensures
            self == BadgeTone::Neutral ==> r == (0xBEu8, 0xB0u8, 0xC1u8),
            self == BadgeTone::Success ==> r == (0x96u8, 0xE0u8, 0xB7u8),
            self == BadgeTone::Warning ==> r == (0xF5u8, 0xC7u8, 0x89u8),
            self == BadgeTone::Danger ==> r == (0xF0u8, 0x8Cu8, 0x9Eu8),
    {
        match self {
            BadgeTone::Neutral => (0xBE, 0xB0, 0xC1),
            BadgeTone::Success => (0x96, 0xE0, 0xB7),
            BadgeTone::Warning => (0xF5, 0xC7, 0x89),
            BadgeTone::Danger => (0xF0, 0x8C, 0x9E),
        }
    }
}

/// The tone of a trigger's round icon: off, on, or on and selected.
#[derive(Clone, Copy, Debug, PartialEq, Eq, Structural)]
pub enum IconTone {
    Off,
    On,
    Selected,
}

/// The icon tone of a trigger row.
pub fn icon_tone(enabled: bool, selected: bool) -> (r: IconTone)
    ensures
        r == if selected {
            IconTone::Selected
        } else if enabled {
            IconTone::On
        } else {
            IconTone::Off
        },
{
    if selected {
        IconTone::Selected
    } else if enabled {
        IconTone::On
    } else {
        IconTone::Off
    }
}

/// The outcome of looking for the console log, as shown to the user.
#[derive(Clone, Debug, PartialEq, Eq)]
pub enum LogDetectionStatus {
    Found,
    NotCreated,
    Failed(String),
}

pub open spec fn not_created_text() -> Seq<char> {
    "Deadlock is installed, but console.log has not been created. Add -condebug to Deadlock's Steam launch options, then launch the game."@
}

impl LogDetectionStatus {
    pub fn label(&self) -> (r: String)
        ensures
            *self == LogDetectionStatus::Found ==> r@ == "Found Deadlock console.log."@,
            *self == LogDetectionStatus::NotCreated ==> r@ == not_created_text(),
            self matches LogDetectionStatus::Failed(m) ==> r@ == m@,
    {
        let mut out = String::new();
        match self {
            LogDetectionStatus::Found => push_str(&mut out, "Found Deadlock console.log."),
            LogDetectionStatus::NotCreated => push_str(
                &mut out,
                "Deadlock is installed, but console.log has not been created. Add -condebug to Deadlock's Steam launch options, then launch the game.",
            ),
            LogDetectionStatus::Failed(m) => push_str(&mut out, m.as_str()),
        }
        out
    }
}

/// What a found log leads to, once the listener was started on it:
/// `log_exists` tells a log that is there from one not yet created, and
/// `start_error` is why the listener could not start.
pub fn found_log_status(log_exists: bool, start_error: Option<&str>) -> (r: LogDetectionStatus)
    ensures
        start_error is None ==> r == if log_exists {
            LogDetectionStatus::Found
        } else {
            LogDetectionStatus::NotCreated
        },
        start_error matches Some(e) ==> r matches LogDetectionStatus::Failed(m) && m@ == (if log_exists {
            "Deadlock console.log was found, but the listener could not start: "@
        } else {
            "Deadlock was found, but the listener could not start: "@
        }) + e@,
{
    match start_error {
        None => if log_exists {
            LogDetectionStatus::Found
        } else {
            LogDetectionStatus::NotCreated
        },
        Some(e) => {
            let mut m = String::new();
            if log_exists {
                push_str(&mut m, "Deadlock console.log was found, but the listener could not start: ");
            } else {
                push_str(&mut m, "Deadlock was found, but the listener could not start: ");
            }
            push_str(&mut m, e);
            LogDetectionStatus::Failed(m)
        },
    }
}

/// What a failed search for the log shows.
pub fn failed_detection_status(error: &DetectionError) -> (r: LogDetectionStatus)
    ensures
        r matches LogDetectionStatus::Failed(m) && m@ == "Auto-detect failed: "@ + detection_error_text(*error),
{
    let mut m = String::new();
    push_str(&mut m, "Auto-detect failed: ");
    let text = error.message();
    push_str(&mut m, text.as_str());
    LogDetectionStatus::Failed(m)
}

/// Where a test vibration stands.
#[derive(Clone, Debug, PartialEq, Eq)]
pub enum TestActionStatus {
    Sending,
    Sent,
    Failed(String),
}

impl TestActionStatus {
    pub fn label(&self) -> (r: String)
        ensures
            *self == TestActionStatus::Sending ==> r@ == "Sending test vibration…"@,
            *self == TestActionStatus::Sent ==> r@ == "Test vibration sent."@,
            self matches TestActionStatus::Failed(m) ==> r@ == m@,
    {
        let mut out = String::new();
        match self {
            TestActionStatus::Sending => push_str(&mut out, "Sending test vibration…"),
            TestActionStatus::Sent => push_str(&mut out, "Test vibration sent."),
            TestActionStatus::Failed(m) => push_str(&mut out, m.as_str()),
        }
        out
    }
}

/// The short kind of a provider error, as it is logged.
pub fn provider_error_kind(error: &ProviderError) -> (r: &'static str)
    ensures
        error is Lovense ==> r@ == "lovense"@,
        error is InvalidSetup ==> r@ == "invalid_setup"@,
        error is NotConnected ==> r@ == "not_connected"@,
{
    match error {
        ProviderError::Lovense(_) => "lovense",
        ProviderError::InvalidSetup => "invalid_setup",
        ProviderError::NotConnected => "not_connected",
    }
}

pub open spec fn target_ids(devices: Seq<ProviderTarget>) -> Seq<Seq<char>> {
    devices.map_values(|d: ProviderTarget| d.spec_id())
}

/// Whether one of `devices` has the id `id`.
pub fn device_listed(devices: &Vec<ProviderTarget>, id: &String) -> (r: bool)
    ensures
        r == target_ids(devices@).contains(id@),
{
    let ghost ids = target_ids(devices@);
    let mut i: usize = 0;
    while i < devices.len()
        invariant
            ids == target_ids(devices@),
            i <= devices@.len(),
            forall|k: int| 0 <= k < i ==> ids[k] != id@,
        decreases devices@.len() - i,
    {
        if devices[i].id().eq(id) {
            assert(ids[i as int] == id@);
            return true;
        }
        i += 1;
    }
    false
}

/// The device to select once the devices are listed: the preferred one
/// when it is among them, else the first one listed, else none.
pub fn choose_device(preferred: &Option<String>, devices: &Vec<ProviderTarget>) -> (r: Option<String>)
    ensures
        r matches Some(id) ==> target_ids(devices@).contains(id@),
        match preferred {
            Some(p) if target_ids(devices@).contains(p@) => r matches Some(id) && id@ == p@,
            _ => if devices@.len() > 0 {
                r matches Some(id) && id@ == devices@[0].spec_id()
            } else {
                r is None
            },
        },
{
    if let Some(p) = preferred {
        if device_listed(devices, p) {
            let mut id = String::new();
            push_str(&mut id, p.as_str());
            return Some(id);
        }
    }
    if devices.len() > 0 {
        let mut id = String::new();
        push_str(&mut id, devices[0].id().as_str());
        assert(target_ids(devices@)[0] == devices@[0].spec_id());
        Some(id)
    } else {
        None
    }
}

pub open spec fn describes_once(k: TriggerKind) -> bool {
    !(k == TriggerKind::AbilityUse || k == TriggerKind::AbilityCooldownReady || k == TriggerKind::DamageTaken || k
        == TriggerKind::HealingReceived || k == TriggerKind::DamageGiven)
}

/// How a trigger is described in the status line. `total` is how the
/// windowed total of an amount trigger is written.
pub open spec fn status_text(t: TriggerIdentity, total: Seq<char>) -> Seq<char> {
    let tail = t.session_id@ + "#"@ + decimal(t.sequence as nat);
    if describes_once(t.kind) {
        kind_label(t.kind) + " "@ + tail
    } else if t.amount_total_bits is Some {
        kind_label(t.kind) + " of "@ + total + " within the window, detection "@ + t.detection@ + ", "@ + tail
    } else {
        kind_label(t.kind) + " slot "@ + decimal(
            match t.ability_slot {
                Some(s) => s as nat,
                None => 0nat,
            },
        ) + match t.ability_name {
            Some(n) => " ("@ + n@ + ")"@,
            None => Seq::empty(),
        } + ", detection "@ + t.detection@ + match (t.charges_before, t.charges_after) {
            (Some(b), Some(a)) => ", charges "@ + decimal(b as nat) + "→"@ + decimal(a as nat),
            _ => Seq::empty(),
        } + ", "@ + tail
    }
}

/// The one-line description of a trigger in the status line.
pub fn status_description(trigger: &TriggerIdentity, total: &str) -> (r: String)
    ensures
        r@ == status_text(*trigger, total@),
{
    let mut out = String::new();
    push_str(&mut out, trigger.kind.label());
    let once = match trigger.kind {
        TriggerKind::AbilityUse | TriggerKind::AbilityCooldownReady | TriggerKind::DamageTaken
        | TriggerKind::HealingReceived | TriggerKind::DamageGiven => false,
        _ => true,
    };
    if once {
        push_str(&mut out, " ");
    } else if trigger.amount_total_bits.is_some() {
        push_str(&mut out, " of ");
        push_str(&mut out, total);
        push_str(&mut out, " within the window, detection ");
        push_str(&mut out, trigger.detection.as_str());
        push_str(&mut out, ", ");
    } else {
        push_str(&mut out, " slot ");
        let slot: u64 = match trigger.ability_slot {
            Some(s) => s as u64,
            None => 0,
        };
        push_decimal(&mut out, slot);
        match &trigger.ability_name {
            Some(n) => {
                push_str(&mut out, " (");
                push_str(&mut out, n.as_str());
                push_str(&mut out, ")");
            },
            None => {},
        }
        push_str(&mut out, ", detection ");
        push_str(&mut out, trigger.detection.as_str());
        match (trigger.charges_before, trigger.charges_after) {
            (Some(b), Some(a)) => {
                push_str(&mut out, ", charges ");
                push_decimal(&mut out, b);
                push_str(&mut out, "→");
                push_decimal(&mut out, a);
            },
            _ => {},
        }
        push_str(&mut out, ", ");
    }
    push_str(&mut out, trigger.session_id.as_str());
    push_str(&mut out, "#");
    push_decimal(&mut out, trigger.sequence);
    out
}

/// What became of an effect sent to the toy, as the status line reports it.
#[derive(Clone, Debug, PartialEq, Eq)]
pub enum ActionOutcome {
    Sending,
    Sent,
    Failed(String),
    Skipped(String),
}

/// The status line of an effect: the provider, what happened to the
/// vibration, the toy (or "no target"), the effect (or "settings
/// unavailable"), the trigger's description, and the error or the reason
/// where there is one.
pub open spec fn action_status_text(
    outcome: ActionOutcome,
    target: Option<Seq<char>>,
    resolved: Option<Seq<char>>,
    trigger: Seq<char>,
) -> Seq<char> {
    let t = match target {
        Some(name) => name,
        None => "no target"@,
    };
    let a = match resolved {
        Some(summary) => summary,
        None => "settings unavailable"@,
    };
    match outcome {
        ActionOutcome::Sending => "Lovense: Sending vibrate to "@ + t + " at "@ + a + " ("@ + trigger + ")\u{2026}"@,
        ActionOutcome::Sent => "Lovense: vibrate sent to "@ + t + " at "@ + a + " ("@ + trigger + ")."@,
        ActionOutcome::Failed(e) => "Lovense: vibrate failed for "@ + t + " at "@ + a + " ("@ + trigger + "): "@ + e@,
        ActionOutcome::Skipped(reason) => "Lovense: vibrate skipped for "@ + t + " at "@ + a + " ("@ + trigger
            + "): "@ + reason@,
    }
}

/// The status line of an effect (see [`action_status_text`]).
pub fn action_status_label(
    outcome: &ActionOutcome,
    target: Option<&str>,
    resolved: Option<&str>,
    trigger: &str,
) -> (r: String)
    ensures
        r@ == action_status_text(
            *outcome,
            match target {
                Some(n) => Some(n@),
                None => None,
            },
            match resolved {
                Some(a) => Some(a@),
                None => None,
            },
            trigger@,
        ),
{
    let t = match target {
        Some(name) => name,
        None => "no target",
    };
    let a = match resolved {
        Some(summary) => summary,
        None => "settings unavailable",
    };
    let mut out = String::new();
    match outcome {
        ActionOutcome::Sending => push_str(&mut out, "Lovense: Sending vibrate to "),
        ActionOutcome::Sent => push_str(&mut out, "Lovense: vibrate sent to "),
        ActionOutcome::Failed(_) => push_str(&mut out, "Lovense: vibrate failed for "),
        ActionOutcome::Skipped(_) => push_str(&mut out, "Lovense: vibrate skipped for "),
    }
    push_str(&mut out, t);
    push_str(&mut out, " at ");
    push_str(&mut out, a);
    push_str(&mut out, " (");
    push_str(&mut out, trigger);
    match outcome {
        ActionOutcome::Sending => push_str(&mut out, ")\u{2026}"),
        ActionOutcome::Sent => push_str(&mut out, ")."),
        ActionOutcome::Failed(e) => {
            push_str(&mut out, "): ");
            push_str(&mut out, e.as_str());
        },
        ActionOutcome::Skipped(reason) => {
            push_str(&mut out, "): ");
            push_str(&mut out, reason.as_str());
        },
    }
    out
}

} // verus!
