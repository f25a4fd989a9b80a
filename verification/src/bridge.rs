//! The records the game-side mod writes into Deadlock's console log: how a
//! record is recognised in a log line, the events it carries, and what its
//! version metadata says about the installed mod.
use vstd::prelude::*;

use crate::text::{chars_of, find, first_occurrence, string_from_chars};
use crate::version::{semver_parse, SemVer};

verus! {

/// Marks a bridge record inside a console line.
pub const BRIDGE_RECORD_PREFIX: &'static str = "[DEADLOCK_DEATH_HOOK]";

/// The record schema this companion understands.
pub const BRIDGE_SCHEMA: u32 = 1;

/// The longest `mod_version` text that is still taken for a version.
pub const MAX_METADATA_VERSION_BYTES: usize = 64;

/// What the log says about the installed mod's version.
#[derive(Clone, Debug, PartialEq, Eq)]
pub enum ModVersionObservation {
    /// Nothing was seen yet.
    Unknown,
    /// A record without a `mod_version` field: a mod that predates it.
    Legacy,
    /// A `mod_version` that is not a version.
    Invalid,
    Reported(String),
}

#[derive(Clone, Debug, PartialEq, Eq)]
pub struct BridgeMetadata {
    pub schema: u32,
    pub event: String,
    pub mod_version: ModVersionObservation,
}

#[derive(Clone, Debug, PartialEq, Eq)]
pub struct HookReady {
    pub schema: u32,
    pub session_id: String,
    pub client_time_ms: u64,
    pub poll_interval_ms: u64,
}

#[derive(Clone, Debug, PartialEq, Eq)]
pub struct AbilityCatalogEntry {
    pub ability_slot: u32,
    pub ability_name: Option<String>,
}

#[derive(Clone, Debug, PartialEq, Eq)]
pub struct AbilityCatalog {
    pub schema: u32,
    pub session_id: String,
    pub client_time_ms: u64,
    pub abilities: Vec<AbilityCatalogEntry>,
}

#[derive(Clone, Debug, PartialEq, Eq)]
pub struct LocalPlayerDeath {
    pub schema: u32,
    pub session_id: String,
    pub client_time_ms: u64,
    pub sequence: u64,
    pub detection: String,
}

#[derive(Clone, Debug, PartialEq, Eq)]
pub struct LocalPlayerRespawn {
    pub schema: u32,
    pub session_id: String,
    pub client_time_ms: u64,
}

#[derive(Clone, Debug, PartialEq, Eq)]
pub struct CountTrigger {
    pub schema: u32,
    pub session_id: String,
    pub client_time_ms: u64,
    pub sequence: u64,
    pub detection: String,
    pub count_before: Option<u64>,
    pub count_after: Option<u64>,
}

#[derive(Clone, Debug, PartialEq, Eq)]
pub struct AbilityTrigger {
    pub schema: u32,
    pub session_id: String,
    pub client_time_ms: u64,
    pub sequence: u64,
    pub ability_slot: u32,
    pub ability_name: Option<String>,
    pub detection: String,
    pub charges_before: Option<u64>,
    pub charges_after: Option<u64>,
}

/// A reported change in the local player's combined health-and-shield total.
/// The amounts are carried as the IEEE-754 bit patterns of the reported
/// numbers; nothing in the library reads them.
#[derive(Clone, Debug, PartialEq, Eq)]
pub struct VitalsTrigger {
    pub schema: u32,
    pub session_id: String,
    pub client_time_ms: u64,
    pub sequence: u64,
    pub detection: String,
    pub amount_bits: u64,
    pub health_after_bits: Option<u64>,
}

#[derive(Clone, Debug, PartialEq, Eq)]
pub enum BridgeEvent {
    HookReady(HookReady),
    AbilityCatalog(AbilityCatalog),
    LocalPlayerDeath(LocalPlayerDeath),
    LocalPlayerRespawn(LocalPlayerRespawn),
    LocalPlayerKill(CountTrigger),
    LocalPlayerAssist(CountTrigger),
    AllyHealed(CountTrigger),
    AllyShielded(CountTrigger),
    SoulDeny(CountTrigger),
    SoulSecure(CountTrigger),
    ParrySuccess(CountTrigger),
    ParryFail(CountTrigger),
    ObjectiveGuardian(CountTrigger),
    ObjectiveWalker(CountTrigger),
    ObjectiveBaseGuardian(CountTrigger),
    ObjectiveShrine(CountTrigger),
    ObjectivePatronWeakened(CountTrigger),
    GameWon(CountTrigger),
    DamageTakenIntensity(CountTrigger),
    AbilityUsed(AbilityTrigger),
    AbilityCooldownReady(AbilityTrigger),
    DamageTaken(VitalsTrigger),
    HealingReceived(VitalsTrigger),
    DamageGiven(VitalsTrigger),
}

/// The schema a decoded event was written with.
pub open spec fn event_schema(e: BridgeEvent) -> u32 {
    match e {
        BridgeEvent::HookReady(x) => x.schema,
        BridgeEvent::AbilityCatalog(x) => x.schema,
        BridgeEvent::LocalPlayerDeath(x) => x.schema,
        BridgeEvent::LocalPlayerRespawn(x) => x.schema,
        BridgeEvent::LocalPlayerKill(x) => x.schema,
        BridgeEvent::LocalPlayerAssist(x) => x.schema,
        BridgeEvent::AllyHealed(x) => x.schema,
        BridgeEvent::AllyShielded(x) => x.schema,
        BridgeEvent::SoulDeny(x) => x.schema,
        BridgeEvent::SoulSecure(x) => x.schema,
        BridgeEvent::ParrySuccess(x) => x.schema,
        BridgeEvent::ParryFail(x) => x.schema,
        BridgeEvent::ObjectiveGuardian(x) => x.schema,
        BridgeEvent::ObjectiveWalker(x) => x.schema,
        BridgeEvent::ObjectiveBaseGuardian(x) => x.schema,
        BridgeEvent::ObjectiveShrine(x) => x.schema,
        BridgeEvent::ObjectivePatronWeakened(x) => x.schema,
        BridgeEvent::GameWon(x) => x.schema,
        BridgeEvent::DamageTakenIntensity(x) => x.schema,
        BridgeEvent::AbilityUsed(x) => x.schema,
        BridgeEvent::AbilityCooldownReady(x) => x.schema,
        BridgeEvent::DamageTaken(x) => x.schema,
        BridgeEvent::HealingReceived(x) => x.schema,
        BridgeEvent::DamageGiven(x) => x.schema,
    }
}

/// The `event` tag each event is written under.
pub open spec fn event_tag(e: BridgeEvent) -> Seq<char> {
    match e {
        BridgeEvent::HookReady(_) => "hook_ready"@,
        BridgeEvent::AbilityCatalog(_) => "ability_catalog"@,
        BridgeEvent::LocalPlayerDeath(_) => "local_player_death"@,
        BridgeEvent::LocalPlayerRespawn(_) => "local_player_respawn"@,
        BridgeEvent::LocalPlayerKill(_) => "local_player_kill"@,
        BridgeEvent::LocalPlayerAssist(_) => "local_player_assist"@,
        BridgeEvent::AllyHealed(_) => "ally_healed"@,
        BridgeEvent::AllyShielded(_) => "ally_shielded"@,
        BridgeEvent::SoulDeny(_) => "soul_deny"@,
        BridgeEvent::SoulSecure(_) => "soul_secure"@,
        BridgeEvent::ParrySuccess(_) => "parry_success"@,
        BridgeEvent::ParryFail(_) => "parry_fail"@,
        BridgeEvent::ObjectiveGuardian(_) => "objective_guardian"@,
        BridgeEvent::ObjectiveWalker(_) => "objective_walker"@,
        BridgeEvent::ObjectiveBaseGuardian(_) => "objective_base_guardian"@,
        BridgeEvent::ObjectiveShrine(_) => "objective_shrine"@,
        BridgeEvent::ObjectivePatronWeakened(_) => "objective_patron_weakened"@,
        BridgeEvent::GameWon(_) => "game_won"@,
        BridgeEvent::DamageTakenIntensity(_) => "damage_taken_intensity"@,
        BridgeEvent::AbilityUsed(_) => "ability_used"@,
        BridgeEvent::AbilityCooldownReady(_) => "ability_cooldown_ready"@,
        BridgeEvent::DamageTaken(_) => "damage_taken"@,
        BridgeEvent::HealingReceived(_) => "healing_received"@,
        BridgeEvent::DamageGiven(_) => "damage_given"@,
    }
}

impl BridgeEvent {
    pub fn event_name(&self) -> (r: &'static str)
        ensures
            r@ == event_tag(*self),
    {
        match self {
            BridgeEvent::HookReady(_) => "hook_ready",
            BridgeEvent::AbilityCatalog(_) => "ability_catalog",
            BridgeEvent::LocalPlayerDeath(_) => "local_player_death",
            BridgeEvent::LocalPlayerRespawn(_) => "local_player_respawn",
            BridgeEvent::LocalPlayerKill(_) => "local_player_kill",
            BridgeEvent::LocalPlayerAssist(_) => "local_player_assist",
            BridgeEvent::AllyHealed(_) => "ally_healed",
            BridgeEvent::AllyShielded(_) => "ally_shielded",
            BridgeEvent::SoulDeny(_) => "soul_deny",
            BridgeEvent::SoulSecure(_) => "soul_secure",
            BridgeEvent::ParrySuccess(_) => "parry_success",
            BridgeEvent::ParryFail(_) => "parry_fail",
            BridgeEvent::ObjectiveGuardian(_) => "objective_guardian",
            BridgeEvent::ObjectiveWalker(_) => "objective_walker",
            BridgeEvent::ObjectiveBaseGuardian(_) => "objective_base_guardian",
            BridgeEvent::ObjectiveShrine(_) => "objective_shrine",
            BridgeEvent::ObjectivePatronWeakened(_) => "objective_patron_weakened",
            BridgeEvent::GameWon(_) => "game_won",
            BridgeEvent::DamageTakenIntensity(_) => "damage_taken_intensity",
            BridgeEvent::AbilityUsed(_) => "ability_used",
            BridgeEvent::AbilityCooldownReady(_) => "ability_cooldown_ready",
            BridgeEvent::DamageTaken(_) => "damage_taken",
            BridgeEvent::HealingReceived(_) => "healing_received",
            BridgeEvent::DamageGiven(_) => "damage_given",
        }
    }

    pub fn schema(&self) -> (r: u32)
        ensures
            r == event_schema(*self),
    {
        match self {
            BridgeEvent::HookReady(x) => x.schema,
            BridgeEvent::AbilityCatalog(x) => x.schema,
            BridgeEvent::LocalPlayerDeath(x) => x.schema,
            BridgeEvent::LocalPlayerRespawn(x) => x.schema,
            BridgeEvent::LocalPlayerKill(x) => x.schema,
            BridgeEvent::LocalPlayerAssist(x) => x.schema,
            BridgeEvent::AllyHealed(x) => x.schema,
            BridgeEvent::AllyShielded(x) => x.schema,
            BridgeEvent::SoulDeny(x) => x.schema,
            BridgeEvent::SoulSecure(x) => x.schema,
            BridgeEvent::ParrySuccess(x) => x.schema,
            BridgeEvent::ParryFail(x) => x.schema,
            BridgeEvent::ObjectiveGuardian(x) => x.schema,
            BridgeEvent::ObjectiveWalker(x) => x.schema,
            BridgeEvent::ObjectiveBaseGuardian(x) => x.schema,
            BridgeEvent::ObjectiveShrine(x) => x.schema,
            BridgeEvent::ObjectivePatronWeakened(x) => x.schema,
            BridgeEvent::GameWon(x) => x.schema,
            BridgeEvent::DamageTakenIntensity(x) => x.schema,
            BridgeEvent::AbilityUsed(x) => x.schema,
            BridgeEvent::AbilityCooldownReady(x) => x.schema,
            BridgeEvent::DamageTaken(x) => x.schema,
            BridgeEvent::HealingReceived(x) => x.schema,
            BridgeEvent::DamageGiven(x) => x.schema,
        }
    }
}

/// The JSON payload of a bridge record: whatever follows the first
/// occurrence of [`BRIDGE_RECORD_PREFIX`] in the line.
pub open spec fn record_payload_of(line: Seq<char>) -> Option<Seq<char>> {
    match first_occurrence(line, BRIDGE_RECORD_PREFIX@) {
        Some(i) => Some(line.subrange(i + BRIDGE_RECORD_PREFIX@.len(), line.len() as int)),
        None => None,
    }
}

/// The payload of the bridge record in `line`, if it holds one.
pub fn record_payload(line: &str) -> (r: Option<String>)
    ensures
        r is Some <==> record_payload_of(line@) is Some,
        r matches Some(p) ==> record_payload_of(line@) == Some(p@),
{
    let cs = chars_of(line);
    let prefix = chars_of(BRIDGE_RECORD_PREFIX);
    match find(cs.as_slice(), prefix.as_slice()) {
        Some(i) => {
            proof {
                crate::text::lemma_first_occurrence(cs@, prefix@);
            }
            let n = cs.len();
            assert(i + prefix@.len() <= n);
            let start = i + prefix.len();
            let mut rest: Vec<char> = Vec::new();
            let mut j = start;
            while j < cs.len()
                invariant
                    start <= j <= cs@.len(),
                    rest@ == cs@.subrange(start as int, j as int),
                decreases cs@.len() - j,
            {
                rest.push(cs[j]);
                assert(cs@.subrange(start as int, j as int).push(cs@[j as int]) =~= cs@.subrange(
                    start as int,
                    j + 1,
                ));
                j += 1;
            }
            Some(string_from_chars(rest.as_slice()))
        },
        None => None,
    }
}

/// Whether `line` contains a bridge record marker at all.
pub fn has_record_prefix(line: &str) -> (r: bool)
    ensures
        r == (first_occurrence(line@, BRIDGE_RECORD_PREFIX@) is Some),
{
    let cs = chars_of(line);
    let prefix = chars_of(BRIDGE_RECORD_PREFIX);
    find(cs.as_slice(), prefix.as_slice()).is_some()
}

/// Keeps a decoded event when it was written with the supported schema.
pub fn accept_event(event: BridgeEvent) -> (r: Option<BridgeEvent>)
    ensures
        event_schema(event) == BRIDGE_SCHEMA ==> r == Some(event),
        event_schema(event) != BRIDGE_SCHEMA ==> r is None,
{
    if event.schema() == BRIDGE_SCHEMA {
        Some(event)
    } else {
        None
    }
}

/// One field of the record's JSON object as it was found.
#[derive(Clone, Debug, PartialEq, Eq)]
pub enum MetadataField {
    Absent,
    Text(String),
    /// Present, but not a string.
    Other,
}

/// The fields of a record that carry its metadata: `schema` (when it is an
/// unsigned integer), `event` (when it is a string) and `mod_version`.
#[derive(Clone, Debug, PartialEq, Eq)]
pub struct RawMetadata {
    pub schema: Option<u64>,
    pub event: Option<String>,
    pub mod_version: MetadataField,
}

/// The metadata fields as plain values: `schema`, `event`, and
/// `mod_version` as absent (`None`), text (`Some(Some(..))`) or present but
/// not a string (`Some(None)`).
pub type RawMetadataView = (Option<u64>, Option<Seq<char>>, Option<Option<Seq<char>>>);

pub open spec fn raw_metadata_view(m: RawMetadata) -> RawMetadataView {
    (
        m.schema,
        match m.event {
            Some(e) => Some(e@),
            None => None,
        },
        match m.mod_version {
            MetadataField::Absent => None,
            MetadataField::Text(v) => Some(Some(v@)),
            MetadataField::Other => Some(None),
        },
    )
}

/// What `serde_json::from_str` makes of a record's payload, read for its
/// metadata fields: nothing when the payload is not JSON; else `schema` when
/// it is an unsigned integer, `event` when it is a string, and how
/// `mod_version` is present.
pub uninterp spec fn json_metadata(payload: Seq<char>) -> Option<RawMetadataView>;

/// `serde_json::from_str` into a `serde_json::Value`, with the metadata
/// fields read from it by `Value::get`, `as_u64` and `as_str`.
#[verifier::external_body]
fn read_raw_metadata(payload: &str) -> (r: Option<RawMetadata>)
    ensures
        match r {
            Some(m) => json_metadata(payload@) == Some(raw_metadata_view(m)),
            None => json_metadata(payload@) is None,
        },
{
    let value: serde_json::Value = match serde_json::from_str(payload) {
        Ok(value) => value,
        Err(_) => return None,
    };
    let mod_version = match value.get("mod_version") {
        None => MetadataField::Absent,
        Some(serde_json::Value::String(v)) => MetadataField::Text(v.clone()),
        Some(_) => MetadataField::Other,
    };
    Some(RawMetadata {
        schema: value.get("schema").and_then(serde_json::Value::as_u64),
        event: value.get("event").and_then(serde_json::Value::as_str).map(str::to_owned),
        mod_version,
    })
}

/// `obs` is how the `mod_version` field reads: a missing field means a
/// mod from before versions were reported; a non-empty text of at most
/// [`MAX_METADATA_VERSION_BYTES`] bytes that reads as a version is reported;
/// anything else is invalid.
pub open spec fn observation_of(field: Option<Option<Seq<char>>>, obs: ModVersionObservation) -> bool {
    match field {
        None => obs == ModVersionObservation::Legacy,
        Some(Some(v)) => if v.len() > 0 && vstd::utf8::encode_utf8(v).len() as usize <= MAX_METADATA_VERSION_BYTES
            && semver_parse(v) is Some {
            obs matches ModVersionObservation::Reported(s) && s@ == v
        } else {
            obs == ModVersionObservation::Invalid
        },
        Some(None) => obs == ModVersionObservation::Invalid,
    }
}

/// `r` is the metadata of a record with these fields: present when its
/// `schema` fits a `u32` and it names its `event`.
pub open spec fn metadata_matches(r: Option<BridgeMetadata>, raw: RawMetadataView) -> bool {
    &&& (r is Some <==> (raw.0 matches Some(s) && s <= u32::MAX && raw.1 is Some))
    &&& (r matches Some(m) ==> Some(m.schema as u64) == raw.0 && Some(m.event@) == raw.1 && observation_of(
        raw.2,
        m.mod_version,
    ))
}

/// How a `mod_version` field is read.
pub open spec fn observed_version(field: MetadataField) -> ModVersionObservation {
    match field {
        MetadataField::Absent => ModVersionObservation::Legacy,
        MetadataField::Text(v) => if v@.len() > 0 && vstd::utf8::encode_utf8(v@).len() as usize
            <= MAX_METADATA_VERSION_BYTES && semver_parse(v@) is Some {
            ModVersionObservation::Reported(v)
        } else {
            ModVersionObservation::Invalid
        },
        MetadataField::Other => ModVersionObservation::Invalid,
    }
}

pub open spec fn same_observation(a: ModVersionObservation, b: ModVersionObservation) -> bool {
    match (a, b) {
        (ModVersionObservation::Reported(x), ModVersionObservation::Reported(y)) => x@ == y@,
        (ModVersionObservation::Reported(_), _) => false,
        (_, ModVersionObservation::Reported(_)) => false,
        _ => a == b,
    }
}

/// The metadata of a record: present when its `schema` fits a `u32` and it
/// names its `event`; any record with both counts, whatever its event.
pub fn metadata_from_raw(raw: RawMetadata) -> (r: Option<BridgeMetadata>)
    ensures
        r is Some <==> (raw.schema matches Some(s) && s <= u32::MAX && raw.event is Some),
        r matches Some(m) ==> {
            &&& Some(m.schema as u64) == raw.schema
            &&& Some(m.event@) == (match raw.event {
                Some(e) => Some(e@),
                None => None,
            })
            &&& same_observation(m.mod_version, observed_version(raw.mod_version))
        },
        metadata_matches(r, raw_metadata_view(raw)),
{
    let schema = match raw.schema {
        Some(s) if s <= u32::MAX as u64 => s as u32,
        _ => return None,
    };
    let event = match raw.event {
        Some(e) => e,
        None => return None,
    };
    let mod_version = match raw.mod_version {
        MetadataField::Absent => ModVersionObservation::Legacy,
        MetadataField::Text(v) => {
            if !v.as_str().is_empty() && v.as_str().len() <= MAX_METADATA_VERSION_BYTES && SemVer::parse(
                v.as_str(),
            ).is_some() {
                ModVersionObservation::Reported(v)
            } else {
                ModVersionObservation::Invalid
            }
        },
        MetadataField::Other => ModVersionObservation::Invalid,
    };
    Some(BridgeMetadata { schema, event, mod_version })
}

/// Why a record with the marker was not turned into an event.
#[derive(Clone, Copy, Debug, PartialEq, Eq)]
pub enum RejectReason {
    /// The payload is not JSON at all.
    Malformed,
    /// A diagnostic event: it carries no trigger and is logged whole.
    Diagnostic,
    /// Another schema, or an event this companion does not know.
    Unsupported,
    /// A known event of the supported schema that did not decode.
    MalformedKnown,
}

/// The events a rejected record is still recognised as.
pub open spec fn known_rejected_tag(tag: Seq<char>) -> bool {
    ||| tag == "hook_ready"@
    ||| tag == "local_player_death"@
    ||| tag == "local_player_respawn"@
    ||| tag == "damage_taken"@
    ||| tag == "healing_received"@
    ||| tag == "ally_healed"@
    ||| tag == "ally_shielded"@
    ||| tag == "soul_deny"@
    ||| tag == "soul_secure"@
    ||| tag == "parry_success"@
    ||| tag == "parry_fail"@
    ||| tag == "objective_guardian"@
    ||| tag == "objective_walker"@
    ||| tag == "objective_base_guardian"@
    ||| tag == "objective_shrine"@
    ||| tag == "objective_patron_weakened"@
    ||| tag == "game_won"@
    ||| tag == "damage_taken_intensity"@
    ||| tag == "damage_given"@
}

pub open spec fn ends_with(s: Seq<char>, suffix: Seq<char>) -> bool {
    s.len() >= suffix.len() && s.subrange(s.len() - suffix.len(), s.len() as int) == suffix
}

/// The reason given for a record that was not accepted: `json` says whether
/// its payload is JSON, `event` and `schema` are its fields as found.
pub open spec fn reject_reason(json: bool, event: Option<Seq<char>>, schema: Option<u64>) -> RejectReason {
    if !json {
        RejectReason::Malformed
    } else if event matches Some(e) && (ends_with(e, "_diag"@) || e == "objective_feed_unclassified"@) {
        RejectReason::Diagnostic
    } else if (schema matches Some(s) && s != BRIDGE_SCHEMA as u64) || !(event matches Some(e)
        && known_rejected_tag(e)) {
        RejectReason::Unsupported
    } else {
        RejectReason::MalformedKnown
    }
}

fn seq_eq(a: &[char], b: &str) -> (r: bool)
    ensures
        r == (a@ == b@),
{
    let bs = chars_of(b);
    if a.len() != bs.len() {
        return false;
    }
    let mut i: usize = 0;
    while i < a.len()
        invariant
            i <= a@.len(),
            a@.len() == bs@.len(),
            bs@ == b@,
            forall|j: int| 0 <= j < i ==> a@[j] == bs@[j],
        decreases a@.len() - i,
    {
        if a[i] != bs[i] {
            return false;
        }
        i += 1;
    }
    assert(a@ =~= bs@);
    true
}

fn seq_ends_with(a: &[char], suffix: &str) -> (r: bool)
    ensures
        r == ends_with(a@, suffix@),
{
    let bs = chars_of(suffix);
    if a.len() < bs.len() {
        return false;
    }
    let off = a.len() - bs.len();
    let mut i: usize = 0;
    while i < bs.len()
        invariant
            i <= bs@.len(),
            off + bs@.len() == a@.len(),
            a@.len() == a.len(),
            bs@ == suffix@,
            forall|j: int| 0 <= j < i ==> a@[off + j] == bs@[j],
        decreases bs@.len() - i,
    {
        if a[off + i] != bs[i] {
            assert(a@.subrange(off as int, a@.len() as int)[i as int] != bs@[i as int]);
            return false;
        }
        i += 1;
    }
    assert(a@.subrange(off as int, a@.len() as int) =~= bs@);
    true
}

fn is_known_rejected_tag(e: &[char]) -> (r: bool)
    ensures
        r == known_rejected_tag(e@),
{
    seq_eq(e, "hook_ready") || seq_eq(e, "local_player_death") || seq_eq(e, "local_player_respawn")
        || seq_eq(e, "damage_taken") || seq_eq(e, "healing_received") || seq_eq(e, "ally_healed")
        || seq_eq(e, "ally_shielded") || seq_eq(e, "soul_deny") || seq_eq(e, "soul_secure") || seq_eq(
        e,
        "parry_success",
    ) || seq_eq(e, "parry_fail") || seq_eq(e, "objective_guardian") || seq_eq(e, "objective_walker")
        || seq_eq(e, "objective_base_guardian") || seq_eq(e, "objective_shrine") || seq_eq(
        e,
        "objective_patron_weakened",
    ) || seq_eq(e, "game_won") || seq_eq(e, "damage_taken_intensity") || seq_eq(e, "damage_given")
}

/// Classifies a record with the marker that did not decode into an event.
pub fn classify_rejected(json: bool, event: Option<&str>, schema: Option<u64>) -> (r: RejectReason)
    ensures
        r == reject_reason(
            json,
            match event {
                Some(e) => Some(e@),
                None => None,
            },
            schema,
        ),
{
    if !json {
        return RejectReason::Malformed;
    }
    let tag = match event {
        Some(e) => Some(chars_of(e)),
        None => None,
    };
    if let Some(t) = &tag {
        if seq_ends_with(t.as_slice(), "_diag") || seq_eq(t.as_slice(), "objective_feed_unclassified") {
            return RejectReason::Diagnostic;
        }
    }
    let schema_mismatch = match schema {
        Some(s) => s != BRIDGE_SCHEMA as u64,
        None => false,
    };
    let known = match &tag {
        Some(t) => is_known_rejected_tag(t.as_slice()),
        None => false,
    };
    if schema_mismatch || !known {
        RejectReason::Unsupported
    } else {
        RejectReason::MalformedKnown
    }
}

/// The metadata of the bridge record in `line`: none without a record or
/// when its payload is not JSON; else as [`metadata_matches`] reads the
/// payload's fields.
pub fn parse_bridge_metadata(line: &str) -> (r: Option<BridgeMetadata>)
    ensures
        match record_payload_of(line@) {
            None => r is None,
            Some(p) => match json_metadata(p) {
                None => r is None,
                Some(raw) => metadata_matches(r, raw),
            },
        },
{
    let payload = match record_payload(line) {
        Some(p) => p,
        None => return None,
    };
    match read_raw_metadata(payload.as_str()) {
        Some(raw) => metadata_from_raw(raw),
        None => None,
    }
}

/// Why the bridge record in `line` was not turned into an event, with the
/// event it names; none without a record. A payload that is not JSON is
/// malformed.
pub fn rejection_reason(line: &str) -> (r: Option<(RejectReason, Option<String>)>)
    ensures
        match record_payload_of(line@) {
            None => r is None,
            Some(p) => match json_metadata(p) {
                None => r matches Some((reason, event)) && reason == reject_reason(false, None, None)
                    && event is None,
                Some(raw) => r matches Some((reason, event)) && reason == reject_reason(true, raw.1, raw.0) && (
                match event {
                    Some(e) => Some(e@),
                    None => None,
                }) == raw.1,
            },
        },
{
    let payload = match record_payload(line) {
        Some(p) => p,
        None => return None,
    };
    match read_raw_metadata(payload.as_str()) {
        None => Some((classify_rejected(false, None, None), None)),
        Some(raw) => {
            let reason = match &raw.event {
                Some(e) => classify_rejected(true, Some(e.as_str()), raw.schema),
                None => classify_rejected(true, None, raw.schema),
            };
            Some((reason, raw.event))
        },
    }
}

} // verus!
