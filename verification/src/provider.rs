//! The connection settings the user enters for Lovense, the toys it exposes
//! as targets, and the plain-language explanation of each failure.
use vstd::prelude::*;

use crate::dispatch::ResolvedAction;
use crate::lovense::{error_text, Connection, Error as LovenseError, Toy};
use crate::text::{is_blank, push_str, trim, trimmed};

verus! {

pub const TEST_VIBRATE_STRENGTH: u8 = 8;
pub const TEST_VIBRATE_DURATION_SECS: u32 = 1;

/// The Lovense endpoint as entered by the user.
#[derive(Clone, Debug, PartialEq, Eq)]
pub struct LovenseSetup {
    pub domain: String,
    pub http_port: u16,
}

impl Default for LovenseSetup {
    /// The default endpoint of the Lovense connection.
    fn default() -> (r: Self)
        ensures
            r.domain@ == "127-0-0-1.lovense.club"@,
            r.http_port == crate::lovense::DEFAULT_HTTP_PORT,
    {
        let connection = Connection::default();
        LovenseSetup { domain: connection.domain().to_owned(), http_port: connection.http_port() }
    }
}

impl LovenseSetup {
    /// The same setup with whitespace trimmed from the domain.
    pub fn normalized(&self) -> (r: Self)
        ensures
            r.domain@ == trim(self.domain@),
            r.http_port == self.http_port,
    {
        LovenseSetup { domain: trimmed(self.domain.as_str()), http_port: self.http_port }
    }

    /// Whether both a domain and a port are set.
    pub fn present(&self) -> (r: bool)
        ensures
            r == (trim(self.domain@).len() > 0 && self.http_port != 0),
    {
        !is_blank(self.domain.as_str()) && self.http_port != 0
    }

    /// The connection this setup describes.
    pub fn connection(&self) -> (r: Connection)
        ensures
            r.spec_domain() == trim(trim(self.domain@)),
            r.spec_http_port() == self.http_port,
    {
        let domain = trimmed(self.domain.as_str());
        Connection::new(domain.as_str(), self.http_port)
    }
}

#[derive(Clone, Debug, PartialEq, Eq)]
pub struct ProviderSettings {
    pub lovense: LovenseSetup,
}

impl Default for ProviderSettings {
    fn default() -> (r: Self)
        ensures
            r.lovense.domain@ == "127-0-0-1.lovense.club"@,
            r.lovense.http_port == crate::lovense::DEFAULT_HTTP_PORT,
    {
        ProviderSettings { lovense: LovenseSetup::default() }
    }
}

impl ProviderSettings {
    pub fn present(&self) -> (r: bool)
        ensures
            r == (trim(self.lovense.domain@).len() > 0 && self.lovense.http_port != 0),
    {
        self.lovense.present()
    }

    pub fn normalize(&mut self)
        ensures
            final(self).lovense.domain@ == trim(old(self).lovense.domain@),
            final(self).lovense.http_port == old(self).lovense.http_port,
    {
        self.lovense = self.lovense.normalized();
    }
}

/// A toy that actions can be aimed at.
#[derive(Clone, Debug)]
pub struct ProviderTarget {
    id: String,
    name: String,
    toy: Option<Toy>,
}

impl ProviderTarget {
    pub closed spec fn spec_id(&self) -> Seq<char> {
        self.id@
    }

    pub closed spec fn spec_name(&self) -> Seq<char> {
        self.name@
    }

    pub closed spec fn spec_toy(&self) -> Option<Toy> {
        self.toy
    }

    pub fn id(&self) -> (r: &String)
        ensures
            r@ == self.spec_id(),
    {
        &self.id
    }

    pub fn name(&self) -> (r: &str)
        ensures
            r@ == self.spec_name(),
    {
        self.name.as_str()
    }

    /// The toy this target drives, when it came from the Lovense app.
    pub fn toy(&self) -> (r: Option<&Toy>)
        ensures
            r is Some == self.spec_toy() is Some,
            r matches Some(t) ==> self.spec_toy() == Some(*t),
    {
        self.toy.as_ref()
    }

    /// A target with no toy behind it.
    pub fn new(id: &str, name: &str) -> (r: Self)
        ensures
            r.spec_id() == id@,
            r.spec_name() == name@,
            r.spec_toy() is None,
    {
        ProviderTarget { id: id.to_owned(), name: name.to_owned(), toy: None }
    }
}

impl PartialEq for ProviderTarget {
    fn eq(&self, other: &Self) -> (r: bool) {
        self.id == other.id && self.name == other.name
    }
}

impl vstd::std_specs::cmp::PartialEqSpecImpl for ProviderTarget {
    open spec fn obeys_eq_spec() -> bool {
        true
    }

    open spec fn eq_spec(&self, other: &ProviderTarget) -> bool {
        self.spec_id() == other.spec_id() && self.spec_name() == other.spec_name()
    }
}

impl Eq for ProviderTarget {
}

/// The target for a toy reported by the Lovense app.
pub fn target_from_lovense(toy: Toy) -> (r: ProviderTarget)
    ensures
        r.spec_id() == toy.id@,
        r.spec_name() == toy.name@,
        r.spec_toy() == Some(toy),
{
    ProviderTarget { id: toy.id.clone(), name: toy.name.clone(), toy: Some(toy) }
}

#[derive(Clone, Debug, PartialEq, Eq)]
pub enum ProviderError {
    Lovense(LovenseError),
    InvalidSetup,
    NotConnected,
}

/// The technical text of an error, as it is logged.
pub open spec fn provider_error_text(e: ProviderError) -> Seq<char> {
    match e {
        ProviderError::Lovense(inner) => "Lovense: "@ + error_text(inner),
        ProviderError::InvalidSetup => "Lovense setup is invalid"@,
        ProviderError::NotConnected => "Lovense is not connected"@,
    }
}

/// The plain-language explanation shown in the UI.
pub open spec fn user_text(e: ProviderError) -> Seq<char> {
    match e {
        ProviderError::Lovense(LovenseError::EmptyDomain) => "Enter a connection domain first."@,
        ProviderError::Lovense(LovenseError::Transport(_)) => "Can't reach the Lovense app. Is Game Mode on?"@,
        ProviderError::Lovense(LovenseError::HttpStatus(_)) => "Lovense app didn't respond as expected."@,
        ProviderError::Lovense(LovenseError::Decode { .. }) => "Got an unexpected response from Lovense."@,
        ProviderError::Lovense(LovenseError::CommandRejected { message }) => "Lovense rejected the request: "@
            + message@,
        ProviderError::Lovense(_) => provider_error_text(e),
        ProviderError::InvalidSetup => "Enter a domain and port first."@,
        ProviderError::NotConnected => "Not connected yet."@,
    }
}

impl ProviderError {
    pub fn message(&self) -> (r: String)
        ensures
            r@ == provider_error_text(*self),
    {
        match self {
            ProviderError::Lovense(inner) => {
                let mut out = String::new();
                push_str(&mut out, "Lovense: ");
                let detail = inner.message();
                push_str(&mut out, detail.as_str());
                out
            },
            ProviderError::InvalidSetup => "Lovense setup is invalid".to_owned(),
            ProviderError::NotConnected => "Lovense is not connected".to_owned(),
        }
    }

    /// A plain-language explanation suitable for display in the UI; the
    /// technical [`message`](Self::message) is what gets logged.
    pub fn user_message(&self) -> (r: String)
        ensures
            r@ == user_text(*self),
    {
        match self {
            ProviderError::Lovense(LovenseError::EmptyDomain) => "Enter a connection domain first.".to_owned(),
            ProviderError::Lovense(LovenseError::Transport(_)) => "Can't reach the Lovense app. Is Game Mode on?".to_owned(),
            ProviderError::Lovense(LovenseError::HttpStatus(_)) => "Lovense app didn't respond as expected.".to_owned(),
            ProviderError::Lovense(LovenseError::Decode { .. }) => "Got an unexpected response from Lovense.".to_owned(),
            ProviderError::Lovense(LovenseError::CommandRejected { message }) => {
                let mut out = String::new();
                push_str(&mut out, "Lovense rejected the request: ");
                push_str(&mut out, message.as_str());
                out
            },
            ProviderError::Lovense(_) => self.message(),
            ProviderError::InvalidSetup => "Enter a domain and port first.".to_owned(),
            ProviderError::NotConnected => "Not connected yet.".to_owned(),
        }
    }
}

impl From<LovenseError> for ProviderError {
    fn from(e: LovenseError) -> (r: Self) {
        ProviderError::Lovense(e)
    }
}

impl vstd::std_specs::convert::FromSpecImpl<LovenseError> for ProviderError {
    open spec fn obeys_from_spec() -> bool {
        true
    }

    open spec fn from_spec(e: LovenseError) -> ProviderError {
        ProviderError::Lovense(e)
    }
}

/// How the resting level is put on the toy.
#[derive(Clone, Copy, Debug, PartialEq, Eq)]
pub enum RestingCommand {
    /// A level of 0 stops the toy instead of sending a zero-strength vibration.
    Stop,
    Steady(u8),
}

pub fn resting_command(strength: u8) -> (r: RestingCommand)
    ensures
        strength == 0 ==> r == RestingCommand::Stop,
        strength != 0 ==> r == RestingCommand::Steady(strength),
{
    if strength == 0 {
        RestingCommand::Stop
    } else {
        RestingCommand::Steady(strength)
    }
}

/// A duration in whole seconds, when it is one: a second or more with no
/// fraction of a second left over.
pub fn whole_second_duration(duration_ms: u64) -> (r: Option<u32>)
    ensures
        r == whole_second_duration_spec(duration_ms),
{
    if duration_ms >= 1000 && duration_ms % 1000 == 0 {
        let q = duration_ms / 1000;
        Some(
            if q > u32::MAX as u64 {
                u32::MAX
            } else {
                q as u32
            },
        )
    } else {
        None
    }
}

/// How a resolved effect is played on the toy.
#[derive(Clone, Copy, Debug, PartialEq, Eq, Structural)]
pub enum ActionPlan {
    /// The toy's own timed command, for a whole number of seconds.
    Timed { strength: u8, duration_secs: u32 },
    /// A steady level held for `hold_ms` and then an explicit stop, for a
    /// duration the timed command cannot express.
    HoldThenStop { strength: u8, hold_ms: u64 },
}

pub fn action_plan(action: ResolvedAction) -> (r: ActionPlan)
    ensures
        match whole_second_duration_spec(action.duration_ms) {
            Some(s) => r == ActionPlan::Timed { strength: action.strength, duration_secs: s },
            None => r == ActionPlan::HoldThenStop { strength: action.strength, hold_ms: action.duration_ms },
        },
{
    match whole_second_duration(action.duration_ms) {
        Some(s) => ActionPlan::Timed { strength: action.strength, duration_secs: s },
        None => ActionPlan::HoldThenStop { strength: action.strength, hold_ms: action.duration_ms },
    }
}

pub open spec fn whole_second_duration_spec(duration_ms: u64) -> Option<u32> {
    if duration_ms >= 1000 && duration_ms % 1000 == 0 {
        Some(
            if duration_ms / 1000 > u32::MAX {
                u32::MAX
            } else {
                (duration_ms / 1000) as u32
            },
        )
    } else {
        None
    }
}

/// Refuses a setup without a domain or a port before anything is sent.
pub fn checked_connection(setup: &LovenseSetup) -> (r: Result<Connection, ProviderError>)
    ensures
        r is Ok <==> (trim(setup.domain@).len() > 0 && setup.http_port != 0),
        r is Err ==> r == Err::<Connection, ProviderError>(ProviderError::InvalidSetup),
        r matches Ok(c) ==> c.spec_domain() == trim(trim(setup.domain@)) && c.spec_http_port() == setup.http_port,
{
    if !setup.present() {
        return Err(ProviderError::InvalidSetup);
    }
    Ok(setup.connection())
}

/// The timed command is chosen only for an exact whole number of seconds,
/// at least one: a duration under a second, or one with a fraction of a
/// second, is held steady and then stopped; a whole number of seconds is
/// sent as that many seconds (up to the largest count the command carries).
pub proof fn lemma_timed_only_for_whole_seconds(duration_ms: u64)
    ensures
        whole_second_duration_spec(duration_ms) matches Some(s) ==> {
            &&& s >= 1
            &&& duration_ms >= 1000
            &&& duration_ms % 1000 == 0
            &&& (duration_ms <= 1000 * (u32::MAX as u64) ==> s as u64 * 1000 == duration_ms)
        },
        duration_ms < 1000 ==> whole_second_duration_spec(duration_ms) is None,
        duration_ms % 1000 != 0 ==> whole_second_duration_spec(duration_ms) is None,
        duration_ms >= 1000 && duration_ms % 1000 == 0 ==> whole_second_duration_spec(duration_ms) is Some,
{
}

} // verus!
