//! The local Lovense Standard API: where the app is reached, which commands
//! are sent to it and how its replies are judged. The HTTP exchange itself
//! happens outside the library.
use vstd::prelude::*;

use crate::text::{chars_of, decimal, is_blank, push_decimal, push_str, trim, trimmed};

verus! {

pub const MIN_STRENGTH: u8 = 0;
pub const MAX_STRENGTH: u8 = 20;
pub const MIN_DURATION_SECS: u32 = 1;
pub const MAX_DURATION_SECS: u32 = 600;
pub const DEFAULT_HTTP_PORT: u16 = 20010;

/// Where to reach the local Lovense Connect/Remote HTTP server.
#[derive(Clone, Debug, PartialEq, Eq)]
pub struct Connection {
    domain: String,
    http_port: u16,
}

impl Connection {
    pub closed spec fn spec_domain(&self) -> Seq<char> {
        self.domain@
    }

    pub closed spec fn spec_http_port(&self) -> u16 {
        self.http_port
    }

    /// A connection to `domain` (surrounding whitespace removed) on `http_port`.
    pub fn new(domain: &str, http_port: u16) -> (r: Self)
        ensures
            r.spec_domain() == trim(domain@),
            r.spec_http_port() == http_port,
    {
        Connection { domain: trimmed(domain), http_port }
    }

    /// Whether both a domain and a port are set.
    pub fn present(&self) -> (r: bool)
        ensures
            r == (trim(self.spec_domain()).len() > 0 && self.spec_http_port() != 0),
    {
        !is_blank(self.domain.as_str()) && self.http_port != 0
    }

    pub fn domain(&self) -> (r: &str)
        ensures
            r@ == self.spec_domain(),
    {
        self.domain.as_str()
    }

    pub fn http_port(&self) -> (r: u16)
        ensures
            r == self.spec_http_port(),
    {
        self.http_port
    }

    /// `http://<domain>:<port>`, the root the command endpoint hangs off.
    pub fn base_url(&self) -> (r: String)
        ensures
            r@ == "http://"@ + trim(self.spec_domain()) + ":"@ + decimal(self.spec_http_port() as nat),
    {
        let mut url = String::new();
        push_str(&mut url, "http://");
        let domain = trimmed(self.domain.as_str());
        push_str(&mut url, domain.as_str());
        push_str(&mut url, ":");
        push_decimal(&mut url, self.http_port as u64);
        url
    }
}

impl Default for Connection {
    /// The PC build of Lovense Remote with Game Mode enabled.
    fn default() -> (r: Self)
        ensures
            r.spec_domain() == "127-0-0-1.lovense.club"@,
            r.spec_http_port() == DEFAULT_HTTP_PORT,
    {
        Connection { domain: "127-0-0-1.lovense.club".to_owned(), http_port: DEFAULT_HTTP_PORT }
    }
}

/// A toy reported by the connected Lovense app.
#[derive(Clone, Debug, PartialEq, Eq)]
pub struct Toy {
    pub id: String,
    pub name: String,
    pub status_connected: bool,
    pub battery: Option<i64>,
}

#[derive(Clone, Debug, PartialEq, Eq)]
pub enum Error {
    EmptyDomain,
    Transport(String),
    HttpStatus(u16),
    Decode { operation: String },
    CommandRejected { message: String },
    NoToysAvailable,
    ToyNotFound,
    InvalidStrength,
    InvalidDuration,
}

/// The text each error is shown with.
pub open spec fn error_text(e: Error) -> Seq<char> {
    match e {
        Error::EmptyDomain => "Lovense connection domain must not be empty"@,
        Error::Transport(d) => "could not reach the Lovense app: "@ + d@,
        Error::HttpStatus(s) => "Lovense app returned HTTP status "@ + decimal(s as nat),
        Error::Decode { operation } => "invalid Lovense response for "@ + operation@,
        Error::CommandRejected { message } => "Lovense command was rejected: "@ + message@,
        Error::NoToysAvailable => "no toy is connected to the Lovense app"@,
        Error::ToyNotFound => "requested toy is not connected to the Lovense app"@,
        Error::InvalidStrength => "vibration strength must be between 0 and 20"@,
        Error::InvalidDuration => "vibration duration must be between 1 and 600 seconds"@,
    }
}

impl Error {
    pub fn message(&self) -> (r: String)
        ensures
            r@ == error_text(*self),
    {
        let mut out = String::new();
        match self {
            Error::EmptyDomain => push_str(&mut out, "Lovense connection domain must not be empty"),
            Error::Transport(d) => {
                push_str(&mut out, "could not reach the Lovense app: ");
                push_str(&mut out, d.as_str());
            },
            Error::HttpStatus(s) => {
                push_str(&mut out, "Lovense app returned HTTP status ");
                push_decimal(&mut out, *s as u64);
            },
            Error::Decode { operation } => {
                push_str(&mut out, "invalid Lovense response for ");
                push_str(&mut out, operation.as_str());
            },
            Error::CommandRejected { message } => {
                push_str(&mut out, "Lovense command was rejected: ");
                push_str(&mut out, message.as_str());
            },
            Error::NoToysAvailable => push_str(&mut out, "no toy is connected to the Lovense app"),
            Error::ToyNotFound => push_str(&mut out, "requested toy is not connected to the Lovense app"),
            Error::InvalidStrength => push_str(&mut out, "vibration strength must be between 0 and 20"),
            Error::InvalidDuration => push_str(&mut out, "vibration duration must be between 1 and 600 seconds"),
        }
        out
    }
}

/// Refuses a connection without a domain or a port before any request is
/// made over it.
pub fn require_domain(connection: &Connection) -> (r: Result<(), Error>)
    ensures
        r is Ok <==> (trim(connection.spec_domain()).len() > 0 && connection.spec_http_port() != 0),
        r is Err ==> r == Err::<(), Error>(Error::EmptyDomain),
{
    if !connection.present() {
        return Err(Error::EmptyDomain);
    }
    Ok(())
}

/// Accepts a strength from 0 to 20.
pub fn validate_strength(strength: u8) -> (r: Result<(), Error>)
    ensures
        r is Ok <==> MIN_STRENGTH <= strength <= MAX_STRENGTH,
        r is Err ==> r == Err::<(), Error>(Error::InvalidStrength),
{
    if MIN_STRENGTH <= strength && strength <= MAX_STRENGTH {
        Ok(())
    } else {
        Err(Error::InvalidStrength)
    }
}

/// Accepts a duration from 1 to 600 seconds.
pub fn validate_duration(duration_secs: u32) -> (r: Result<(), Error>)
    ensures
        r is Ok <==> MIN_DURATION_SECS <= duration_secs <= MAX_DURATION_SECS,
        r is Err ==> r == Err::<(), Error>(Error::InvalidDuration),
{
    if MIN_DURATION_SECS <= duration_secs && duration_secs <= MAX_DURATION_SECS {
        Ok(())
    } else {
        Err(Error::InvalidDuration)
    }
}

/// A `Function` command of the Standard API: `{"command": "Function",
/// "action": .., "apiVer": 1}`, plus `timeSec` and `toy` when present.
#[derive(Clone, Debug, PartialEq, Eq)]
pub struct FunctionCommand {
    pub action: String,
    pub time_sec: Option<u32>,
    pub toy: Option<String>,
    pub api_ver: u32,
}

pub open spec fn toy_id(toy: Option<&Toy>) -> Option<Seq<char>> {
    match toy {
        Some(t) => Some(t.id@),
        None => None,
    }
}

pub open spec fn command_toy(c: FunctionCommand) -> Option<Seq<char>> {
    match c.toy {
        Some(t) => Some(t@),
        None => None,
    }
}

pub fn function_command(action: &str, time_sec: Option<u32>, toy: Option<&Toy>) -> (r: FunctionCommand)
    ensures
        r.action@ == action@,
        r.time_sec == time_sec,
        command_toy(r) == toy_id(toy),
        r.api_ver == 1,
{
    let toy_id = match toy {
        Some(t) => Some(t.id.clone()),
        None => None,
    };
    FunctionCommand { action: action.to_owned(), time_sec, toy: toy_id, api_ver: 1 }
}

/// `All:<strength>`: drives every function the toy has at `strength`.
pub open spec fn all_action(strength: u8) -> Seq<char> {
    "All:"@ + decimal(strength as nat)
}

fn all_action_text(strength: u8) -> (r: String)
    ensures
        r@ == all_action(strength),
{
    let mut out = String::new();
    push_str(&mut out, "All:");
    push_decimal(&mut out, strength as u64);
    out
}

/// The command that runs `toy` (every toy when `None`) at `strength` for
/// `duration_secs`; the strength is checked first, then the duration.
pub fn vibrate_command(toy: Option<&Toy>, strength: u8, duration_secs: u32) -> (r: Result<FunctionCommand, Error>)
    ensures
        !(strength <= MAX_STRENGTH) ==> r == Err::<FunctionCommand, Error>(Error::InvalidStrength),
        strength <= MAX_STRENGTH && !(MIN_DURATION_SECS <= duration_secs <= MAX_DURATION_SECS)
            ==> r == Err::<FunctionCommand, Error>(Error::InvalidDuration),
        r matches Ok(c) ==> {
            &&& strength <= MAX_STRENGTH
            &&& MIN_DURATION_SECS <= duration_secs <= MAX_DURATION_SECS
            &&& c.action@ == all_action(strength)
            &&& c.time_sec == Some(duration_secs)
            &&& command_toy(c) == toy_id(toy)
            &&& c.api_ver == 1
        },
        (strength <= MAX_STRENGTH && MIN_DURATION_SECS <= duration_secs <= MAX_DURATION_SECS) ==> r is Ok,
{
    validate_strength(strength)?;
    validate_duration(duration_secs)?;
    let action = all_action_text(strength);
    Ok(function_command(action.as_str(), Some(duration_secs), toy))
}

/// The command that holds `toy` at `strength` with no time limit.
pub fn vibrate_steady_command(toy: Option<&Toy>, strength: u8) -> (r: Result<FunctionCommand, Error>)
    ensures
        r is Ok <==> strength <= MAX_STRENGTH,
        r is Err ==> r == Err::<FunctionCommand, Error>(Error::InvalidStrength),
        r matches Ok(c) ==> {
            &&& c.action@ == all_action(strength)
            &&& c.time_sec is None
            &&& command_toy(c) == toy_id(toy)
            &&& c.api_ver == 1
        },
{
    validate_strength(strength)?;
    let action = all_action_text(strength);
    Ok(function_command(action.as_str(), None, toy))
}

/// The command that stops every function of `toy`: a zero-length `Stop`.
pub fn stop_command(toy: Option<&Toy>) -> (r: FunctionCommand)
    ensures
        r.action@ == "Stop"@,
        r.time_sec == Some(0u32),
        command_toy(r) == toy_id(toy),
        r.api_ver == 1,
{
    function_command("Stop", Some(0), toy)
}

/// A field of the app's reply as it was found: missing, a string, or some
/// other JSON value.
#[derive(Clone, Debug, PartialEq, Eq)]
pub enum ReplyField {
    Absent,
    Text(String),
    Other,
}

/// The detail shown for a rejected command: the reply's `message` when it is
/// present (if it is not a string, no detail is known), else its `type`.
pub open spec fn reply_detail(message: ReplyField, kind: ReplyField) -> Seq<char> {
    match message {
        ReplyField::Text(m) => m@,
        ReplyField::Other => "unknown error"@,
        ReplyField::Absent => match kind {
            ReplyField::Text(t) => t@,
            _ => "unknown error"@,
        },
    }
}

/// Decimal text of a signed number.
pub open spec fn signed_decimal(n: int) -> Seq<char> {
    if n < 0 {
        "-"@ + decimal((-n) as nat)
    } else {
        decimal(n as nat)
    }
}

fn push_signed(out: &mut String, n: i64)
    ensures
        final(out)@ == old(out)@ + signed_decimal(n as int),
{
    if n < 0 {
        push_str(out, "-");
        let magnitude: u64 = ((-(n + 1)) as u64) + 1;
        push_decimal(out, magnitude);
    } else {
        push_decimal(out, n as u64);
    }
}

/// Judges a command reply: a `code` other than 200 rejects the command.
pub fn reply_outcome(code: Option<i64>, message: &ReplyField, kind: &ReplyField) -> (r: Result<(), Error>)
    ensures
        r is Ok <==> (code is None || code == Some(200i64)),
        r matches Err(e) ==> e matches Error::CommandRejected { message: m } && m@ == reply_detail(
            *message,
            *kind,
        ) + " (code "@ + signed_decimal(code.unwrap() as int) + ")"@,
{
    match code {
        Some(c) if c != 200 => {
            let mut text = String::new();
            match message {
                ReplyField::Text(m) => push_str(&mut text, m.as_str()),
                ReplyField::Other => push_str(&mut text, "unknown error"),
                ReplyField::Absent => match kind {
                    ReplyField::Text(t) => push_str(&mut text, t.as_str()),
                    _ => push_str(&mut text, "unknown error"),
                },
            }
            push_str(&mut text, " (code ");
            push_signed(&mut text, c);
            push_str(&mut text, ")");
            Err(Error::CommandRejected { message: text })
        },
        _ => Ok(()),
    }
}

/// A toy entry of the app's toy listing, as decoded from the wire.
#[derive(Clone, Debug, PartialEq, Eq)]
pub struct WireToy {
    pub id: String,
    pub name: Option<String>,
    pub nick_name: Option<String>,
    pub status: Option<String>,
    pub battery: Option<i64>,
}

/// The name a toy is shown under: its non-empty nickname, else its name,
/// else its id.
pub open spec fn wire_toy_name(w: WireToy) -> Seq<char> {
    match w.nick_name {
        Some(n) if n@.len() > 0 => n@,
        _ => match w.name {
            Some(n) => n@,
            None => w.id@,
        },
    }
}

/// A toy counts as connected when its status reads `"1"`.
pub open spec fn wire_toy_connected(w: WireToy) -> bool {
    w.status matches Some(s) && s@ == seq!['1']
}

impl WireToy {
    pub fn into_toy(self) -> (r: Toy)
        ensures
            r.id@ == self.id@,
            r.name@ == wire_toy_name(self),
            r.status_connected == wire_toy_connected(self),
            r.battery == self.battery,
    {
        let WireToy { id, name, nick_name, status, battery } = self;
        let shown = match nick_name {
            Some(n) if !n.as_str().is_empty() => n,
            other => {
                let n = match name {
                    Some(n) => n,
                    None => id.clone(),
                };
                proof {
                    if other is Some {
                        assert(other->0@.len() == 0);
                    }
                }
                n
            },
        };
        let connected = match &status {
            Some(s) => {
                let cs = chars_of(s.as_str());
                cs.len() == 1 && cs[0] == '1'
            },
            None => false,
        };
        proof {
            if status is Some {
                let s = status->0@;
                assert(s.len() == 1 && s[0] == '1' ==> s =~= seq!['1']);
            }
        }
        Toy { id, name: shown, status_connected: connected, battery }
    }
}

} // verus!
