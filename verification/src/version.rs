//! Versions of the companion and of the game-side mod: reading release
//! tags, comparing versions by semantic-version precedence, and choosing
//! which update warnings to show.
use vstd::prelude::*;

use crate::bridge::ModVersionObservation;
use crate::text::{chars_of, push_decimal, push_str, string_from_chars};

verus! {

#[verifier::external_type_specification]
#[verifier::external_body]
pub struct ExSemverVersion(semver::Version);

/// `Clone` of `semver::Version`. Nothing is claimed of the copy here: a
/// `SemVer` keeps the parts it was read with beside it.
pub assume_specification[ <semver::Version as Clone>::clone ](version: &semver::Version) -> semver::Version;

/// The parts of a version: major, minor, patch, the pre-release identifiers
/// and the build metadata, the last two as text.
pub type VersionParts = (u64, u64, u64, Seq<char>, Seq<char>);

/// A version as `semver::Version::parse` reads it. The parts are kept as
/// plain values beside the parsed version; a `SemVer` is only made by
/// [`SemVer::parse`] and by cloning one.
#[derive(Debug, PartialEq, Eq)]
pub struct SemVer {
    major: u64,
    minor: u64,
    patch: u64,
    pre: String,
    build: String,
    raw: semver::Version,
}

/// `v` is what `semver::Version::parse` makes of some text.
pub open spec fn is_version(v: VersionParts) -> bool {
    exists|t: Seq<char>| #[trigger] semver_parse(t) == Some(v)
}

impl SemVer {
    /// A `SemVer` holds a version that was read from text.
    #[verifier::type_invariant]
    spec fn read_from_text(self) -> bool {
        is_version(self@)
    }
}

impl View for SemVer {
    type V = VersionParts;

    closed spec fn view(&self) -> VersionParts {
        (self.major, self.minor, self.patch, self.pre@, self.build@)
    }
}

/// What `semver::Version::parse` makes of `text`: the parts of the version,
/// or nothing when it refuses the text.
pub uninterp spec fn semver_parse(text: Seq<char>) -> Option<VersionParts>;

/// `semver::Version::parse`, with the parts of the version it returns.
#[verifier::external_body]
fn parse_semver(text: &str) -> (r: Option<SemVer>)
    ensures
        match r {
            Some(v) => semver_parse(text@) == Some(v@),
            None => semver_parse(text@) is None,
        },
{
    match semver::Version::parse(text) {
        Ok(v) => Some(
            SemVer {
                major: v.major,
                minor: v.minor,
                patch: v.patch,
                pre: v.pre.as_str().to_string(),
                build: v.build.as_str().to_string(),
                raw: v,
            },
        ),
        Err(_) => None,
    }
}

/// Where the first identifier of a pre-release text ends: at its first
/// `.`, or at its end.
pub open spec fn dot_at(s: Seq<char>) -> nat
    decreases s.len(),
{
    if s.len() == 0 || s[0] == '.' {
        0
    } else {
        1 + dot_at(s.drop_first())
    }
}

pub proof fn lemma_dot_at(s: Seq<char>)
    ensures
        dot_at(s) <= s.len(),
        dot_at(s) < s.len() ==> s[dot_at(s) as int] == '.',
        forall|i: int| 0 <= i < dot_at(s) ==> s[i] != '.',
    decreases s.len(),
{
    if s.len() > 0 && s[0] != '.' {
        lemma_dot_at(s.drop_first());
        assert forall|i: int| 0 <= i < dot_at(s) implies s[i] != '.' by {
            if i > 0 {
                assert(s[i] == s.drop_first()[i - 1]);
            }
        }
    }
}

/// Every character is an ASCII digit.
pub open spec fn all_digits(s: Seq<char>) -> bool {
    forall|i: int| 0 <= i < s.len() ==> '0' <= #[trigger] s[i] <= '9'
}

/// Text order, character by character, a prefix first.
pub open spec fn text_order(a: Seq<char>, b: Seq<char>) -> int
    decreases a.len(),
{
    if a.len() == 0 {
        if b.len() == 0 { 0 } else { -1 }
    } else if b.len() == 0 {
        1
    } else if a[0] != b[0] {
        if a[0] < b[0] { -1 } else { 1 }
    } else {
        text_order(a.drop_first(), b.drop_first())
    }
}

/// Two pre-release identifiers: numeric ones by value (without leading
/// zeros, a longer one is larger), a numeric one before any other, others in
/// text order.
pub open spec fn identifier_order(a: Seq<char>, b: Seq<char>) -> int {
    if all_digits(a) && all_digits(b) {
        if a.len() != b.len() {
            if a.len() < b.len() { -1 } else { 1 }
        } else {
            text_order(a, b)
        }
    } else if all_digits(a) {
        -1
    } else if all_digits(b) {
        1
    } else {
        text_order(a, b)
    }
}

/// Two lists of dot-separated identifiers, compared identifier by
/// identifier; when all shared ones tie, the longer list is larger.
pub open spec fn identifiers_order(a: Seq<char>, b: Seq<char>) -> int
    decreases a.len(),
{
    let (i, j) = (dot_at(a), dot_at(b));
    let c = identifier_order(a.take(i as int), b.take(j as int));
    if c != 0 {
        c
    } else if i >= a.len() {
        if j >= b.len() { 0 } else { -1 }
    } else if j >= b.len() {
        1
    } else {
        proof {
            lemma_dot_at(a);
        }
        identifiers_order(a.skip(i + 1 as int), b.skip(j + 1 as int))
    }
}

/// How `semver::Version::cmp_precedence` orders two versions with the same
/// major, minor and patch, by their pre-release texts (-1, 0 or 1): a
/// release (no pre-release) after any pre-release; else the identifiers.
pub open spec fn prerelease_precedence(left: Seq<char>, right: Seq<char>) -> int {
    if left.len() == 0 && right.len() == 0 {
        0
    } else if left.len() == 0 {
        1
    } else if right.len() == 0 {
        -1
    } else {
        identifiers_order(left, right)
    }
}

/// Semantic-version precedence: major, minor and patch compared as numbers
/// in that order, then the pre-release identifiers; build metadata plays no
/// part. -1, 0 or 1 as `a` comes before, ties with or comes after `b`.
pub open spec fn precedence(a: VersionParts, b: VersionParts) -> int {
    if a.0 != b.0 {
        if a.0 < b.0 { -1 } else { 1 }
    } else if a.1 != b.1 {
        if a.1 < b.1 { -1 } else { 1 }
    } else if a.2 != b.2 {
        if a.2 < b.2 { -1 } else { 1 }
    } else {
        prerelease_precedence(a.3, b.3)
    }
}

pub open spec fn same_release(a: VersionParts, b: VersionParts) -> bool {
    a.0 == b.0 && a.1 == b.1 && a.2 == b.2
}

/// `semver::Version::cmp_precedence`, as -1, 0 or 1: the order
/// [`precedence`] states, as the crate's `Ord for Prerelease` computes it.
/// Being a total order, it is also antisymmetric and transitive: a version
/// that comes no later than `left` comes no later than `right` when `left`
/// comes no later than `right`.
#[verifier::external_body]
fn precedence_of(left: &SemVer, right: &SemVer) -> (r: i8)
    ensures
        r == precedence(left@, right@),
        r == -precedence(right@, left@),
        r <= 0 ==> forall|z: VersionParts|
            is_version(z) && #[trigger] precedence(z, left@) <= 0 ==> precedence(z, right@) <= 0,
{
    match left.raw.cmp_precedence(&right.raw) {
        std::cmp::Ordering::Less => -1,
        std::cmp::Ordering::Equal => 0,
        std::cmp::Ordering::Greater => 1,
    }
}

impl Clone for SemVer {
    fn clone(&self) -> (r: Self)
        ensures
            r@ == self@,
    {
        proof {
            use_type_invariant(self);
        }
        SemVer {
            major: self.major,
            minor: self.minor,
            patch: self.patch,
            pre: self.pre.clone(),
            build: self.build.clone(),
            raw: self.raw.clone(),
        }
    }
}

impl SemVer {
    /// Reads a version.
    pub fn parse(text: &str) -> (r: Option<SemVer>)
        ensures
            match r {
                Some(v) => semver_parse(text@) == Some(v@),
                None => semver_parse(text@) is None,
            },
    {
        parse_semver(text)
    }

    pub fn major(&self) -> (r: u64)
        ensures
            r == self@.0,
    {
        self.major
    }

    pub fn minor(&self) -> (r: u64)
        ensures
            r == self@.1,
    {
        self.minor
    }

    pub fn patch(&self) -> (r: u64)
        ensures
            r == self@.2,
    {
        self.patch
    }

    /// The pre-release identifiers as text, empty for a release.
    pub fn pre(&self) -> (r: &str)
        ensures
            r@ == self@.3,
    {
        self.pre.as_str()
    }

    /// The build metadata as text.
    pub fn build(&self) -> (r: &str)
        ensures
            r@ == self@.4,
    {
        self.build.as_str()
    }

    /// The version as it is written: `major.minor.patch`, then `-pre` and
    /// `+build` where they are not empty.
    pub fn text(&self) -> (r: String)
        ensures
            r@ == version_text(self@),
    {
        let mut out = String::new();
        push_decimal(&mut out, self.major);
        push_str(&mut out, ".");
        push_decimal(&mut out, self.minor);
        push_str(&mut out, ".");
        push_decimal(&mut out, self.patch);
        if !self.pre.as_str().is_empty() {
            push_str(&mut out, "-");
            push_str(&mut out, self.pre.as_str());
        }
        if !self.build.as_str().is_empty() {
            push_str(&mut out, "+");
            push_str(&mut out, self.build.as_str());
        }
        out
    }

    /// Comparison by precedence, as -1, 0 or 1.
    pub fn precedence(&self, other: &SemVer) -> (r: i8)
        ensures
            r == precedence(self@, other@),
    {
        precedence_of(self, other)
    }

    /// Whether `self` has lower precedence than `other`.
    pub fn is_older_than(&self, other: &SemVer) -> (r: bool)
        ensures
            r == (precedence(self@, other@) < 0),
    {
        precedence_of(self, other) < 0
    }
}

pub open spec fn version_text(v: VersionParts) -> Seq<char> {
    crate::text::decimal(v.0 as nat) + "."@ + crate::text::decimal(v.1 as nat) + "."@ + crate::text::decimal(
        v.2 as nat,
    ) + (if v.3.len() > 0 {
        "-"@ + v.3
    } else {
        Seq::empty()
    }) + (if v.4.len() > 0 {
        "+"@ + v.4
    } else {
        Seq::empty()
    })
}

/// The longest response body read from the release endpoint.
pub const MAX_RESPONSE_BYTES: usize = 65536;

/// Why the latest release could not be learned. The transport's own errors
/// arrive as their text, with what the client said of them.
#[derive(Clone, Debug, PartialEq, Eq)]
pub enum VersionCheckError {
    /// The request failed; `connect` and `timeout` tell whether it failed
    /// while connecting or by running out of time.
    Request { connect: bool, timeout: bool, detail: String },
    Read(String),
    /// A status outside 2xx, as the client writes it.
    HttpStatus(String),
    OversizedResponse,
    Malformed(String),
    InvalidTag(String),
    MissingTag,
    Client(String),
}

/// The short category of an error. A failure to connect counts as such even
/// where it also timed out.
pub open spec fn error_category(e: VersionCheckError) -> Seq<char> {
    match e {
        VersionCheckError::Request { connect, timeout, .. } => if connect {
            "connect"@
        } else if timeout {
            "timeout"@
        } else {
            "request"@
        },
        VersionCheckError::Read(_) => "body_read"@,
        VersionCheckError::HttpStatus(_) => "http_status"@,
        VersionCheckError::OversizedResponse => "oversized_response"@,
        VersionCheckError::Malformed(_) => "malformed_response"@,
        VersionCheckError::InvalidTag(_) => "invalid_tag"@,
        VersionCheckError::MissingTag => "missing_tag"@,
        VersionCheckError::Client(_) => "client"@,
    }
}

pub open spec fn version_check_error_text(e: VersionCheckError) -> Seq<char> {
    match e {
        VersionCheckError::Request { detail, .. } => "request failed: "@ + detail@,
        VersionCheckError::Read(d) => "response body read failed: "@ + d@,
        VersionCheckError::HttpStatus(s) => "latest release returned HTTP status "@ + s@,
        VersionCheckError::OversizedResponse => "latest release response exceeded "@ + crate::text::decimal(
            MAX_RESPONSE_BYTES as nat,
        ) + " bytes"@,
        VersionCheckError::Malformed(d) => "latest release response was malformed: "@ + d@,
        VersionCheckError::InvalidTag(t) => "latest release tag is invalid: "@ + t@,
        VersionCheckError::MissingTag => "latest release response omitted tag_name"@,
        VersionCheckError::Client(d) => "could not construct HTTP client: "@ + d@,
    }
}

impl VersionCheckError {
    pub fn category(&self) -> (r: &'static str)
        ensures
            r@ == error_category(*self),
    {
        match self {
            VersionCheckError::Request { connect, timeout, .. } => {
                if *connect {
                    "connect"
                } else if *timeout {
                    "timeout"
                } else {
                    "request"
                }
            },
            VersionCheckError::Read(_) => "body_read",
            VersionCheckError::HttpStatus(_) => "http_status",
            VersionCheckError::OversizedResponse => "oversized_response",
            VersionCheckError::Malformed(_) => "malformed_response",
            VersionCheckError::InvalidTag(_) => "invalid_tag",
            VersionCheckError::MissingTag => "missing_tag",
            VersionCheckError::Client(_) => "client",
        }
    }

    pub fn message(&self) -> (r: String)
        ensures
            r@ == version_check_error_text(*self),
    {
        let mut out = String::new();
        match self {
            VersionCheckError::Request { detail, .. } => {
                push_str(&mut out, "request failed: ");
                push_str(&mut out, detail.as_str());
            },
            VersionCheckError::Read(d) => {
                push_str(&mut out, "response body read failed: ");
                push_str(&mut out, d.as_str());
            },
            VersionCheckError::HttpStatus(s) => {
                push_str(&mut out, "latest release returned HTTP status ");
                push_str(&mut out, s.as_str());
            },
            VersionCheckError::OversizedResponse => {
                push_str(&mut out, "latest release response exceeded ");
                push_decimal(&mut out, MAX_RESPONSE_BYTES as u64);
                push_str(&mut out, " bytes");
            },
            VersionCheckError::Malformed(d) => {
                push_str(&mut out, "latest release response was malformed: ");
                push_str(&mut out, d.as_str());
            },
            VersionCheckError::InvalidTag(t) => {
                push_str(&mut out, "latest release tag is invalid: ");
                push_str(&mut out, t.as_str());
            },
            VersionCheckError::MissingTag => push_str(&mut out, "latest release response omitted tag_name"),
            VersionCheckError::Client(d) => {
                push_str(&mut out, "could not construct HTTP client: ");
                push_str(&mut out, d.as_str());
            },
        }
        out
    }
}

/// The version a release tag names: the tag is `v` and then a version of
/// at most 128 bytes.
pub open spec fn tag_version(tag: Seq<char>) -> Option<VersionParts> {
    if tag.len() > 0 && tag[0] == 'v' && tag.len() > 1 && vstd::utf8::encode_utf8(tag.subrange(1, tag.len() as int)).len()
        as usize <= 128 {
        semver_parse(tag.subrange(1, tag.len() as int))
    } else {
        None
    }
}

/// Reads a release tag such as `v0.2.0`. Any tag it cannot read is an
/// `InvalidTag` error that carries the whole tag.
pub fn normalize_release_tag(tag: &str) -> (r: Result<SemVer, VersionCheckError>)
    ensures
        match r {
            Ok(v) => tag_version(tag@) == Some(v@),
            Err(e) => tag_version(tag@) is None && (e matches VersionCheckError::InvalidTag(t) && t@ == tag@),
        },
{
    let cs = chars_of(tag);
    if cs.len() < 2 || cs[0] != 'v' {
        return Err(VersionCheckError::InvalidTag(string_from_chars(cs.as_slice())));
    }
    let mut rest: Vec<char> = Vec::new();
    let mut i: usize = 1;
    while i < cs.len()
        invariant
            1 <= i <= cs@.len(),
            rest@ == cs@.subrange(1, i as int),
        decreases cs@.len() - i,
    {
        rest.push(cs[i]);
        assert(cs@.subrange(1, i + 1) =~= cs@.subrange(1, i as int).push(cs@[i as int]));
        i += 1;
    }
    let version = string_from_chars(rest.as_slice());
    if version.as_str().len() > 128 {
        return Err(VersionCheckError::InvalidTag(string_from_chars(cs.as_slice())));
    }
    match parse_semver(version.as_str()) {
        Some(v) => Ok(v),
        None => Err(VersionCheckError::InvalidTag(string_from_chars(cs.as_slice()))),
    }
}

/// Checks the size of a response body.
pub fn check_body_size(len: usize) -> (r: Result<(), VersionCheckError>)
    ensures
        r is Ok <==> len <= MAX_RESPONSE_BYTES,
        r is Err ==> r == Err::<(), VersionCheckError>(VersionCheckError::OversizedResponse),
{
    if len > MAX_RESPONSE_BYTES {
        Err(VersionCheckError::OversizedResponse)
    } else {
        Ok(())
    }
}

/// Checks the HTTP status of the response: only a 2xx status goes on.
/// `status_text` is how the status is written in an error.
pub fn check_status(code: u16, status_text: String) -> (r: Result<(), VersionCheckError>)
    ensures
        r is Ok <==> 200 <= code <= 299,
        r is Err ==> r == Err::<(), VersionCheckError>(VersionCheckError::HttpStatus(status_text)),
{
    if 200 <= code && code <= 299 {
        Ok(())
    } else {
        Err(VersionCheckError::HttpStatus(status_text))
    }
}

/// The version named by a release's `tag_name`, which must be present.
pub fn release_version(tag_name: Option<String>) -> (r: Result<SemVer, VersionCheckError>)
    ensures
        tag_name is None ==> r == Err::<SemVer, VersionCheckError>(VersionCheckError::MissingTag),
        tag_name matches Some(t) ==> match r {
            Ok(v) => tag_version(t@) == Some(v@),
            Err(e) => tag_version(t@) is None && (e matches VersionCheckError::InvalidTag(x) && x@ == t@),
        },
{
    match tag_name {
        None => Err(VersionCheckError::MissingTag),
        Some(t) => normalize_release_tag(t.as_str()),
    }
}

/// Where the check of the latest release stands.
#[derive(Clone, Debug, PartialEq, Eq)]
pub enum VersionCheckState {
    Checking,
    Current { latest: SemVer },
    UpdateAvailable { latest: SemVer },
    Unavailable { reason: String },
}

/// The state a finished check leaves: an update when the latest release has
/// higher precedence than the running companion, else current; a failure is
/// kept as its category.
pub fn state_after_check(app: &SemVer, result: Result<SemVer, VersionCheckError>) -> (r: VersionCheckState)
    ensures
        match result {
            Ok(latest) => if precedence(app@, latest@) < 0 {
                r matches VersionCheckState::UpdateAvailable { latest: l } && l@ == latest@
            } else {
                r matches VersionCheckState::Current { latest: l } && l@ == latest@
            },
            Err(e) => r matches VersionCheckState::Unavailable { reason } && reason@ == error_category(e),
        },
{
    match result {
        Ok(latest) => {
            if app.is_older_than(&latest) {
                VersionCheckState::UpdateAvailable { latest }
            } else {
                VersionCheckState::Current { latest }
            }
        },
        Err(e) => {
            let mut reason = String::new();
            push_str(&mut reason, e.category());
            VersionCheckState::Unavailable { reason }
        },
    }
}

/// Which update warnings to show.
#[derive(Clone, Debug, PartialEq, Eq)]
pub struct WarningSelection {
    /// The newest version known.
    pub target: Option<SemVer>,
    /// The target, when the companion is older.
    pub companion_outdated: Option<SemVer>,
    /// The mod's version and the target, when the mod is older.
    pub mod_outdated: Option<(SemVer, SemVer)>,
    pub mod_legacy: bool,
    pub mod_invalid: bool,
}

/// The version the mod reported, when it reads as one.
pub open spec fn observed_parts(observation: ModVersionObservation) -> Option<VersionParts> {
    match observation {
        ModVersionObservation::Reported(v) => semver_parse(v@),
        _ => None,
    }
}

/// The later of two versions; of two that tie, the second.
pub open spec fn later_of(current: VersionParts, next: VersionParts) -> VersionParts {
    if precedence(current, next) > 0 {
        current
    } else {
        next
    }
}

/// The newest of the companion's version, the mod's and the latest
/// release's, where known; of those that tie, the one listed last.
pub open spec fn newest_known(
    app: VersionParts,
    observed: Option<VersionParts>,
    remote: Option<VersionParts>,
) -> VersionParts {
    let with_mod = match observed {
        Some(o) => later_of(app, o),
        None => app,
    };
    match remote {
        Some(r) => later_of(with_mod, r),
        None => with_mod,
    }
}

/// Chooses the update warnings: the target is the newest version known
/// (each known version is the target or comes no later than it), and the
/// companion and the mod are each flagged when they come before it; a legacy mod is
/// flagged as such, and a mod version that does not read as a version as
/// invalid.
pub fn select_warnings(
    app: &SemVer,
    mod_observation: &ModVersionObservation,
    remote: Option<&SemVer>,
) -> (r: WarningSelection)
    ensures
        ({
            let target = newest_known(
                app@,
                observed_parts(*mod_observation),
                match remote {
                    Some(v) => Some(v@),
                    None => None,
                },
            );
            &&& r.target matches Some(t) && t@ == target
            &&& (r.companion_outdated is Some <==> precedence(app@, target) < 0)
            &&& (r.companion_outdated matches Some(t) ==> t@ == target)
            &&& (r.mod_outdated is Some <==> (observed_parts(*mod_observation) matches Some(o) && precedence(
                o,
                target,
            ) < 0))
            &&& (r.mod_outdated matches Some((m, t)) ==> observed_parts(*mod_observation) == Some(m@) && t@
                == target)
            &&& (target == app@ || precedence(app@, target) <= 0)
            &&& (observed_parts(*mod_observation) matches Some(o) ==> target == o || precedence(o, target) <= 0)
            &&& (remote matches Some(v) ==> target == v@ || precedence(v@, target) <= 0)
        }),
        r.mod_legacy == (*mod_observation is Legacy),
        r.mod_invalid == (*mod_observation is Invalid || (mod_observation matches ModVersionObservation::Reported(
            v,
        ) && semver_parse(v@) is None)),
{
    let observed: Option<SemVer> = match mod_observation {
        ModVersionObservation::Reported(v) => SemVer::parse(v.as_str()),
        _ => None,
    };
    let reported_unparseable = match mod_observation {
        ModVersionObservation::Reported(_) => observed.is_none(),
        _ => false,
    };
    proof {
        use_type_invariant(app);
    }
    let mut target = app.clone();
    if let Some(o) = &observed {
        proof {
            use_type_invariant(o);
        }
        let c = precedence_of(&target, o);
        if c <= 0 {
            target = o.clone();
        }
    }
    proof {
        use_type_invariant(&target);
    }
    if let Some(rv) = remote {
        proof {
            use_type_invariant(rv);
        }
        let c = precedence_of(&target, rv);
        if c <= 0 {
            assert(precedence(app@, rv@) <= 0);
            target = rv.clone();
        }
    }
    let companion_outdated = if precedence_of(app, &target) < 0 {
        Some(target.clone())
    } else {
        None
    };
    let mod_outdated = match &observed {
        Some(o) => if precedence_of(o, &target) < 0 {
            Some((o.clone(), target.clone()))
        } else {
            None
        },
        None => None,
    };
    let mod_legacy = match mod_observation {
        ModVersionObservation::Legacy => true,
        _ => false,
    };
    let mod_invalid = match mod_observation {
        ModVersionObservation::Invalid => true,
        _ => reported_unparseable,
    };
    WarningSelection { target: Some(target), companion_outdated, mod_outdated, mod_legacy, mod_invalid }
}

} // verus!
