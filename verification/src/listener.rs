//! The console-log listener's bookkeeping: what its status reports, how a
//! phase change is recorded, where in the log reading stands, and how a
//! line read from the log is told apart.
use vstd::prelude::*;

use crate::bridge::{BridgeMetadata, ModVersionObservation, BRIDGE_RECORD_PREFIX};
use crate::text::push_str;
use crate::lines::{
    checkpoint_of, consume_bytes, lines_view, split_run, split_state_ok, strip_cr, update_checkpoint,
    SplitState, TAIL_CHECKPOINT_BYTES,
};

verus! {

/// How long the listener waits between two looks at the log.
pub const POLL_INTERVAL_MS: u64 = 20;
/// The most bytes read from the log in one go.
pub const READ_BUFFER_BYTES: usize = 16384;
/// How far back from its end the log is searched for the mod's metadata
/// when the listener attaches.
pub const HISTORICAL_SCAN_BYTES: usize = 65536;

#[derive(Clone, Copy, Debug, PartialEq, Eq, Structural)]
pub enum ListenerPhase {
    Stopped,
    WaitingForFile,
    Listening,
    Failed,
}

impl Default for ListenerPhase {
    fn default() -> (r: Self)
        ensures
            r == ListenerPhase::Stopped,
    {
        ListenerPhase::Stopped
    }
}

/// What the listener reports. Times are milliseconds on a monotonic clock.
#[derive(Clone, Debug)]
pub struct ListenerStatus {
    pub phase: ListenerPhase,
    pub configured_path: Option<String>,
    pub current_error: Option<String>,
    /// When bytes last arrived.
    pub last_activity_ms: Option<u64>,
    /// When an event was last handed to a subscriber.
    pub last_event_ms: Option<u64>,
    pub mod_version: ModVersionObservation,
    /// When the listener last entered `Listening`.
    pub listening_since_ms: Option<u64>,
}

impl Default for ListenerStatus {
    fn default() -> (r: Self)
        ensures
            r.phase == ListenerPhase::Stopped,
            r.configured_path is None,
            r.current_error is None,
            r.last_activity_ms is None,
            r.last_event_ms is None,
            r.mod_version == ModVersionObservation::Unknown,
            r.listening_since_ms is None,
    {
        ListenerStatus {
            phase: ListenerPhase::Stopped,
            configured_path: None,
            current_error: None,
            last_activity_ms: None,
            last_event_ms: None,
            mod_version: ModVersionObservation::Unknown,
            listening_since_ms: None,
        }
    }
}

/// Time gone by since `then`; a clock that never runs backwards gives no
/// less than zero.
pub open spec fn elapsed(then: u64, now: u64) -> u64 {
    if now >= then {
        (now - then) as u64
    } else {
        0
    }
}

pub open spec fn text_view(o: Option<String>) -> Option<Seq<char>> {
    match o {
        Some(s) => Some(s@),
        None => None,
    }
}

fn same_text(a: &Option<String>, b: &Option<String>) -> (r: bool)
    ensures
        r == (text_view(*a) == text_view(*b)),
{
    match (a, b) {
        (Some(x), Some(y)) => x.eq(y),
        (None, None) => true,
        _ => false,
    }
}

impl ListenerStatus {
    pub fn is_listening(&self) -> (r: bool)
        ensures
            r == (self.phase == ListenerPhase::Listening),
    {
        self.phase == ListenerPhase::Listening
    }

    /// How long ago bytes last arrived.
    pub fn idle_for(&self, now_ms: u64) -> (r: Option<u64>)
        ensures
            r == match self.last_activity_ms {
                Some(t) => Some(elapsed(t, now_ms)),
                None => None,
            },
    {
        match self.last_activity_ms {
            Some(t) => Some(
                if now_ms >= t {
                    now_ms - t
                } else {
                    0
                },
            ),
            None => None,
        }
    }

    /// Listening, with bytes arrived no longer than `maximum_idle_ms` ago.
    pub fn is_live(&self, maximum_idle_ms: u64, now_ms: u64) -> (r: bool)
        ensures
            r == (self.last_activity_ms matches Some(t) && self.phase == ListenerPhase::Listening && elapsed(
                t,
                now_ms,
            ) <= maximum_idle_ms),
    {
        match self.idle_for(now_ms) {
            Some(idle) => self.is_listening() && idle <= maximum_idle_ms,
            None => false,
        }
    }

    /// How long the listener has been attached without a single byte
    /// arriving: only while listening and before anything arrived.
    pub fn silent_since_attach(&self, now_ms: u64) -> (r: Option<u64>)
        ensures
            r == if self.phase != ListenerPhase::Listening || self.last_activity_ms is Some {
                None
            } else {
                match self.listening_since_ms {
                    Some(t) => Some(elapsed(t, now_ms)),
                    None => None,
                }
            },
    {
        if self.phase != ListenerPhase::Listening || self.last_activity_ms.is_some() {
            return None;
        }
        match self.listening_since_ms {
            Some(t) => Some(
                if now_ms >= t {
                    now_ms - t
                } else {
                    0
                },
            ),
            None => None,
        }
    }

    /// Records a phase and its error. Nothing changes when both are as
    /// before; entering `Listening` starts the silence clock, and leaving it
    /// stops the clock. Returns whether anything changed.
    pub fn set_phase(&mut self, phase: ListenerPhase, current_error: Option<String>, now_ms: u64) -> (changed:
        bool)
        ensures
            changed == (old(self).phase != phase || text_view(old(self).current_error) != text_view(
                current_error,
            )),
            !changed ==> *final(self) == *old(self),
            changed ==> {
                &&& final(self).phase == phase
                &&& final(self).current_error == current_error
                &&& final(self).listening_since_ms == if phase == ListenerPhase::Listening {
                    if old(self).phase != ListenerPhase::Listening {
                        Some(now_ms)
                    } else {
                        old(self).listening_since_ms
                    }
                } else {
                    None::<u64>
                }
                &&& final(self).configured_path == old(self).configured_path
                &&& final(self).last_activity_ms == old(self).last_activity_ms
                &&& final(self).last_event_ms == old(self).last_event_ms
                &&& final(self).mod_version == old(self).mod_version
            },
    {
        let phase_changed = self.phase != phase;
        let error_changed = !same_text(&self.current_error, &current_error);
        if !phase_changed && !error_changed {
            return false;
        }
        let previous = self.phase;
        self.phase = phase;
        self.current_error = current_error;
        if phase == ListenerPhase::Listening {
            if previous != ListenerPhase::Listening {
                self.listening_since_ms = Some(now_ms);
            }
        } else {
            self.listening_since_ms = None;
        }
        true
    }

    /// The status of a listener that was just started on `path`: listening
    /// when the log could be opened, else waiting for it; no error, no
    /// activity or event yet, and no mod version observed.
    pub fn started(&mut self, path: String, opened: bool, now_ms: u64)
        ensures
            final(self).phase == (if opened {
                ListenerPhase::Listening
            } else {
                ListenerPhase::WaitingForFile
            }),
            final(self).configured_path == Some(path),
            final(self).current_error is None,
            final(self).last_activity_ms is None,
            final(self).last_event_ms is None,
            final(self).mod_version == ModVersionObservation::Unknown,
            final(self).listening_since_ms == (if opened {
                Some(now_ms)
            } else {
                None::<u64>
            }),
    {
        self.phase = if opened {
            ListenerPhase::Listening
        } else {
            ListenerPhase::WaitingForFile
        };
        self.configured_path = Some(path);
        self.current_error = None;
        self.last_activity_ms = None;
        self.last_event_ms = None;
        self.mod_version = ModVersionObservation::Unknown;
        self.listening_since_ms = if opened {
            Some(now_ms)
        } else {
            None
        };
    }

    /// The status once the listener is stopped: no error, no mod version
    /// observed, not listening; the path and the times of the last activity
    /// and event are kept.
    pub fn stopped(&mut self)
        ensures
            final(self).phase == ListenerPhase::Stopped,
            final(self).current_error is None,
            final(self).mod_version == ModVersionObservation::Unknown,
            final(self).listening_since_ms is None,
            final(self).configured_path == old(self).configured_path,
            final(self).last_activity_ms == old(self).last_activity_ms,
            final(self).last_event_ms == old(self).last_event_ms,
    {
        self.phase = ListenerPhase::Stopped;
        self.current_error = None;
        self.mod_version = ModVersionObservation::Unknown;
        self.listening_since_ms = None;
    }

    /// The status when the listener's worker could not be started.
    pub fn start_failed(&mut self, error: String)
        ensures
            final(self).phase == ListenerPhase::Failed,
            final(self).current_error == Some(error),
            final(self).configured_path == old(self).configured_path,
            final(self).last_activity_ms == old(self).last_activity_ms,
            final(self).last_event_ms == old(self).last_event_ms,
            final(self).mod_version == old(self).mod_version,
            final(self).listening_since_ms == old(self).listening_since_ms,
    {
        self.phase = ListenerPhase::Failed;
        self.current_error = Some(error);
    }

    /// Forgets what was seen of the mod's version: the log it came from
    /// went away or was rewritten.
    pub fn clear_mod_observation(&mut self)
        ensures
            final(self).mod_version == ModVersionObservation::Unknown,
            final(self).phase == old(self).phase,
            final(self).configured_path == old(self).configured_path,
            final(self).current_error == old(self).current_error,
            final(self).last_activity_ms == old(self).last_activity_ms,
            final(self).last_event_ms == old(self).last_event_ms,
            final(self).listening_since_ms == old(self).listening_since_ms,
    {
        self.mod_version = ModVersionObservation::Unknown;
    }
}

/// Where reading the log stands: the offset reached, the checkpoint of the
/// last bytes before it, and the line splitter's state.
#[derive(Clone, Debug)]
pub struct LogTail {
    pub offset: u64,
    pub checkpoint: Vec<u8>,
    pub partial: Vec<u8>,
    pub discarding: bool,
}

impl LogTail {
    /// The checkpoint covers bytes before the offset, no more than its
    /// size, and the splitter's state is sound.
    pub open spec fn wf(&self) -> bool {
        &&& self.checkpoint@.len() <= self.offset
        &&& self.checkpoint@.len() <= TAIL_CHECKPOINT_BYTES
        &&& split_state_ok(SplitState { partial: self.partial@, discarding: self.discarding })
    }

    /// How many bytes before `offset` make the checkpoint of a freshly
    /// opened log.
    pub fn checkpoint_len_for(offset: u64) -> (r: usize)
        ensures
            r == if offset < TAIL_CHECKPOINT_BYTES {
                offset as usize
            } else {
                TAIL_CHECKPOINT_BYTES
            },
    {
        if offset < TAIL_CHECKPOINT_BYTES as u64 {
            offset as usize
        } else {
            TAIL_CHECKPOINT_BYTES
        }
    }

    /// A log opened at `offset`, with the bytes just before it as
    /// checkpoint.
    pub fn opened_at(offset: u64, checkpoint: Vec<u8>) -> (r: Self)
        requires
            checkpoint@.len() <= offset,
            checkpoint@.len() <= TAIL_CHECKPOINT_BYTES,
        ensures
            r.wf(),
            r.offset == offset,
            r.checkpoint@ == checkpoint@,
            r.partial@.len() == 0,
            !r.discarding,
    {
        LogTail { offset, checkpoint, partial: Vec::new(), discarding: false }
    }

    /// Starts over from the beginning of the log.
    pub fn reset(&mut self)
        ensures
            final(self).wf(),
            final(self).offset == 0,
            final(self).checkpoint@.len() == 0,
            final(self).partial@.len() == 0,
            !final(self).discarding,
    {
        self.offset = 0;
        self.checkpoint = Vec::new();
        self.partial = Vec::new();
        self.discarding = false;
    }

    /// Where the checkpoint starts in the log.
    pub fn checkpoint_start(&self) -> (r: u64)
        requires
            self.wf(),
        ensures
            r == self.offset - self.checkpoint@.len(),
    {
        self.offset - self.checkpoint.len() as u64
    }

    /// The log is shorter than what was already read of it.
    pub fn shrunk(&self, log_len: u64) -> (r: bool)
        ensures
            r == (log_len < self.offset),
    {
        log_len < self.offset
    }

    /// Whether the bytes now found where the checkpoint was taken are the
    /// checkpoint: a log that was rewritten shows other bytes there.
    pub fn checkpoint_matches(&self, current: &[u8]) -> (r: bool)
        ensures
            r == (current@ == self.checkpoint@),
    {
        if current.len() != self.checkpoint.len() {
            return false;
        }
        let mut i: usize = 0;
        while i < current.len()
            invariant
                current@.len() == self.checkpoint@.len(),
                i <= current@.len(),
                current@.take(i as int) == self.checkpoint@.take(i as int),
            decreases current@.len() - i,
        {
            if current[i] != self.checkpoint[i] {
                assert(current@[i as int] != self.checkpoint@[i as int]);
                return false;
            }
            assert(current@.take(i + 1) =~= current@.take(i as int).push(current@[i as int]));
            assert(self.checkpoint@.take(i + 1) =~= self.checkpoint@.take(i as int).push(
                self.checkpoint@[i as int],
            ));
            i += 1;
        }
        assert(current@.take(current@.len() as int) =~= current@);
        assert(self.checkpoint@.take(current@.len() as int) =~= self.checkpoint@);
        true
    }

    /// How many bytes to read next from a log of `log_len` bytes into a
    /// buffer of `buffer_len`: none once the end is reached.
    pub fn read_len(&self, log_len: u64, buffer_len: usize) -> (r: usize)
        ensures
            self.offset >= log_len ==> r == 0,
            self.offset < log_len ==> r as int == if log_len - self.offset < buffer_len {
                log_len - self.offset
            } else {
                buffer_len as int
            },
    {
        if self.offset >= log_len {
            return 0;
        }
        let remaining = log_len - self.offset;
        if remaining < buffer_len as u64 {
            remaining as usize
        } else {
            buffer_len
        }
    }

    /// Takes in bytes just read: the offset moves past them, the checkpoint
    /// moves over them, and the lines they complete are returned.
    pub fn after_read(&mut self, bytes: &[u8]) -> (lines: Vec<Vec<u8>>)
        requires
            old(self).wf(),
            old(self).offset + bytes@.len() <= u64::MAX,
        ensures
            final(self).wf(),
            final(self).offset == old(self).offset + bytes@.len(),
            final(self).checkpoint@ == checkpoint_of(old(self).checkpoint@ + bytes@),
            split_run(SplitState { partial: old(self).partial@, discarding: old(self).discarding }, bytes@) == (
            SplitState { partial: final(self).partial@, discarding: final(self).discarding },
            lines_view(lines@)),
    {
        let ghost before = SplitState { partial: self.partial@, discarding: self.discarding };
        self.offset = self.offset + bytes.len() as u64;
        update_checkpoint(&mut self.checkpoint, bytes);
        let lines = consume_bytes(&mut self.partial, &mut self.discarding, bytes);
        proof {
            crate::lines::lemma_split_state_ok(before, bytes@);
        }
        lines
    }
}

/// What a complete line of the log is to the listener.
#[derive(Clone, Debug, PartialEq, Eq)]
pub enum LogLine {
    /// A line without the record marker.
    Plain,
    /// A line with the record marker, as text.
    Record(String),
    /// A line with the record marker that is not valid UTF-8.
    InvalidUtf8Record,
}

/// `std::str::from_utf8`: the text of `bytes` when they are valid UTF-8.
#[verifier::external_body]
fn utf8_text(bytes: &[u8]) -> (r: Option<String>)
    ensures
        r is Some <==> vstd::utf8::valid_utf8(bytes@),
        r matches Some(s) ==> vstd::utf8::encode_utf8(s@) == bytes@,
{
    match std::str::from_utf8(bytes) {
        Ok(s) => Some(s.to_string()),
        Err(_) => None,
    }
}

/// `needle` occurs in `hay` at `i`.
pub open spec fn bytes_at(hay: Seq<u8>, needle: Seq<u8>, i: int) -> bool {
    0 <= i && i + needle.len() <= hay.len() && hay.subrange(i, i + needle.len()) == needle
}

pub open spec fn contains_bytes(hay: Seq<u8>, needle: Seq<u8>) -> bool {
    exists|i: int| bytes_at(hay, needle, i)
}

fn find_bytes(hay: &[u8], needle: &[u8]) -> (r: bool)
    ensures
        r == contains_bytes(hay@, needle@),
{
    if needle.len() > hay.len() {
        assert forall|i: int| !bytes_at(hay@, needle@, i) by {}
        return false;
    }
    let last = hay.len() - needle.len();
    let mut i: usize = 0;
    loop
        invariant
            hay@.len() <= usize::MAX,
            i <= last,
            last + needle@.len() == hay@.len(),
            forall|k: int| 0 <= k < i ==> !bytes_at(hay@, needle@, k),
        decreases last - i,
    {
        let mut j: usize = 0;
        let mut same = true;
        while j < needle.len()
            invariant
                hay@.len() <= usize::MAX,
                last + needle@.len() == hay@.len(),
                i <= last,
                j <= needle@.len(),
                same <==> hay@.subrange(i as int, i + j) =~= needle@.take(j as int),
            decreases needle@.len() - j,
        {
            let ghost was = same;
            if hay[i + j] != needle[j] {
                same = false;
            }
            assert(hay@.subrange(i as int, i + j + 1) =~= hay@.subrange(i as int, i + j as int).push(
                hay@[i + j],
            ));
            assert(needle@.take(j + 1) =~= needle@.take(j as int).push(needle@[j as int]));
            proof {
                if !same {
                    if was {
                        assert(hay@.subrange(i as int, i + j + 1)[j as int] != needle@.take(j + 1)[j as int]);
                    } else {
                        let d = choose|d: int|
                            0 <= d < j && hay@.subrange(i as int, i + j)[d] != needle@.take(j as int)[d];
                        assert(hay@.subrange(i as int, i + j + 1)[d] != needle@.take(j + 1)[d]);
                    }
                }
            }
            j += 1;
        }
        assert(needle@.take(needle@.len() as int) =~= needle@);
        if same {
            assert(bytes_at(hay@, needle@, i as int));
            return true;
        }
        if i == last {
            assert forall|k: int| !bytes_at(hay@, needle@, k) by {
                if 0 <= k && k < i {
                } else if k == i {
                }
            }
            return false;
        }
        i += 1;
    }
}

/// Tells a complete log line apart.
pub fn classify_line(line: &[u8]) -> (r: LogLine)
    ensures
        match r {
            LogLine::Plain => !contains_bytes(line@, vstd::utf8::encode_utf8(BRIDGE_RECORD_PREFIX@)),
            LogLine::Record(s) => contains_bytes(line@, vstd::utf8::encode_utf8(BRIDGE_RECORD_PREFIX@))
                && vstd::utf8::valid_utf8(line@) && vstd::utf8::encode_utf8(s@) == line@,
            LogLine::InvalidUtf8Record => contains_bytes(line@, vstd::utf8::encode_utf8(BRIDGE_RECORD_PREFIX@))
                && !vstd::utf8::valid_utf8(line@),
        },
{
    let marker = BRIDGE_RECORD_PREFIX.as_bytes();
    if !find_bytes(line, marker) {
        return LogLine::Plain;
    }
    match utf8_text(line) {
        Some(s) => LogLine::Record(s),
        None => LogLine::InvalidUtf8Record,
    }
}

/// Where the search for metadata starts: at most `HISTORICAL_SCAN_BYTES`
/// before `end`.
pub fn scan_start(end: u64) -> (r: u64)
    ensures
        r == if end >= HISTORICAL_SCAN_BYTES {
            (end - HISTORICAL_SCAN_BYTES) as u64
        } else {
            0
        },
{
    if end >= HISTORICAL_SCAN_BYTES as u64 {
        end - HISTORICAL_SCAN_BYTES as u64
    } else {
        0
    }
}

/// The pieces of `s` between newlines, as `slice::split` gives them: a
/// trailing newline leaves an empty last piece, and no newline at all
/// leaves `s` whole.
pub open spec fn pieces(s: Seq<u8>) -> Seq<Seq<u8>>
    decreases s.len(),
{
    if s.len() == 0 {
        seq![Seq::<u8>::empty()]
    } else {
        let p = pieces(s.drop_last());
        if s.last() == 10u8 {
            p.push(Seq::empty())
        } else {
            p.update(p.len() - 1, p.last().push(s.last()))
        }
    }
}

proof fn lemma_pieces_nonempty(s: Seq<u8>)
    ensures
        pieces(s).len() >= 1,
    decreases s.len(),
{
    if s.len() > 0 {
        lemma_pieces_nonempty(s.drop_last());
    }
}

/// The length of the part of `s` that ends with its last newline.
pub open spec fn complete_len(s: Seq<u8>) -> nat
    decreases s.len(),
{
    if s.len() == 0 {
        0
    } else if s.last() == 10u8 {
        s.len()
    } else {
        complete_len(s.drop_last())
    }
}

proof fn lemma_complete_len_bound(s: Seq<u8>)
    ensures
        complete_len(s) <= s.len(),
    decreases s.len(),
{
    if s.len() > 0 {
        lemma_complete_len_bound(s.drop_last());
    }
}

/// The lines of a window read from the end of the log that may carry
/// metadata, oldest first: only the lines ended by a newline in the window,
/// without their carriage return, and without the first one when the
/// window starts in the middle of the log, where it may be cut.
pub open spec fn tail_lines_of(window: Seq<u8>, starts_mid_file: bool) -> Seq<Seq<u8>> {
    let p = pieces(window.take(complete_len(window) as int));
    let kept = if starts_mid_file {
        p.drop_first()
    } else {
        p
    };
    kept.map_values(|l: Seq<u8>| strip_cr(l))
}

fn without_cr(line: &Vec<u8>) -> (r: Vec<u8>)
    ensures
        r@ == strip_cr(line@),
{
    let n = line.len();
    let end = if n > 0 && line[n - 1] == 13u8 {
        n - 1
    } else {
        n
    };
    let mut out: Vec<u8> = Vec::new();
    let mut i: usize = 0;
    while i < end
        invariant
            end <= n == line@.len(),
            i <= end,
            out@ == line@.take(i as int),
        decreases end - i,
    {
        out.push(line[i]);
        assert(line@.take(i as int).push(line@[i as int]) =~= line@.take(i + 1));
        i += 1;
    }
    assert(out@ =~= strip_cr(line@));
    out
}

/// The lines of a window read from the end of the log that may carry
/// metadata, oldest first.
pub fn tail_lines(window: &[u8], starts_mid_file: bool) -> (r: Vec<Vec<u8>>)
    ensures
        lines_view(r@) == tail_lines_of(window@, starts_mid_file),
{
    let ghost w = window@;
    let mut complete: usize = 0;
    let mut i: usize = 0;
    while i < window.len()
        invariant
            w == window@,
            i <= w.len(),
            complete == complete_len(w.take(i as int)),
        decreases w.len() - i,
    {
        assert(w.take(i + 1).drop_last() =~= w.take(i as int));
        if window[i] == 10u8 {
            complete = i + 1;
        }
        i += 1;
    }
    assert(w.take(w.len() as int) =~= w);
    proof {
        lemma_complete_len_bound(w);
    }
    let ghost c = w.take(complete as int);
    let mut raw: Vec<Vec<u8>> = Vec::new();
    raw.push(Vec::new());
    let mut k: usize = 0;
    while k < complete
        invariant
            w == window@,
            complete <= w.len(),
            c == w.take(complete as int),
            k <= complete,
            lines_view(raw@) == pieces(c.take(k as int)),
            raw@.len() >= 1,
        decreases complete - k,
    {
        assert(c.take(k + 1).drop_last() =~= c.take(k as int));
        assert(c.take(k + 1).last() == window@[k as int]);
        let b = window[k];
        if b == 10u8 {
            let ghost before = raw@;
            raw.push(Vec::new());
            assert(lines_view(raw@) =~= lines_view(before).push(Seq::empty()));
        } else {
            let last = raw.len() - 1;
            let ghost before = raw@;
            let mut piece = raw.pop().unwrap();
            piece.push(b);
            raw.push(piece);
            assert(lines_view(raw@) =~= lines_view(before).update(last as int, lines_view(before)[last as int].push(
                b,
            )));
        }
        k += 1;
    }
    assert(c.take(complete as int) =~= c);
    let first: usize = if starts_mid_file {
        1
    } else {
        0
    };
    let ghost p = pieces(c);
    let ghost kept = if starts_mid_file {
        p.drop_first()
    } else {
        p
    };
    let mut out: Vec<Vec<u8>> = Vec::new();
    let mut j: usize = first;
    while j < raw.len()
        invariant
            first <= j <= raw@.len(),
            lines_view(raw@) == p,
            kept == p.subrange(first as int, p.len() as int),
            first <= 1,
            raw@.len() >= 1,
            lines_view(out@) == kept.take(j - first).map_values(|l: Seq<u8>| strip_cr(l)),
        decreases raw@.len() - j,
    {
        let line = without_cr(&raw[j]);
        let ghost before = out@;
        out.push(line);
        assert(lines_view(out@) =~= lines_view(before).push(line@));
        assert(kept.take(j + 1 - first) =~= kept.take(j - first).push(p[j as int]));
        assert(kept.take(j + 1 - first).map_values(|l: Seq<u8>| strip_cr(l)) =~= kept.take(j - first).map_values(
            |l: Seq<u8>| strip_cr(l),
        ).push(strip_cr(p[j as int])));
        j += 1;
    }
    assert(kept.take(raw@.len() - first) =~= kept);
    out
}

/// The newest metadata among the lines searched, oldest first: the last
/// line that carried any.
pub fn newest_metadata(found: Vec<Option<BridgeMetadata>>) -> (r: Option<BridgeMetadata>)
    ensures
        r is None <==> forall|i: int| 0 <= i < found@.len() ==> found@[i] is None,
        r is Some ==> exists|i: int|
            0 <= i < found@.len() && found@[i] == r && forall|k: int| i < k < found@.len() ==> found@[k] is None,
{
    let ghost all = found@;
    let mut rest = found;
    while rest.len() > 0
        invariant
            all == found@,
            rest@ == all.take(rest@.len() as int),
            rest@.len() <= all.len(),
            forall|k: int| rest@.len() <= k < all.len() ==> all[k] is None,
        decreases rest@.len(),
    {
        let ghost n = rest@.len();
        let item = rest.pop().unwrap();
        assert(item == all[n - 1]);
        if item.is_some() {
            assert(0 <= n - 1 < all.len() && all[n - 1] == item && forall|k: int| n - 1 < k < all.len() ==> all[k] is None);
            assert(!(all[n - 1] is None));
            return item;
        }
        assert(rest@ =~= all.take(rest@.len() as int));
    }
    None
}

/// What one look at the log's path found.
#[derive(Clone, Copy, Debug, PartialEq, Eq)]
pub enum LogProbe {
    /// No file is there.
    Missing,
    /// The path could not be inspected.
    Uninspectable,
    /// Something other than a file is there.
    NotAFile,
    /// A file is there; `replaced` when it is not the file the listener
    /// has open.
    File { replaced: bool },
}

/// What went wrong while following the log.
#[derive(Clone, Copy, Debug, PartialEq, Eq)]
pub enum TailFailure {
    Inspect,
    NotAFile,
    Open,
    Truncation,
    Read,
}

/// What the worker does after looking at the log's path.
#[derive(Clone, Copy, Debug, PartialEq, Eq)]
pub struct ProbeStep {
    /// Forget the log it has open.
    pub close_log: bool,
    /// Read a log that appears later from its start.
    pub read_from_start: bool,
    /// Forget the mod version observed.
    pub clear_observation: bool,
    /// Enter this phase now, with this failure.
    pub phase: Option<(ListenerPhase, Option<TailFailure>)>,
    /// Open the log.
    pub open_log: bool,
}

/// The worker's reaction to a look at the path. A missing log is waited
/// for, and a log that appears later is read from its start; a path that
/// cannot be inspected or is not a file fails the listener; a replaced log
/// is closed and opened afresh; without an open log, the log is opened.
/// Every outcome but an unchanged file forgets the mod version observed.
pub open spec fn probe_step_of(probe: LogProbe, log_open: bool) -> ProbeStep {
    match probe {
        LogProbe::Missing => ProbeStep {
            close_log: true,
            read_from_start: true,
            clear_observation: true,
            phase: Some((ListenerPhase::WaitingForFile, None)),
            open_log: false,
        },
        LogProbe::Uninspectable => ProbeStep {
            close_log: false,
            read_from_start: false,
            clear_observation: true,
            phase: Some((ListenerPhase::Failed, Some(TailFailure::Inspect))),
            open_log: false,
        },
        LogProbe::NotAFile => ProbeStep {
            close_log: true,
            read_from_start: false,
            clear_observation: true,
            phase: Some((ListenerPhase::Failed, Some(TailFailure::NotAFile))),
            open_log: false,
        },
        LogProbe::File { replaced } => ProbeStep {
            close_log: replaced,
            read_from_start: false,
            clear_observation: replaced,
            phase: None,
            open_log: replaced || !log_open,
        },
    }
}

/// What the worker does after looking at the log's path (see
/// [`probe_step_of`]).
pub fn probe_step(probe: LogProbe, log_open: bool) -> (r: ProbeStep)
    ensures
        r == probe_step_of(probe, log_open),
{
    match probe {
        LogProbe::Missing => ProbeStep {
            close_log: true,
            read_from_start: true,
            clear_observation: true,
            phase: Some((ListenerPhase::WaitingForFile, None)),
            open_log: false,
        },
        LogProbe::Uninspectable => ProbeStep {
            close_log: false,
            read_from_start: false,
            clear_observation: true,
            phase: Some((ListenerPhase::Failed, Some(TailFailure::Inspect))),
            open_log: false,
        },
        LogProbe::NotAFile => ProbeStep {
            close_log: true,
            read_from_start: false,
            clear_observation: true,
            phase: Some((ListenerPhase::Failed, Some(TailFailure::NotAFile))),
            open_log: false,
        },
        LogProbe::File { replaced } => ProbeStep {
            close_log: replaced,
            read_from_start: false,
            clear_observation: replaced,
            phase: None,
            open_log: replaced || !log_open,
        },
    }
}

/// After trying to open the log: whether to seed the mod version from the
/// log's recent history (only when it was opened at its end, because its
/// start could not be read), whether a log that appears later is still to
/// be read from its end, and the phase to enter.
pub fn open_step(opened: bool, skip_existing: bool) -> (r: (bool, bool, ListenerPhase, Option<TailFailure>))
    ensures
        opened ==> r == (skip_existing, false, ListenerPhase::Listening, None::<TailFailure>),
        !opened ==> r == (false, skip_existing, ListenerPhase::Failed, Some(TailFailure::Open)),
{
    if opened {
        (skip_existing, false, ListenerPhase::Listening, None)
    } else {
        (false, skip_existing, ListenerPhase::Failed, Some(TailFailure::Open))
    }
}

/// After checking the open log for truncation: whether to forget the mod
/// version observed (the log was started over, or could not be checked) and
/// the failure, when the check failed.
pub fn check_step(checked: bool, started_over: bool) -> (r: (bool, Option<TailFailure>))
    ensures
        r == (if checked {
            (started_over, None::<TailFailure>)
        } else {
            (true, Some(TailFailure::Truncation))
        }),
{
    if checked {
        (started_over, None)
    } else {
        (true, Some(TailFailure::Truncation))
    }
}

/// The phase after reading what the log holds.
pub fn read_step(read: bool) -> (r: (ListenerPhase, Option<TailFailure>))
    ensures
        r == (if read {
            (ListenerPhase::Listening, None::<TailFailure>)
        } else {
            (ListenerPhase::Failed, Some(TailFailure::Read))
        }),
{
    if read {
        (ListenerPhase::Listening, None)
    } else {
        (ListenerPhase::Failed, Some(TailFailure::Read))
    }
}

/// The error a failure is reported with, from the log's path and the
/// system's description of the error.
pub open spec fn failure_text(kind: TailFailure, path: Seq<char>, detail: Seq<char>) -> Seq<char> {
    match kind {
        TailFailure::Inspect => "could not inspect "@ + path + ": "@ + detail,
        TailFailure::NotAFile => path + " is not a file"@,
        TailFailure::Open => "could not open "@ + path + ": "@ + detail,
        TailFailure::Truncation => "could not check "@ + path + " for truncation: "@ + detail,
        TailFailure::Read => "could not read "@ + path + ": "@ + detail,
    }
}

/// The error a failure is reported with (see [`failure_text`]).
pub fn failure_message(kind: TailFailure, path: &str, detail: &str) -> (r: String)
    ensures
        r@ == failure_text(kind, path@, detail@),
{
    let mut out = String::new();
    match kind {
        TailFailure::Inspect => {
            push_str(&mut out, "could not inspect ");
            push_str(&mut out, path);
            push_str(&mut out, ": ");
            push_str(&mut out, detail);
        },
        TailFailure::NotAFile => {
            push_str(&mut out, path);
            push_str(&mut out, " is not a file");
        },
        TailFailure::Open => {
            push_str(&mut out, "could not open ");
            push_str(&mut out, path);
            push_str(&mut out, ": ");
            push_str(&mut out, detail);
        },
        TailFailure::Truncation => {
            push_str(&mut out, "could not check ");
            push_str(&mut out, path);
            push_str(&mut out, " for truncation: ");
            push_str(&mut out, detail);
        },
        TailFailure::Read => {
            push_str(&mut out, "could not read ");
            push_str(&mut out, path);
            push_str(&mut out, ": ");
            push_str(&mut out, detail);
        },
    }
    out
}

} // verus!
