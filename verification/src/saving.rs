//! Keeping the saved state in step with the app: when a change is written
//! (after it has stood still for the debounce period, or at once on a flush
//! or a reset), what a failed write leaves behind, and the texts and names
//! used while loading and preserving a state file.
use vstd::prelude::*;

use crate::text::{chars_of, decimal, push_decimal, push_str, string_from_chars, trim, trimmed};

verus! {

/// The version of the state file this build reads and writes.
pub const SCHEMA_VERSION: u32 = 7;
/// How long a change must stand still before it is written.
pub const SAVE_DEBOUNCE_MS: u64 = 500;

#[derive(Clone, Copy, Debug, PartialEq, Eq, Structural)]
pub enum SaveReason {
    Autosave,
    Reset,
}

/// The save schedule of a state kept as its serialized text: what was last
/// written, what the app last showed, what waits to be written and why,
/// and when it is due. Times are milliseconds on a monotonic clock.
#[derive(Clone, Debug)]
pub struct SaveSchedule {
    pub saved: String,
    pub observed: String,
    pub pending: Option<String>,
    pub pending_reason: SaveReason,
    pub deadline_ms: Option<u64>,
    pub debounce_ms: u64,
    pub save_error: Option<String>,
}

/// A save schedule as texts.
pub struct ScheduleModel {
    pub saved: Seq<char>,
    pub observed: Seq<char>,
    pub pending: Option<Seq<char>>,
    pub reason: SaveReason,
    pub deadline: Option<u64>,
    pub debounce: u64,
}

pub open spec fn opt_text(o: Option<String>) -> Option<Seq<char>> {
    match o {
        Some(s) => Some(s@),
        None => None,
    }
}

/// The deadline is only ever set while a state waits to be written.
pub open spec fn model_ok(m: ScheduleModel) -> bool {
    m.deadline is Some ==> m.pending is Some
}

/// Showing `state` at `now`: a change from what was last shown is
/// scheduled `debounce` later, unless it goes back to what is saved, which
/// drops the pending write; a write still pending without a deadline (it
/// failed) is scheduled again. The second part tells whether the write is
/// due.
pub open spec fn observe_model(m: ScheduleModel, state: Seq<char>, now: u64) -> (ScheduleModel, bool) {
    let next = if state != m.observed {
        if state == m.saved {
            ScheduleModel { observed: state, pending: None, deadline: None, ..m }
        } else {
            ScheduleModel {
                observed: state,
                pending: Some(state),
                reason: SaveReason::Autosave,
                deadline: Some((now + m.debounce) as u64),
                ..m
            }
        }
    } else if m.pending is Some && m.deadline is None {
        ScheduleModel { deadline: Some((now + m.debounce) as u64), ..m }
    } else {
        m
    };
    (next, next.deadline matches Some(d) && d <= now)
}

impl SaveSchedule {
    pub open spec fn model(&self) -> ScheduleModel {
        ScheduleModel {
            saved: self.saved@,
            observed: self.observed@,
            pending: opt_text(self.pending),
            reason: self.pending_reason,
            deadline: self.deadline_ms,
            debounce: self.debounce_ms,
        }
    }

    /// The schedule of a state just loaded: a state that was migrated on
    /// load is written once the debounce period has passed.
    pub fn opened(state: String, migrated: bool, now_ms: u64) -> (r: Self)
        requires
            now_ms + SAVE_DEBOUNCE_MS <= u64::MAX,
        ensures
            model_ok(r.model()),
            r.saved@ == state@,
            r.observed@ == state@,
            opt_text(r.pending) == if migrated {
                Some(state@)
            } else {
                None
            },
            r.pending_reason == SaveReason::Autosave,
            r.deadline_ms == if migrated {
                Some((now_ms + SAVE_DEBOUNCE_MS) as u64)
            } else {
                None
            },
            r.debounce_ms == SAVE_DEBOUNCE_MS,
            r.save_error is None,
    {
        let pending = if migrated {
            Some(state.clone())
        } else {
            None
        };
        let deadline_ms = if migrated {
            Some(now_ms + SAVE_DEBOUNCE_MS)
        } else {
            None
        };
        SaveSchedule {
            saved: state.clone(),
            observed: state,
            pending,
            pending_reason: SaveReason::Autosave,
            deadline_ms,
            debounce_ms: SAVE_DEBOUNCE_MS,
            save_error: None,
        }
    }

    /// Takes in the state the app shows at `now` and tells whether the
    /// pending write is due. Going back to what is saved also clears the
    /// last save error.
    pub fn observe(&mut self, state: String, now_ms: u64) -> (due: bool)
        requires
            model_ok(old(self).model()),
            now_ms + old(self).debounce_ms <= u64::MAX,
        ensures
            model_ok(final(self).model()),
            (final(self).model(), due) == observe_model(old(self).model(), state@, now_ms),
            final(self).save_error == if state@ != old(self).observed@ && state@ == old(self).saved@ {
                None
            } else {
                old(self).save_error
            },
    {
        if !state.eq(&self.observed) {
            self.observed = state.clone();
            if state.eq(&self.saved) {
                self.pending = None;
                self.deadline_ms = None;
                self.save_error = None;
            } else {
                self.pending = Some(state);
                self.pending_reason = SaveReason::Autosave;
                self.deadline_ms = Some(now_ms + self.debounce_ms);
            }
        } else if self.pending.is_some() && self.deadline_ms.is_none() {
            self.deadline_ms = Some(now_ms + self.debounce_ms);
        }
        match self.deadline_ms {
            Some(d) => d <= now_ms,
            None => false,
        }
    }

    /// How long until the pending write is due.
    pub fn remaining_ms(&self, now_ms: u64) -> (r: Option<u64>)
        ensures
            r == match self.deadline_ms {
                Some(d) => Some(
                    if d >= now_ms {
                        (d - now_ms) as u64
                    } else {
                        0
                    },
                ),
                None => None,
            },
    {
        match self.deadline_ms {
            Some(d) => Some(
                if d >= now_ms {
                    d - now_ms
                } else {
                    0
                },
            ),
            None => None,
        }
    }

    /// A write of `state` succeeded.
    pub fn committed(&mut self, state: String)
        ensures
            final(self).saved == state,
            final(self).pending is None,
            final(self).deadline_ms is None,
            final(self).save_error is None,
            final(self).observed == old(self).observed,
            final(self).pending_reason == old(self).pending_reason,
            final(self).debounce_ms == old(self).debounce_ms,
    {
        self.saved = state;
        self.pending = None;
        self.deadline_ms = None;
        self.save_error = None;
    }

    /// A write of `state` failed with `error`: the state stays pending,
    /// without a deadline until the app shows a state again, and the error
    /// is kept as the user reads it.
    pub fn commit_failed(&mut self, state: String, reason: SaveReason, error: &str)
        ensures
            final(self).pending == Some(state),
            final(self).pending_reason == reason,
            final(self).deadline_ms is None,
            final(self).save_error matches Some(e) && e@ == save_error_text(reason, error@),
            final(self).saved == old(self).saved,
            final(self).observed == old(self).observed,
            final(self).debounce_ms == old(self).debounce_ms,
    {
        self.pending = Some(state);
        self.pending_reason = reason;
        self.deadline_ms = None;
        self.save_error = Some(save_error_message(reason, error));
    }

    /// An autosave that came due failed: it is tried again a debounce
    /// period later.
    pub fn retry_later(&mut self, now_ms: u64)
        requires
            now_ms + old(self).debounce_ms <= u64::MAX,
        ensures
            final(self).deadline_ms == Some((now_ms + old(self).debounce_ms) as u64),
            final(self).saved == old(self).saved,
            final(self).observed == old(self).observed,
            final(self).pending == old(self).pending,
            final(self).pending_reason == old(self).pending_reason,
            final(self).debounce_ms == old(self).debounce_ms,
            final(self).save_error == old(self).save_error,
    {
        self.deadline_ms = Some(now_ms + self.debounce_ms);
    }

    /// Whether a flush of `state` writes anything, and why: nothing when it
    /// is what is saved and nothing waits; otherwise at once, for the
    /// pending write's reason. The state is taken as the one shown.
    pub fn flush_reason(&mut self, state: String) -> (r: Option<SaveReason>)
        ensures
            r is None <==> (state@ == old(self).saved@ && old(self).pending is None),
            r is None ==> *final(self) == *old(self),
            r is Some ==> {
                &&& final(self).observed == state
                &&& r == Some(
                    if old(self).pending is Some {
                        old(self).pending_reason
                    } else {
                        SaveReason::Autosave
                    },
                )
                &&& final(self).saved == old(self).saved
                &&& final(self).pending == old(self).pending
                &&& final(self).pending_reason == old(self).pending_reason
                &&& final(self).deadline_ms == old(self).deadline_ms
                &&& final(self).save_error == old(self).save_error
            },
    {
        if state.eq(&self.saved) && self.pending.is_none() {
            return None;
        }
        let reason = if self.pending.is_some() {
            self.pending_reason
        } else {
            SaveReason::Autosave
        };
        self.observed = state;
        Some(reason)
    }

    /// A reset is written at once; the state is taken as the one shown.
    pub fn reset_shown(&mut self, state: String)
        ensures
            final(self).observed == state,
            final(self).saved == old(self).saved,
            final(self).pending == old(self).pending,
            final(self).pending_reason == old(self).pending_reason,
            final(self).deadline_ms == old(self).deadline_ms,
            final(self).save_error == old(self).save_error,
    {
        self.observed = state;
    }
}

/// A change is written once it has stood still for the debounce period,
/// and not before: after a change is shown at `t1`, showing the same state
/// again at `t2` finds the write due exactly when `t2 >= t1 + debounce`.
pub proof fn lemma_debounce(m: ScheduleModel, state: Seq<char>, t1: u64, t2: u64)
    requires
        state != m.observed,
        state != m.saved,
        t1 + m.debounce <= u64::MAX,
        t1 <= t2,
    ensures
        observe_model(m, state, t1).1 == (m.debounce == 0),
        observe_model(observe_model(m, state, t1).0, state, t2).1 == (t2 >= t1 + m.debounce),
        observe_model(observe_model(m, state, t1).0, state, t2).0 == observe_model(m, state, t1).0,
{
}

/// Going back to what is saved cancels a pending write.
pub proof fn lemma_revert_cancels(m: ScheduleModel, now: u64)
    requires
        m.saved != m.observed,
    ensures
        observe_model(m, m.saved, now).0.pending is None,
        !observe_model(m, m.saved, now).1,
{
}

/// What a failed write tells the user.
pub open spec fn save_error_text(reason: SaveReason, error: Seq<char>) -> Seq<char> {
    match reason {
        SaveReason::Autosave => "Could not save settings: "@ + error + " Changes remain unsaved and will be retried."@,
        SaveReason::Reset => "Current settings were reset in memory, but saved state could not be replaced: "@
            + error + " The previous disk state may return after restart."@,
    }
}

pub fn save_error_message(reason: SaveReason, error: &str) -> (r: String)
    ensures
        r@ == save_error_text(reason, error@),
{
    let mut out = String::new();
    match reason {
        SaveReason::Autosave => {
            push_str(&mut out, "Could not save settings: ");
            push_str(&mut out, error);
            push_str(&mut out, " Changes remain unsaved and will be retried.");
        },
        SaveReason::Reset => {
            push_str(&mut out, "Current settings were reset in memory, but saved state could not be replaced: ");
            push_str(&mut out, error);
            push_str(&mut out, " The previous disk state may return after restart.");
        },
    }
    out
}

pub open spec fn schema_error_text(version: u32) -> Seq<char> {
    "unsupported schema version "@ + decimal(version as nat) + "; expected "@ + decimal(SCHEMA_VERSION as nat)
}

/// Accepts the schema version this build reads.
pub fn check_schema(version: u32) -> (r: Result<(), String>)
    ensures
        r is Ok <==> version == SCHEMA_VERSION,
        r matches Err(e) ==> e@ == schema_error_text(version),
{
    if version == SCHEMA_VERSION {
        return Ok(());
    }
    let mut out = String::new();
    push_str(&mut out, "unsupported schema version ");
    push_decimal(&mut out, version as u64);
    push_str(&mut out, "; expected ");
    push_decimal(&mut out, SCHEMA_VERSION as u64);
    Err(out)
}

/// The warning shown when the state file exists but could not be read.
pub fn read_failure_warning(path: &str, error: &str) -> (r: String)
    ensures
        r@ == "Could not read saved state at "@ + path@ + ": "@ + error@ + ". Defaults were restored."@,
{
    let mut out = String::new();
    push_str(&mut out, "Could not read saved state at ");
    push_str(&mut out, path);
    push_str(&mut out, ": ");
    push_str(&mut out, error);
    push_str(&mut out, ". Defaults were restored.");
    out
}

/// The note on where an invalid state file went.
pub fn preserved_note(backup: &str) -> (r: String)
    ensures
        r@ == "The invalid file was preserved at "@ + backup@ + "."@,
{
    let mut out = String::new();
    push_str(&mut out, "The invalid file was preserved at ");
    push_str(&mut out, backup);
    push_str(&mut out, ".");
    out
}

/// The note on an invalid state file that could not be moved aside.
pub fn preserve_failed_note(error: &str, path: &str) -> (r: String)
    ensures
        r@ == "The invalid file could not be moved to a backup ("@ + error@ + "); it remains at "@ + path@ + "."@,
{
    let mut out = String::new();
    push_str(&mut out, "The invalid file could not be moved to a backup (");
    push_str(&mut out, error);
    push_str(&mut out, "); it remains at ");
    push_str(&mut out, path);
    push_str(&mut out, ".");
    out
}

/// The warning shown when the state file was invalid.
pub fn invalid_state_warning(error: &str, note: &str) -> (r: String)
    ensures
        r@ == "Saved state was invalid ("@ + error@ + "). "@ + note@ + " Defaults were restored."@,
{
    let mut out = String::new();
    push_str(&mut out, "Saved state was invalid (");
    push_str(&mut out, error);
    push_str(&mut out, "). ");
    push_str(&mut out, note);
    push_str(&mut out, " Defaults were restored.");
    out
}

/// The warning shown when no place for the state file is known.
pub fn unavailable_warning(message: &str) -> (r: String)
    ensures
        r@ == "Saved state is unavailable: "@ + message@ + " Settings will remain in memory for this session."@,
{
    let mut out = String::new();
    push_str(&mut out, "Saved state is unavailable: ");
    push_str(&mut out, message);
    push_str(&mut out, " Settings will remain in memory for this session.");
    out
}

/// `n` in decimal, padded with zeros in front to `width` digits.
pub open spec fn zero_padded(n: nat, width: nat) -> Seq<char> {
    if decimal(n).len() < width {
        Seq::new((width - decimal(n).len()) as nat, |i: int| '0') + decimal(n)
    } else {
        decimal(n)
    }
}

/// The name an invalid state file is moved to: its stem, `.invalid-`, the
/// seconds and the nine-digit nanoseconds of the time, `-n` for the `n`-th
/// name tried when earlier ones were taken, and its extension.
pub open spec fn backup_name(stem: Seq<char>, extension: Option<Seq<char>>, secs: u64, nanos: u32, attempt: u32) -> Seq<
    char,
> {
    stem + ".invalid-"@ + decimal(secs as nat) + "-"@ + zero_padded(nanos as nat, 9) + (if attempt == 0 {
        Seq::empty()
    } else {
        "-"@ + decimal(attempt as nat)
    }) + match extension {
        Some(e) => "."@ + e,
        None => Seq::empty(),
    }
}

pub fn backup_file_name(stem: &str, extension: Option<&str>, secs: u64, nanos: u32, attempt: u32) -> (r: String)
    ensures
        r@ == backup_name(
            stem@,
            match extension {
                Some(e) => Some(e@),
                None => None,
            },
            secs,
            nanos,
            attempt,
        ),
{
    let mut out = String::new();
    push_str(&mut out, stem);
    push_str(&mut out, ".invalid-");
    push_decimal(&mut out, secs);
    push_str(&mut out, "-");
    let mut digits = String::new();
    push_decimal(&mut digits, nanos as u64);
    let ds = chars_of(digits.as_str());
    let mut pad: usize = 0;
    let ghost before = out@;
    if ds.len() < 9 {
        let width = 9 - ds.len();
        while pad < width
            invariant
                pad <= width,
                width == 9 - ds@.len(),
                out@ == before + Seq::new(pad as nat, |i: int| '0'),
            decreases width - pad,
        {
            push_str(&mut out, "0");
            assert(before + Seq::new((pad + 1) as nat, |i: int| '0') =~= before + Seq::new(pad as nat, |i: int| '0')
                + "0"@) by {
                reveal_strlit("0");
            }
            pad += 1;
        }
    }
    push_str(&mut out, digits.as_str());
    if attempt != 0 {
        push_str(&mut out, "-");
        push_decimal(&mut out, attempt as u64);
    }
    match extension {
        Some(e) => {
            push_str(&mut out, ".");
            push_str(&mut out, e);
        },
        None => {},
    }
    proof {
        if ds@.len() >= 9 {
            assert(Seq::new(0, |i: int| '0') + decimal(nanos as nat) =~= decimal(nanos as nat));
        }
    }
    out
}

/// A saved preferred target: kept when its id has more than white space.
pub fn preferred_target_id(id: &str) -> (r: Result<String, String>)
    ensures
        trim(id@).len() > 0 ==> (r matches Ok(s) && s@ == id@),
        trim(id@).len() == 0 ==> (r matches Err(e) && e@ == "preferred target ID is empty"@),
{
    let t = trimmed(id);
    if t.as_str().is_empty() {
        let mut e = String::new();
        push_str(&mut e, "preferred target ID is empty");
        Err(e)
    } else {
        let mut s = String::new();
        push_str(&mut s, id);
        Ok(s)
    }
}

/// The ability slots a filter keeps: those above zero, in increasing
/// order, each once; a filter that takes every ability keeps none.
pub open spec fn normalized_slots(selected: bool, slots: Seq<u32>) -> Set<u32> {
    if selected {
        slots.to_set().filter(|s: u32| s > 0)
    } else {
        Set::empty()
    }
}

pub open spec fn strictly_increasing(s: Seq<u32>) -> bool {
    forall|i: int, j: int| 0 <= i < j < s.len() ==> s[i] < s[j]
}

/// Inserts `x` into a strictly increasing list, unless it is there.
fn insert_sorted(v: &mut Vec<u32>, x: u32)
    requires
        strictly_increasing(old(v)@),
    ensures
        strictly_increasing(final(v)@),
        final(v)@.to_set() == old(v)@.to_set().insert(x),
{
    let mut i: usize = 0;
    while i < v.len() && v[i] < x
        invariant
            i <= v@.len(),
            forall|k: int| 0 <= k < i ==> v@[k] < x,
        decreases v@.len() - i,
    {
        i += 1;
    }
    if i < v.len() && v[i] == x {
        assert(old(v)@.to_set().insert(x) =~= old(v)@.to_set()) by {
            assert(old(v)@.contains(x) ==> old(v)@.to_set().contains(x));
            assert(old(v)@[i as int] == x);
        }
        return;
    }
    let ghost before = v@;
    v.insert(i, x);
    assert(v@.to_set() =~= before.to_set().insert(x)) by {
        assert forall|e: u32| v@.to_set().contains(e) <==> before.to_set().insert(x).contains(e) by {
            if v@.contains(e) {
                let k = choose|k: int| 0 <= k < v@.len() && v@[k] == e;
                if k < i {
                    assert(before[k] == e);
                } else if k > i {
                    assert(before[k - 1] == e);
                }
            }
            if before.contains(e) {
                let k = choose|k: int| 0 <= k < before.len() && before[k] == e;
                if k < i {
                    assert(v@[k] == e);
                } else {
                    assert(v@[k + 1] == e);
                }
            }
            if e == x {
                assert(v@[i as int] == x);
            }
        }
    }
}

/// Canonical form of a saved ability filter's slots.
pub fn normalize_slots(selected: bool, slots: &Vec<u32>) -> (r: Vec<u32>)
    ensures
        strictly_increasing(r@),
        r@.to_set() == normalized_slots(selected, slots@),
{
    let mut out: Vec<u32> = Vec::new();
    if !selected {
        assert(out@.to_set() =~= Set::<u32>::empty());
        return out;
    }
    let mut i: usize = 0;
    while i < slots.len()
        invariant
            i <= slots@.len(),
            strictly_increasing(out@),
            out@.to_set() == slots@.take(i as int).to_set().filter(|s: u32| s > 0),
        decreases slots@.len() - i,
    {
        let x = slots[i];
        let ghost prev = out@.to_set();
        assert(slots@.take(i + 1).to_set() =~= slots@.take(i as int).to_set().insert(x)) by {
            assert(slots@.take(i + 1) =~= slots@.take(i as int).push(x));
            slots@.take(i as int).lemma_push_to_set_commute(x);
        }
        if x > 0 {
            insert_sorted(&mut out, x);
            assert(out@.to_set() =~= slots@.take(i + 1).to_set().filter(|s: u32| s > 0));
        } else {
            assert(out@.to_set() =~= slots@.take(i + 1).to_set().filter(|s: u32| s > 0));
        }
        i += 1;
    }
    assert(slots@.take(slots@.len() as int) =~= slots@);
    out
}

} // verus!
