//! Turning the byte stream appended to the console log into complete lines,
//! and the short tail kept to notice a log that was rewritten.
use vstd::prelude::*;

verus! {

/// The longest partial line buffered while waiting for its newline.
pub const MAX_INCOMPLETE_LINE_BYTES: usize = 262144;

/// How many of the most recently read bytes are kept as a checkpoint.
pub const TAIL_CHECKPOINT_BYTES: usize = 64;

/// A line without its trailing carriage return, if it has one.
pub open spec fn strip_cr(line: Seq<u8>) -> Seq<u8> {
    if line.len() > 0 && line.last() == 13u8 {
        line.drop_last()
    } else {
        line
    }
}

/// The state of the line splitter: the partial line read so far, and
/// whether the rest of an oversized line is being skipped.
pub struct SplitState {
    pub partial: Seq<u8>,
    pub discarding: bool,
}

/// One byte through the splitter: the next state and, at a newline, the
/// completed line. A line that outgrows the buffer is dropped together with
/// everything up to its newline.
pub open spec fn split_step(st: SplitState, b: u8) -> (SplitState, Option<Seq<u8>>) {
    if st.discarding {
        if b == 10u8 {
            (SplitState { partial: st.partial, discarding: false }, None)
        } else {
            (st, None)
        }
    } else if b == 10u8 {
        (SplitState { partial: Seq::empty(), discarding: false }, Some(strip_cr(st.partial)))
    } else if st.partial.len() < MAX_INCOMPLETE_LINE_BYTES {
        (SplitState { partial: st.partial.push(b), discarding: false }, None)
    } else {
        (SplitState { partial: Seq::empty(), discarding: true }, None)
    }
}

/// A run of bytes through the splitter: the final state and the completed
/// lines, in order.
pub open spec fn split_run(st: SplitState, bytes: Seq<u8>) -> (SplitState, Seq<Seq<u8>>)
    decreases bytes.len(),
{
    if bytes.len() == 0 {
        (st, Seq::empty())
    } else {
        let (mid, lines) = split_run(st, bytes.drop_last());
        let (next, done) = split_step(mid, bytes.last());
        match done {
            Some(line) => (next, lines.push(line)),
            None => (next, lines),
        }
    }
}

/// The splitter's state is sound: a partial line fits the buffer, and it is
/// empty while an oversized line is skipped.
pub open spec fn split_state_ok(st: SplitState) -> bool {
    st.partial.len() <= MAX_INCOMPLETE_LINE_BYTES && (st.discarding ==> st.partial.len() == 0)
}

/// The lines found do not depend on how the stream was cut into reads:
/// splitting `a + b` in one go gives what splitting `a`, then `b` from the
/// state `a` left, gives.
pub proof fn lemma_split_chunking(st: SplitState, a: Seq<u8>, b: Seq<u8>)
    ensures
        split_run(st, a + b).0 == split_run(split_run(st, a).0, b).0,
        split_run(st, a + b).1 == split_run(st, a).1 + split_run(split_run(st, a).0, b).1,
    decreases b.len(),
{
    if b.len() == 0 {
        assert(a + b =~= a);
        assert(split_run(st, a).1 + Seq::<Seq<u8>>::empty() =~= split_run(st, a).1);
    } else {
        lemma_split_chunking(st, a, b.drop_last());
        assert((a + b).drop_last() =~= a + b.drop_last());
        assert((a + b).last() == b.last());
        let mid = split_run(split_run(st, a).0, b.drop_last());
        let (next, done) = split_step(mid.0, b.last());
        match done {
            Some(line) => {
                assert(split_run(st, a).1 + mid.1.push(line) =~= (split_run(st, a).1 + mid.1).push(line));
            },
            None => {},
        }
    }
}

/// The splitter keeps its state sound.
pub proof fn lemma_split_state_ok(st: SplitState, bytes: Seq<u8>)
    requires
        split_state_ok(st),
    ensures
        split_state_ok(split_run(st, bytes).0),
    decreases bytes.len(),
{
    if bytes.len() > 0 {
        lemma_split_state_ok(st, bytes.drop_last());
    }
}

pub open spec fn lines_view(lines: Seq<Vec<u8>>) -> Seq<Seq<u8>> {
    lines.map_values(|l: Vec<u8>| l@)
}

fn copy_without_cr(partial: &Vec<u8>) -> (r: Vec<u8>)
    ensures
        r@ == strip_cr(partial@),
{
    let n = partial.len();
    let end = if n > 0 && partial[n - 1] == 13u8 {
        n - 1
    } else {
        n
    };
    let mut out: Vec<u8> = Vec::new();
    let mut i: usize = 0;
    while i < end
        invariant
            end <= n == partial@.len(),
            i <= end,
            out@ == partial@.take(i as int),
        decreases end - i,
    {
        out.push(partial[i]);
        assert(partial@.take(i as int).push(partial@[i as int]) =~= partial@.take(i + 1));
        i += 1;
    }
    assert(out@ =~= strip_cr(partial@));
    out
}

/// Feeds `bytes` through the line splitter whose state is `partial` and
/// `discarding`, and returns the lines completed on the way.
pub fn consume_bytes(partial: &mut Vec<u8>, discarding: &mut bool, bytes: &[u8]) -> (lines: Vec<Vec<u8>>)
    ensures
        split_run(SplitState { partial: old(partial)@, discarding: *old(discarding) }, bytes@) == (
        SplitState { partial: final(partial)@, discarding: *final(discarding) },
        lines_view(lines@)),
{
    let ghost start = SplitState { partial: old(partial)@, discarding: *old(discarding) };
    let mut lines: Vec<Vec<u8>> = Vec::new();
    let mut i: usize = 0;
    while i < bytes.len()
        invariant
            i <= bytes@.len(),
            start == (SplitState { partial: old(partial)@, discarding: *old(discarding) }),
            split_run(start, bytes@.take(i as int)) == (SplitState {
                partial: partial@,
                discarding: *discarding,
            }, lines_view(lines@)),
        decreases bytes@.len() - i,
    {
        let b = bytes[i];
        assert(bytes@.take(i + 1).drop_last() =~= bytes@.take(i as int));
        assert(bytes@.take(i + 1).last() == b);
        if *discarding {
            if b == 10u8 {
                *discarding = false;
            }
        } else if b == 10u8 {
            let line = copy_without_cr(partial);
            let ghost before = lines@;
            lines.push(line);
            assert(lines_view(lines@) =~= lines_view(before).push(line@));
            partial.clear();
        } else if partial.len() < MAX_INCOMPLETE_LINE_BYTES {
            partial.push(b);
        } else {
            partial.clear();
            *discarding = true;
        }
        i += 1;
    }
    assert(bytes@.take(bytes@.len() as int) =~= bytes@);
    lines
}

/// The last `TAIL_CHECKPOINT_BYTES` bytes of `s` (all of `s` when shorter).
pub open spec fn checkpoint_of(s: Seq<u8>) -> Seq<u8> {
    if s.len() > TAIL_CHECKPOINT_BYTES {
        s.subrange(s.len() - TAIL_CHECKPOINT_BYTES, s.len() as int)
    } else {
        s
    }
}

/// Moves the checkpoint forward over freshly read `bytes`: it keeps the last
/// bytes of what was checkpointed followed by what was read.
pub fn update_checkpoint(checkpoint: &mut Vec<u8>, bytes: &[u8])
    ensures
        final(checkpoint)@ == checkpoint_of(old(checkpoint)@ + bytes@),
{
    let ghost whole = old(checkpoint)@ + bytes@;
    let mut out: Vec<u8> = Vec::new();
    if bytes.len() >= TAIL_CHECKPOINT_BYTES {
        let from = bytes.len() - TAIL_CHECKPOINT_BYTES;
        let mut i = from;
        while i < bytes.len()
            invariant
                from <= i <= bytes@.len(),
                out@ == bytes@.subrange(from as int, i as int),
            decreases bytes@.len() - i,
        {
            out.push(bytes[i]);
            assert(bytes@.subrange(from as int, i as int).push(bytes@[i as int]) =~= bytes@.subrange(
                from as int,
                i + 1,
            ));
            i += 1;
        }
        assert(whole.subrange(whole.len() - TAIL_CHECKPOINT_BYTES, whole.len() as int) =~= bytes@.subrange(
            from as int,
            bytes@.len() as int,
        ));
    } else {
        let room = TAIL_CHECKPOINT_BYTES - bytes.len();
        let excess = if checkpoint.len() > room {
            checkpoint.len() - room
        } else {
            0
        };
        let mut i = excess;
        while i < checkpoint.len()
            invariant
                excess <= i <= checkpoint@.len(),
                checkpoint@ == old(checkpoint)@,
                out@ == checkpoint@.subrange(excess as int, i as int),
            decreases checkpoint@.len() - i,
        {
            out.push(checkpoint[i]);
            assert(checkpoint@.subrange(excess as int, i as int).push(checkpoint@[i as int]) =~= checkpoint@.subrange(
                excess as int,
                i + 1,
            ));
            i += 1;
        }
        let mut j: usize = 0;
        while j < bytes.len()
            invariant
                j <= bytes@.len(),
                out@ == old(checkpoint)@.subrange(excess as int, old(checkpoint)@.len() as int) + bytes@.take(j as int),
            decreases bytes@.len() - j,
        {
            out.push(bytes[j]);
            assert(bytes@.take(j as int).push(bytes@[j as int]) =~= bytes@.take(j + 1));
            j += 1;
        }
        assert(bytes@.take(bytes@.len() as int) =~= bytes@);
        proof {
        if whole.len() > TAIL_CHECKPOINT_BYTES {
            assert(whole.subrange(whole.len() - TAIL_CHECKPOINT_BYTES, whole.len() as int) =~= old(checkpoint)@.subrange(
                excess as int,
                old(checkpoint)@.len() as int,
            ) + bytes@);
        } else {
            assert(old(checkpoint)@.subrange(0, old(checkpoint)@.len() as int) =~= old(checkpoint)@);
        }
        }
        assert(out@ =~= checkpoint_of(whole));
    }
    *checkpoint = out;
}

/// The checkpoint depends only on the bytes read, not on how they were cut
/// into reads: moving it over `a`, then over `b`, is moving it over `a + b`.
pub proof fn lemma_checkpoint_chunking(c: Seq<u8>, a: Seq<u8>, b: Seq<u8>)
    ensures
        checkpoint_of(checkpoint_of(c + a) + b) == checkpoint_of(c + a + b),
{
    let ca = c + a;
    let k = checkpoint_of(ca);
    let whole = ca + b;
    assert(c + a + b =~= whole);
    if ca.len() > TAIL_CHECKPOINT_BYTES {
        let off = ca.len() - TAIL_CHECKPOINT_BYTES;
        assert(k + b =~= whole.subrange(off, whole.len() as int));
        assert(checkpoint_of(k + b) =~= checkpoint_of(whole));
    } else {
        assert(k + b =~= whole);
    }
}

} // verus!
