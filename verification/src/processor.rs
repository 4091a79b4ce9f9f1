//! Per-sample processing: decode, resolve, aggregate.
//!
//! For each message drained from the kernel buffer the processor counts the
//! event, decodes the fixed-layout record, resolves the first `stack.len`
//! frame ids through the symbol table, and folds the surviving frames into
//! the profile as one sample of weight one.  A missing symbol id or a
//! garbled string drops that frame only, never the sample.

use vstd::prelude::*;

use crate::profile::{frames_key, FrameSymbol, Profile};
use crate::sample::{decode_sample, RawSymbol, MAX_STACK_DEPTH, SAMPLE_SIZE};
use crate::sample::{spec_sample_frame, spec_sample_pid, spec_sample_stack_len, spec_sample_tid,
    spec_sample_timestamp};
use crate::stats::Stats;
use crate::symbols::{spec_symbol_chars, str_from_u8_nul, symbol_readable, SymbolTable};

verus! {

/// A violation of the processing invariants, fatal to the run.
#[derive(Clone, Copy, Debug, PartialEq, Eq, Structural)]
pub enum SampleError {
    /// The drained buffer is shorter than one sample record.
    ShortSample,
    /// The sample names process id zero, which the kernel must never emit.
    ZeroPid,
}

/// The frame ids of an encoded sample, in kernel order.
pub open spec fn spec_sample_frames_seq(d: Seq<u8>) -> Seq<u32> {
    Seq::new(MAX_STACK_DEPTH as nat, |k: int| spec_sample_frame(d, k))
}

/// How many of the sample's frames take part in resolution: the first
/// `stack.len`, capped by the fixed frame buffer.
pub open spec fn spec_frames_considered(d: Seq<u8>) -> int {
    if spec_sample_stack_len(d) <= MAX_STACK_DEPTH {
        spec_sample_stack_len(d) as int
    } else {
        MAX_STACK_DEPTH as int
    }
}

/// True when the id resolves fully: it is in the table and all three of its
/// strings read as UTF-8.
pub open spec fn frame_ok(t: SymbolTable, id: u32) -> bool {
    &&& t.contains_id(id)
    &&& symbol_readable(t.entries@[t.spec_index_of(id)].1.file@)
    &&& symbol_readable(t.entries@[t.spec_index_of(id)].1.class@)
    &&& symbol_readable(t.entries@[t.spec_index_of(id)].1.func@)
}

/// The resolved frame name: `class::func`.
pub open spec fn spec_frame_name(sym: RawSymbol) -> Seq<char> {
    spec_symbol_chars(sym.class@) + seq![':', ':'] + spec_symbol_chars(sym.func@)
}

/// The key view of a fully resolved frame.
pub open spec fn spec_frame_view(t: SymbolTable, id: u32) -> (Seq<char>, Seq<char>, u32) {
    let sym = t.entries@[t.spec_index_of(id)].1;
    (spec_frame_name(sym), spec_symbol_chars(sym.file@), sym.line)
}

/// Key views of the frames that survive resolution among the first `i` ids,
/// in order.
pub open spec fn spec_resolved(t: SymbolTable, ids: Seq<u32>, i: int) -> Seq<
    (Seq<char>, Seq<char>, u32),
>
    decreases i,
{
    if i <= 0 {
        Seq::empty()
    } else if frame_ok(t, ids[i - 1]) {
        spec_resolved(t, ids, i - 1).push(spec_frame_view(t, ids[i - 1]))
    } else {
        spec_resolved(t, ids, i - 1)
    }
}

/// Count of ids among the first `i` that are absent from the table.
pub open spec fn spec_miss_count(t: SymbolTable, ids: Seq<u32>, i: int) -> int
    decreases i,
{
    if i <= 0 {
        0
    } else if !t.contains_id(ids[i - 1]) {
        spec_miss_count(t, ids, i - 1) + 1
    } else {
        spec_miss_count(t, ids, i - 1)
    }
}

/// Count of ids among the first `i` that are in the table but carry a
/// garbled (non-UTF-8) string.
pub open spec fn spec_garbled_count(t: SymbolTable, ids: Seq<u32>, i: int) -> int
    decreases i,
{
    if i <= 0 {
        0
    } else if t.contains_id(ids[i - 1]) && !frame_ok(t, ids[i - 1]) {
        spec_garbled_count(t, ids, i - 1) + 1
    } else {
        spec_garbled_count(t, ids, i - 1)
    }
}

proof fn lemma_counts_bounded(t: SymbolTable, ids: Seq<u32>, i: int)
    requires
        i >= 0,
    ensures
        0 <= spec_miss_count(t, ids, i) <= i,
        0 <= spec_garbled_count(t, ids, i) <= i,
        spec_resolved(t, ids, i).len() <= i,
    decreases i,
{
    if i > 0 {
        lemma_counts_bounded(t, ids, i - 1);
    }
}

/// Resolves the participating frames of a decoded sample.  Returns the
/// surviving frames and counts the dropped ones in `stats`.
fn resolve_frames(
    stats: &mut Stats,
    symbols: &SymbolTable,
    ids: &Vec<u32>,
    n: usize,
    Ghost(d): Ghost<Seq<u8>>,
) -> (frames: Vec<FrameSymbol>)
    requires
        symbols.wf(),
        n <= ids@.len(),
        ids@.len() == MAX_STACK_DEPTH,
        forall|k: int| 0 <= k < MAX_STACK_DEPTH ==> ids@[k] == spec_sample_frame(d, k),
        old(stats).map_reading_errors + n <= u32::MAX,
        old(stats).garbled_data_errors + n <= u32::MAX,
    ensures
        frames_key(frames@) == spec_resolved(*symbols, spec_sample_frames_seq(d), n as int),
        frames@.len() <= n,
        final(stats).map_reading_errors == old(stats).map_reading_errors + spec_miss_count(
            *symbols,
            spec_sample_frames_seq(d),
            n as int,
        ),
        final(stats).garbled_data_errors == old(stats).garbled_data_errors + spec_garbled_count(
            *symbols,
            spec_sample_frames_seq(d),
            n as int,
        ),
        final(stats).total_events == old(stats).total_events,
        final(stats).lost_event_errors == old(stats).lost_event_errors,
        final(stats).truncated_stacks == old(stats).truncated_stacks,
{
    let ghost idseq = spec_sample_frames_seq(d);
    proof {
        assert(idseq.len() == MAX_STACK_DEPTH);
        assert(forall|k: int| 0 <= k < MAX_STACK_DEPTH ==> ids@[k] == idseq[k]);
    }
    let mut frames: Vec<FrameSymbol> = Vec::new();
    let mut i: usize = 0;
    while i < n
        invariant
            symbols.wf(),
            n <= ids@.len(),
            ids@.len() == MAX_STACK_DEPTH,
            idseq == spec_sample_frames_seq(d),
            forall|k: int| 0 <= k < MAX_STACK_DEPTH ==> ids@[k] == idseq[k],
            i <= n,
            frames_key(frames@) == spec_resolved(*symbols, idseq, i as int),
            frames@.len() <= i,
            stats.map_reading_errors == old(stats).map_reading_errors + spec_miss_count(
                *symbols,
                idseq,
                i as int,
            ),
            stats.garbled_data_errors == old(stats).garbled_data_errors + spec_garbled_count(
                *symbols,
                idseq,
                i as int,
            ),
            stats.total_events == old(stats).total_events,
            stats.lost_event_errors == old(stats).lost_event_errors,
            stats.truncated_stacks == old(stats).truncated_stacks,
            old(stats).map_reading_errors + n <= u32::MAX,
            old(stats).garbled_data_errors + n <= u32::MAX,
        decreases n - i,
    {
        proof {
            lemma_counts_bounded(*symbols, idseq, i as int);
        }
        let id = *ids.get(i).unwrap();
        proof {
            assert(id == idseq[i as int]);
        }
        match symbols.lookup(id) {
            None => {
                stats.map_reading_errors = stats.map_reading_errors + 1;
            },
            Some(sym) => {
                let file = str_from_u8_nul(&sym.file);
                let class = str_from_u8_nul(&sym.class);
                let func = str_from_u8_nul(&sym.func);
                match (file, class, func) {
                    (Some(file_name), Some(class_name), Some(func_name)) => {
                        proof {
                            reveal_strlit("::");
                        }
                        let mut name = class_name;
                        name.append("::");
                        name.append(func_name.as_str());
                        proof {
                            assert(name@ =~= spec_frame_name(*sym));
                        }
                        let frame = FrameSymbol { name, filename: file_name, line: sym.line };
                        let ghost old_frames = frames@;
                        frames.push(frame);
                        proof {
                            assert(frames_key(frames@) =~= frames_key(old_frames).push(
                                frame.key(),
                            ));
                            assert(frame.key() == spec_frame_view(*symbols, id));
                        }
                    },
                    _ => {
                        stats.garbled_data_errors = stats.garbled_data_errors + 1;
                    },
                }
            },
        }
        i = i + 1;
    }
    frames
}

/// Handles one drained sample message: counts the event, decodes the
/// record, resolves its frames through `symbols`, and adds one sample of
/// weight one to the profile under the key `(tid, resolved frames)`.
///
/// `thread_name` is the OS name for the sample's thread when the caller
/// could read one (see [`sample_tid`]); it matters only for a key's first
/// sample.
///
/// Success is owed exactly when the buffer holds a full record whose pid is
/// not zero.  An under-length buffer changes nothing and fails; a zero pid
/// counts the event and fails; both are fatal to the run.  A missing or
/// garbled symbol only drops that frame and bumps its counter: the sample
/// still lands, possibly with an empty frame sequence.
pub fn handle_sample(
    profile: &mut Profile,
    stats: &mut Stats,
    symbols: &SymbolTable,
    data: &Vec<u8>,
    thread_name: Option<String>,
) -> (r: Result<(), SampleError>)
    requires
        old(profile).wf(),
        symbols.wf(),
        old(profile).total_count() < u64::MAX,
        old(stats).total_events < u32::MAX,
        old(stats).map_reading_errors + MAX_STACK_DEPTH <= u32::MAX,
        old(stats).garbled_data_errors + MAX_STACK_DEPTH <= u32::MAX,
    ensures
        final(profile).wf(),
        r is Ok <==> (data@.len() >= SAMPLE_SIZE && spec_sample_pid(data@) != 0),
        r == Err::<(), SampleError>(SampleError::ShortSample) <==> data@.len() < SAMPLE_SIZE,
        r == Err::<(), SampleError>(SampleError::ZeroPid) <==> (data@.len() >= SAMPLE_SIZE
            && spec_sample_pid(data@) == 0),
        // The event counter moves exactly once per decodable sample.
        final(stats).total_events == old(stats).total_events + (if data@.len() >= SAMPLE_SIZE {
            1int
        } else {
            0int
        }),
        final(stats).lost_event_errors == old(stats).lost_event_errors,
        final(stats).truncated_stacks == old(stats).truncated_stacks,
        // Session accounting: one message is one step, however it turns out.
        accounting_step(
            (old(stats).total_events as int, old(profile).total_count()),
            (final(stats).total_events as int, final(profile).total_count()),
        ),
        r is Err ==> {
            &&& *final(profile) == *old(profile)
            &&& final(stats).map_reading_errors == old(stats).map_reading_errors
            &&& final(stats).garbled_data_errors == old(stats).garbled_data_errors
        },
        r is Ok ==> {
            let t = *symbols;
            let ids = spec_sample_frames_seq(data@);
            let n = spec_frames_considered(data@);
            let tid = spec_sample_tid(data@) as u64;
            let key = spec_resolved(t, ids, n);
            &&& final(stats).map_reading_errors == old(stats).map_reading_errors
                + spec_miss_count(t, ids, n)
            &&& final(stats).garbled_data_errors == old(stats).garbled_data_errors
                + spec_garbled_count(t, ids, n)
            // Exactly one sample of weight one lands in the profile.
            &&& final(profile).total_count() == old(profile).total_count() + 1
            &&& final(profile).start_time == old(profile).start_time
            &&& final(profile).duration_ms == old(profile).duration_ms
            &&& final(profile).frequency == old(profile).frequency
            &&& if old(profile).has_key(tid, key) {
                {
                    let i = old(profile).spec_key_index(tid, key);
                    &&& final(profile).entries@.len() == old(profile).entries@.len()
                    &&& final(profile).entries@[i].count == old(profile).entries@[i].count + 1
                    &&& final(profile).entries@[i].thread_id == old(
                        profile,
                    ).entries@[i].thread_id
                    &&& final(profile).entries@[i].thread_name@ == old(
                        profile,
                    ).entries@[i].thread_name@
                    &&& final(profile).entries@[i].first_timestamp == old(
                        profile,
                    ).entries@[i].first_timestamp
                    &&& frames_key(final(profile).entries@[i].frames@) == frames_key(
                        old(profile).entries@[i].frames@,
                    )
                    &&& forall|j: int|
                        0 <= j < old(profile).entries@.len() && j != i
                            ==> final(profile).entries@[j] == old(profile).entries@[j]
                }
            } else {
                {
                    let e = final(profile).entries@.last();
                    &&& final(profile).entries@.len() == old(profile).entries@.len() + 1
                    &&& final(profile).entries@.drop_last() == old(profile).entries@
                    &&& e.thread_id == tid
                    &&& e.thread_name@ == old(profile).spec_resolved_name(
                        tid,
                        match thread_name {
                            Option::Some(nm) => Option::Some(nm@),
                            Option::None => Option::None,
                        },
                    )
                    &&& e.first_timestamp == spec_sample_timestamp(data@)
                    &&& frames_key(e.frames@) == key
                    &&& e.count == 1
                }
            }
        },
{
    let sample = match decode_sample(data) {
        Some(s) => s,
        None => {
            return Err(SampleError::ShortSample);
        },
    };
    stats.total_events = stats.total_events + 1;
    if sample.pid == 0 {
        return Err(SampleError::ZeroPid);
    }
    let n: usize = if (sample.stack.len as usize) < MAX_STACK_DEPTH {
        sample.stack.len as usize
    } else {
        MAX_STACK_DEPTH
    };
    let frames = resolve_frames(stats, symbols, &sample.stack.frames, n, Ghost(data@));
    proof {
        crate::profile::lemma_total_nonneg(old(profile).entries@);
        if old(profile).has_key(
            spec_sample_tid(data@) as u64,
            spec_resolved(*symbols, spec_sample_frames_seq(data@), n as int),
        ) {
            let i = old(profile).spec_key_index(
                spec_sample_tid(data@) as u64,
                spec_resolved(*symbols, spec_sample_frames_seq(data@), n as int),
            );
            crate::profile::lemma_total_at_least_entry(old(profile).entries@, i);
        }
    }
    profile.add_sample(sample.tid as u64, sample.timestamp, frames, 1, thread_name);
    Ok(())
}

/// What one session step may do to the pair (events counted, sum of
/// profile counts): the profile never grows by more than the events
/// counter, and never shrinks.  Every library operation of a session obeys
/// this: [`handle_sample`] counts each decodable sample exactly once and
/// lands at most that one sample, and [`crate::handle_lost_events`]
/// touches neither quantity.
pub open spec fn accounting_step(pre: (int, int), post: (int, int)) -> bool {
    &&& post.1 - pre.1 <= post.0 - pre.0
    &&& post.1 >= pre.1
}

/// Law (session accounting): over every session — every chain of states
/// that starts with no events and no counts and moves only by
/// [`accounting_step`] — the events counter dominates the sum of the
/// profile's counts.
pub proof fn lemma_session_accounting(trace: Seq<(int, int)>)
    requires
        trace.len() >= 1,
        trace[0] == (0int, 0int),
        forall|k: int| 0 <= k < trace.len() - 1 ==> accounting_step(#[trigger] trace[k], trace[k + 1]),
    ensures
        forall|k: int| 0 <= k < trace.len() ==> (#[trigger] trace[k]).0 >= trace[k].1,
    decreases trace.len(),
{
    if trace.len() > 1 {
        lemma_session_accounting(trace.drop_last());
        let n = trace.len() - 2;
        assert(accounting_step(trace[n], trace[n + 1]));
        assert forall|k: int| 0 <= k < trace.len() implies (#[trigger] trace[k]).0
            >= trace[k].1 by {
            if k < trace.len() - 1 {
                assert(trace.drop_last()[k] == trace[k]);
            } else {
                assert(trace.drop_last()[n] == trace[n]);
            }
        }
    }
}

/// Law (frame bounds): the frames that survive resolution never outnumber
/// the frames considered, which are the sample's `stack.len` capped by the
/// fixed frame buffer — so resolved count ≤ `stack.len`, and the count of
/// considered frames is at most `MAX_STACK_DEPTH`.
pub proof fn lemma_resolution_bounded(t: SymbolTable, d: Seq<u8>)
    ensures
        spec_resolved(t, spec_sample_frames_seq(d), spec_frames_considered(d)).len()
            <= spec_frames_considered(d),
        spec_frames_considered(d) <= spec_sample_stack_len(d),
        spec_frames_considered(d) <= MAX_STACK_DEPTH,
{
    lemma_counts_bounded(t, spec_sample_frames_seq(d), spec_frames_considered(d));
}

/// Reads the thread id of an encoded sample without processing it, so the
/// caller can look the thread's OS name up before calling
/// [`handle_sample`].  `None` when the buffer is under-length.
pub fn sample_tid(data: &Vec<u8>) -> (r: Option<u64>)
    ensures
        r is Some <==> data@.len() >= SAMPLE_SIZE,
        r is Some ==> r.unwrap() == spec_sample_tid(data@) as u64,
{
    match decode_sample(data) {
        Some(s) => Some(s.tid as u64),
        None => None,
    }
}

} // verus!
