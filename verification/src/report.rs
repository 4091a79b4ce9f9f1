//! Report rendering: the folded text format.
//!
//! One line per stack key: the thread name, then the frame names from
//! innermost to outermost (reversed from call order), all separated by
//! `;`, then a space and the count.  Lines are joined by `\n`; an empty
//! profile renders as the empty string.  The pprof and flamegraph forms
//! are external sinks fed from the same rows.

use vstd::prelude::*;

use crate::profile::{frames_key, FrameSymbol, Profile, ProfileEntry};
use crate::text::{spec_dec, u64_to_dec};

verus! {

/// The frame-name block of one line: `;name` groups for the frames from
/// index `len - 1` down to `i`, in that order.
pub open spec fn spec_rev_block(s: Seq<FrameSymbol>, i: int) -> Seq<char>
    decreases s.len() - i,
{
    if i < 0 || i >= s.len() {
        Seq::empty()
    } else {
        spec_rev_block(s, i + 1) + seq![';'] + s[i].name@
    }
}

/// One folded line: thread name, the reversed frame names, a space, the
/// count.
pub open spec fn spec_folded_line(e: ProfileEntry) -> Seq<char> {
    e.thread_name@ + spec_rev_block(e.frames@, 0) + seq![' '] + spec_dec(e.count as nat)
}

/// The whole folded text: the rows' lines joined by newlines.
pub open spec fn spec_folded(s: Seq<ProfileEntry>) -> Seq<char>
    decreases s.len(),
{
    if s.len() == 0 {
        Seq::empty()
    } else if s.len() == 1 {
        spec_folded_line(s[0])
    } else {
        spec_folded(s.drop_last()) + seq!['\n'] + spec_folded_line(s.last())
    }
}

/// Why a report could not be made.
#[derive(Clone, Copy, Debug, PartialEq, Eq, Structural)]
pub enum ReportError {
    /// The frequency does not fit the report's signed word.
    FrequencyTooLarge,
}

/// A finished report: the rows with their timing.
pub struct Report {
    pub entries: Vec<ProfileEntry>,
    /// Sampling frequency, in samples per second.
    pub frequency: i32,
    /// Wall-clock start, seconds since the Unix epoch.
    pub start_time: u64,
    /// Length of the sampling window, in milliseconds.
    pub duration_ms: u64,
}

impl Profile {
    /// Makes the report of a finished profile.  Success is owed exactly
    /// when the frequency fits the report's signed word; the start instant
    /// must have been recorded.  Every row carries over unchanged: same
    /// key, name, timestamp and count, in the same order.
    pub fn report(&self) -> (r: Result<Report, ReportError>)
        requires
            self.start_time is Some,
        ensures
            r is Ok <==> self.frequency <= i32::MAX,
            r is Err ==> r == Err::<Report, ReportError>(ReportError::FrequencyTooLarge),
            r is Ok ==> {
                let rep = r.unwrap();
                &&& rep.entries@.len() == self.entries@.len()
                &&& forall|k: int|
                    0 <= k < self.entries@.len() ==> {
                        &&& (#[trigger] rep.entries@[k]).thread_id
                            == self.entries@[k].thread_id
                        &&& rep.entries@[k].thread_name@ == self.entries@[k].thread_name@
                        &&& rep.entries@[k].first_timestamp
                            == self.entries@[k].first_timestamp
                        &&& frames_key(rep.entries@[k].frames@) == frames_key(
                            self.entries@[k].frames@,
                        )
                        &&& rep.entries@[k].count == self.entries@[k].count
                    }
                &&& rep.frequency == self.frequency
                &&& rep.start_time == self.start_time.unwrap()
                &&& rep.duration_ms == self.duration_ms
            },
    {
        if self.frequency > i32::MAX as u64 {
            return Err(ReportError::FrequencyTooLarge);
        }
        let start_time = match self.start_time {
            Some(t) => t,
            None => 0,
        };
        let mut entries: Vec<ProfileEntry> = Vec::new();
        let mut k: usize = 0;
        while k < self.entries.len()
            invariant
                k <= self.entries@.len(),
                entries@.len() == k,
                forall|j: int|
                    0 <= j < k ==> {
                        &&& (#[trigger] entries@[j]).thread_id == self.entries@[j].thread_id
                        &&& entries@[j].thread_name@ == self.entries@[j].thread_name@
                        &&& entries@[j].first_timestamp == self.entries@[j].first_timestamp
                        &&& frames_key(entries@[j].frames@) == frames_key(
                            self.entries@[j].frames@,
                        )
                        &&& entries@[j].count == self.entries@[j].count
                    },
            decreases self.entries@.len() - k,
        {
            entries.push(self.entries.get(k).unwrap().clone());
            k = k + 1;
        }
        Ok(
            Report {
                entries,
                frequency: self.frequency as i32,
                start_time,
                duration_ms: self.duration_ms,
            },
        )
    }
}

impl Report {
    /// Renders the folded text.
    pub fn folded(&self) -> (out: String)
        ensures
            out@ == spec_folded(self.entries@),
    {
        let mut out = String::new();
        let mut k: usize = 0;
        while k < self.entries.len()
            invariant
                k <= self.entries@.len(),
                out@ == spec_folded(self.entries@.take(k as int)),
            decreases self.entries@.len() - k,
        {
            proof {
                reveal_strlit("\n");
                reveal_strlit(" ");
            }
            if k > 0 {
                out.append("\n");
            }
            let e = self.entries.get(k).unwrap();
            out.append(e.thread_name.as_str());
            let ghost sep: Seq<char> = if k > 0 {
                seq!['\n']
            } else {
                Seq::<char>::empty()
            };
            let ghost base = spec_folded(self.entries@.take(k as int)) + sep + e.thread_name@;
            let mut i: usize = e.frames.len();
            proof {
                assert(out@ =~= base + spec_rev_block(e.frames@, i as int));
            }
            while i > 0
                invariant
                    i <= e.frames@.len(),
                    k < self.entries@.len(),
                    e == self.entries@[k as int],
                    out@ == base + spec_rev_block(e.frames@, i as int),
                decreases i,
            {
                proof {
                    reveal_strlit(";");
                }
                out.append(";");
                out.append(e.frames.get(i - 1).unwrap().name.as_str());
                proof {
                    assert(";"@ =~= seq![';']);
                    assert(out@ =~= base + spec_rev_block(e.frames@, i as int - 1));
                }
                i = i - 1;
            }
            out.append(" ");
            out.append(u64_to_dec(e.count).as_str());
            proof {
                assert(self.entries@.take(k as int + 1).drop_last() =~= self.entries@.take(
                    k as int,
                ));
                assert(self.entries@.take(k as int + 1).last() == self.entries@[k as int]);
                assert(out@ =~= spec_folded(self.entries@.take(k as int + 1)));
            }
            k = k + 1;
        }
        proof {
            assert(self.entries@.take(self.entries@.len() as int) =~= self.entries@);
        }
        out
    }
}

/// Splits a character sequence on a separator.  Splitting the empty
/// sequence gives one empty field, so the result always has one more field
/// than the input has separators.
pub open spec fn split_on(s: Seq<char>, sep: char) -> Seq<Seq<char>>
    decreases s.len(),
{
    if s.len() == 0 {
        seq![Seq::<char>::empty()]
    } else if s[0] == sep {
        seq![Seq::<char>::empty()] + split_on(s.drop_first(), sep)
    } else {
        let r = split_on(s.drop_first(), sep);
        seq![seq![s[0]] + r[0]] + r.skip(1)
    }
}

proof fn lemma_split_len(s: Seq<char>, sep: char)
    ensures
        split_on(s, sep).len() >= 1,
    decreases s.len(),
{
    if s.len() > 0 {
        lemma_split_len(s.drop_first(), sep);
    }
}

/// True when the text holds no field separator, no space and no newline:
/// such text passes through the folded format unharmed.
pub open spec fn plain_text(s: Seq<char>) -> bool {
    forall|i: int| 0 <= i < s.len() ==> s[i] != ';' && s[i] != ' ' && s[i] != '\n'
}

proof fn lemma_split_free(a: Seq<char>, sep: char)
    requires
        forall|i: int| 0 <= i < a.len() ==> a[i] != sep,
    ensures
        split_on(a, sep) == seq![a],
    decreases a.len(),
{
    if a.len() == 0 {
        assert(split_on(a, sep) =~~= seq![a]);
    } else {
        lemma_split_free(a.drop_first(), sep);
        lemma_split_len(a.drop_first(), sep);
        assert(seq![a[0]] + a.drop_first() =~= a);
        assert(split_on(a, sep) =~~= seq![a]);
    }
}

proof fn lemma_split_peel_right(a: Seq<char>, b: Seq<char>, sep: char)
    requires
        forall|i: int| 0 <= i < b.len() ==> b[i] != sep,
    ensures
        split_on(a + seq![sep] + b, sep) == split_on(a, sep) + seq![b],
    decreases a.len(),
{
    let s = a + seq![sep] + b;
    if a.len() == 0 {
        assert(s[0] == sep);
        assert(s.drop_first() =~= b);
        lemma_split_free(b, sep);
        assert(split_on(s, sep) =~~= split_on(a, sep) + seq![b]);
    } else {
        assert(s[0] == a[0]);
        assert(s.drop_first() =~= a.drop_first() + seq![sep] + b);
        lemma_split_peel_right(a.drop_first(), b, sep);
        lemma_split_len(a.drop_first(), sep);
        if a[0] == sep {
            assert(split_on(s, sep) =~~= split_on(a, sep) + seq![b]);
        } else {
            let r = split_on(a.drop_first(), sep);
            assert((r + seq![b])[0] == r[0]);
            assert((r + seq![b]).skip(1) =~~= r.skip(1) + seq![b]);
            assert(split_on(s, sep) =~~= split_on(a, sep) + seq![b]);
        }
    }
}

/// The frame names of a row in folded (innermost-first) order.
pub open spec fn rev_names(s: Seq<FrameSymbol>) -> Seq<Seq<char>> {
    Seq::new(s.len(), |i: int| s[s.len() - 1 - i].name@)
}

proof fn lemma_rev_block_unfold_top(s: Seq<FrameSymbol>, i: int)
    requires
        0 <= i < s.len(),
    ensures
        spec_rev_block(s, i) == seq![';'] + s.last().name@ + spec_rev_block(s.drop_last(), i),
    decreases s.len() - i,
{
    if i == s.len() - 1 {
        assert(spec_rev_block(s.drop_last(), i) =~= Seq::<char>::empty());
        assert(spec_rev_block(s, i) =~= seq![';'] + s.last().name@ + spec_rev_block(
            s.drop_last(),
            i,
        ));
    } else {
        lemma_rev_block_unfold_top(s, i + 1);
        let dl = s.drop_last();
        assert(dl[i] == s[i]);
        assert(spec_rev_block(s, i) == spec_rev_block(s, i + 1) + seq![';'] + s[i].name@);
        assert(spec_rev_block(dl, i) == spec_rev_block(dl, i + 1) + seq![';'] + dl[i].name@);
        assert(spec_rev_block(s, i) =~= seq![';'] + s.last().name@ + spec_rev_block(dl, i));
    }
}

proof fn lemma_rev_block_plain(s: Seq<FrameSymbol>, i: int)
    requires
        forall|k: int| 0 <= k < s.len() ==> plain_text((#[trigger] s[k]).name@),
    ensures
        forall|p: int|
            0 <= p < spec_rev_block(s, i).len() ==> (#[trigger] spec_rev_block(s, i)[p]) != ' '
                && spec_rev_block(s, i)[p] != '\n',
    decreases s.len() - i,
{
    if 0 <= i && i < s.len() {
        lemma_rev_block_plain(s, i + 1);
        assert(plain_text(s[i].name@));
        let prev = spec_rev_block(s, i + 1);
        let name = s[i].name@;
        assert(spec_rev_block(s, i) == prev + seq![';'] + name);
        assert forall|p: int|
            0 <= p < spec_rev_block(s, i).len() implies (#[trigger] spec_rev_block(s, i)[p])
            != ' ' && spec_rev_block(s, i)[p] != '\n' by {
            if p < prev.len() {
                assert(spec_rev_block(s, i)[p] == prev[p]);
            } else if p == prev.len() {
                assert(spec_rev_block(s, i)[p] == ';');
            } else {
                assert(spec_rev_block(s, i)[p] == name[p - prev.len() - 1]);
            }
        }
    }
}

proof fn lemma_head_split(name: Seq<char>, s: Seq<FrameSymbol>)
    requires
        forall|i: int| 0 <= i < name.len() ==> name[i] != ';',
        forall|k: int| 0 <= k < s.len() ==> plain_text((#[trigger] s[k]).name@),
    ensures
        split_on(name + spec_rev_block(s, 0), ';') == seq![name] + rev_names(s),
    decreases s.len(),
{
    if s.len() == 0 {
        assert(name + spec_rev_block(s, 0) =~= name);
        lemma_split_free(name, ';');
        assert(seq![name] + rev_names(s) =~~= seq![name]);
    } else {
        let dl = s.drop_last();
        lemma_rev_block_unfold_top(s, 0);
        // Peel the outermost frame group off the left of the block.
        let rest = s.last().name@ + spec_rev_block(dl, 0);
        assert(name + spec_rev_block(s, 0) =~= name + seq![';'] + rest);
        lemma_head_split(s.last().name@, dl);
        lemma_split_concat(name, rest);
        assert(split_on(name + spec_rev_block(s, 0), ';') == seq![name] + (seq![s.last().name@]
            + rev_names(dl)));
        assert(rev_names(s) =~~= seq![s.last().name@] + rev_names(dl));
        assert(seq![name] + (seq![s.last().name@] + rev_names(dl)) =~~= seq![name] + rev_names(
            s,
        ));
    }
}

proof fn lemma_split_concat(a: Seq<char>, b: Seq<char>)
    requires
        forall|i: int| 0 <= i < a.len() ==> a[i] != ';',
    ensures
        split_on(a + seq![';'] + b, ';') == seq![a] + split_on(b, ';'),
    decreases a.len(),
{
    let s = a + seq![';'] + b;
    if a.len() == 0 {
        assert(s[0] == ';');
        assert(s.drop_first() =~= b);
        assert(split_on(s, ';') =~~= seq![a] + split_on(b, ';'));
    } else {
        assert(s[0] == a[0]);
        assert(s.drop_first() =~= a.drop_first() + seq![';'] + b);
        lemma_split_concat(a.drop_first(), b);
        lemma_split_len(b, ';');
        let r = seq![a.drop_first()] + split_on(b, ';');
        assert(r[0] == a.drop_first());
        assert(seq![s[0]] + r[0] =~= a);
        assert(r.skip(1) =~~= split_on(b, ';'));
        assert(split_on(s, ';') =~~= seq![a] + split_on(b, ';'));
    }
}

/// Law (folded round-trip, line level): a folded line taken apart at its
/// last space yields the canonical decimal of the row's count — a strictly
/// positive integer — and a head with no space in it; splitting that head
/// on `;` yields exactly the thread name followed by the frame names,
/// innermost first.  This holds for every row whose thread name and frame
/// names are plain text (no `;`, space or newline), so a folded-format
/// parser recovers every such row exactly.
pub proof fn lemma_folded_line_round_trip(e: ProfileEntry)
    requires
        e.count >= 1,
        plain_text(e.thread_name@),
        forall|k: int| 0 <= k < e.frames@.len() ==> plain_text((#[trigger] e.frames@[k]).name@),
    ensures
        ({
            let head = e.thread_name@ + spec_rev_block(e.frames@, 0);
            let digits = crate::text::spec_dec(e.count as nat);
            &&& spec_folded_line(e) == head + seq![' '] + digits
            &&& forall|i: int|
                0 <= i < head.len() ==> (#[trigger] head[i]) != ' ' && head[i] != '\n'
            &&& forall|i: int|
                0 <= i < digits.len() ==> (#[trigger] digits[i]) != ' ' && digits[i] != '\n'
            &&& crate::text::spec_parse_dec(digits) == Some(e.count as nat)
            &&& split_on(head, ';') == seq![e.thread_name@] + rev_names(e.frames@)
            &&& split_on(head, ';').len() == 1 + e.frames@.len()
        }),
{
    let head = e.thread_name@ + spec_rev_block(e.frames@, 0);
    let digits = crate::text::spec_dec(e.count as nat);
    assert(spec_folded_line(e) =~= head + seq![' '] + digits);
    lemma_rev_block_plain(e.frames@, 0);
    crate::text::lemma_spec_dec_digits(e.count as nat);
    assert forall|i: int| 0 <= i < digits.len() implies (#[trigger] digits[i]) != ' '
        && digits[i] != '\n' by {
        assert(crate::text::is_digit_char(digits[i]));
    }
    crate::text::lemma_parse_spec_dec(e.count as nat);
    lemma_head_split(e.thread_name@, e.frames@);
}

/// Law (folded round-trip, document level): the folded text of a profile
/// with at least one row splits on newlines into exactly the rows' lines,
/// in order — provided every thread name and frame name is plain text.
/// (An empty profile renders as the empty string.)
pub proof fn lemma_folded_round_trip(s: Seq<ProfileEntry>)
    requires
        s.len() >= 1,
        forall|k: int| 0 <= k < s.len() ==> plain_text((#[trigger] s[k]).thread_name@),
        forall|k: int, f: int|
            0 <= k < s.len() && 0 <= f < (#[trigger] s[k]).frames@.len() ==> plain_text(
                (#[trigger] s[k].frames@[f]).name@,
            ),
    ensures
        split_on(spec_folded(s), '\n') == Seq::new(s.len(), |i: int| spec_folded_line(s[i])),
    decreases s.len(),
{
    let lines = Seq::new(s.len(), |i: int| spec_folded_line(s[i]));
    assert forall|i: int| 0 <= i < spec_folded_line(s.last()).len() implies (
    #[trigger] spec_folded_line(s.last())[i]) != '\n' by {
        let e = s.last();
        lemma_rev_block_plain(e.frames@, 0);
        crate::text::lemma_spec_dec_digits(e.count as nat);
        let head = e.thread_name@ + spec_rev_block(e.frames@, 0);
        let digits = crate::text::spec_dec(e.count as nat);
        assert(spec_folded_line(e) =~= head + seq![' '] + digits);
        if i < head.len() {
        } else if i == head.len() {
        } else {
            assert(crate::text::is_digit_char(digits[i - head.len() - 1]));
        }
    }
    if s.len() == 1 {
        assert(s[0] == s.last());
        lemma_split_free(spec_folded_line(s[0]), '\n');
        assert(split_on(spec_folded(s), '\n') =~~= lines);
    } else {
        let dl = s.drop_last();
        lemma_folded_round_trip(dl);
        lemma_split_peel_right(spec_folded(dl), spec_folded_line(s.last()), '\n');
        assert(split_on(spec_folded(s), '\n') =~~= lines);
    }
}

} // verus!
