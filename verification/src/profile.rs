//! The aggregated profile: a frequency table keyed by per-thread call
//! stacks.
//!
//! A stack key is the pair of a thread id and the ordered sequence of
//! resolved frames; two keys are equal exactly when both match.  Each key
//! carries the thread name and the timestamp of its first sample.  Counts
//! are strictly positive and grow by the sample weight.

use vstd::prelude::*;

use crate::text::{spec_dec, u64_to_dec};

verus! {

/// One resolved frame: the `class::func` name, the source file, and the
/// line number.
pub struct FrameSymbol {
    pub name: String,
    pub filename: String,
    pub line: u32,
}

impl FrameSymbol {
    /// The frame as compared inside a stack key.
    pub open spec fn key(self) -> (Seq<char>, Seq<char>, u32) {
        (self.name@, self.filename@, self.line)
    }
}

impl Clone for FrameSymbol {
    fn clone(&self) -> (r: Self)
        ensures
            r.key() == self.key(),
    {
        FrameSymbol { name: self.name.clone(), filename: self.filename.clone(), line: self.line }
    }
}

/// The key view of a frame sequence.
pub open spec fn frames_key(s: Seq<FrameSymbol>) -> Seq<(Seq<char>, Seq<char>, u32)> {
    s.map_values(|f: FrameSymbol| f.key())
}

/// One row of the profile: a stack key with its count.
pub struct ProfileEntry {
    pub thread_id: u64,
    pub thread_name: String,
    /// Timestamp of the first sample that produced this key, in kernel
    /// units (sensitive to interleaving across CPUs, by design).
    pub first_timestamp: u64,
    pub frames: Vec<FrameSymbol>,
    pub count: u64,
}

impl Clone for ProfileEntry {
    fn clone(&self) -> (r: Self)
        ensures
            r.thread_id == self.thread_id,
            r.thread_name@ == self.thread_name@,
            r.first_timestamp == self.first_timestamp,
            frames_key(r.frames@) == frames_key(self.frames@),
            r.count == self.count,
    {
        let frames = self.frames.clone();
        proof {
            assert(frames_key(frames@) =~= frames_key(self.frames@));
        }
        ProfileEntry {
            thread_id: self.thread_id,
            thread_name: self.thread_name.clone(),
            first_timestamp: self.first_timestamp,
            frames,
            count: self.count,
        }
    }
}

/// The fallback thread name when the OS name source is unavailable:
/// `Thread <tid>`.
pub open spec fn spec_thread_fallback(tid: nat) -> Seq<char> {
    seq!['T', 'h', 'r', 'e', 'a', 'd', ' '] + spec_dec(tid)
}

/// Renders the fallback thread name.
pub fn fallback_thread_name(tid: u64) -> (s: String)
    ensures
        s@ == spec_thread_fallback(tid as nat),
{
    proof {
        reveal_strlit("Thread ");
    }
    let mut s = "Thread ".to_owned();
    s.append(u64_to_dec(tid).as_str());
    proof {
        assert(s@ =~= spec_thread_fallback(tid as nat));
    }
    s
}

/// Sum of the counts of all rows.
pub open spec fn spec_total(s: Seq<ProfileEntry>) -> int
    decreases s.len(),
{
    if s.len() == 0 {
        0
    } else {
        spec_total(s.drop_last()) + s.last().count
    }
}

pub proof fn lemma_total_push(s: Seq<ProfileEntry>, e: ProfileEntry)
    ensures
        spec_total(s.push(e)) == spec_total(s) + e.count,
{
    assert(s.push(e).drop_last() =~= s);
}

pub proof fn lemma_total_update(s: Seq<ProfileEntry>, i: int, e: ProfileEntry)
    requires
        0 <= i < s.len(),
    ensures
        spec_total(s.update(i, e)) == spec_total(s) - s[i].count + e.count,
    decreases s.len(),
{
    let t = s.update(i, e);
    if i == s.len() - 1 {
        assert(t.drop_last() =~= s.drop_last());
    } else {
        assert(t.drop_last() =~= s.drop_last().update(i, e));
        lemma_total_update(s.drop_last(), i, e);
    }
}

/// Every count contributes at least one to the total.
pub proof fn lemma_total_at_least_entry(s: Seq<ProfileEntry>, i: int)
    requires
        0 <= i < s.len(),
        forall|k: int| 0 <= k < s.len() ==> (#[trigger] s[k]).count >= 1,
    ensures
        spec_total(s) >= s[i].count,
    decreases s.len(),
{
    lemma_total_nonneg(s);
    if i == s.len() - 1 {
        lemma_total_nonneg(s.drop_last());
    } else {
        lemma_total_at_least_entry(s.drop_last(), i);
    }
}

pub proof fn lemma_total_nonneg(s: Seq<ProfileEntry>)
    ensures
        spec_total(s) >= 0,
    decreases s.len(),
{
    if s.len() > 0 {
        lemma_total_nonneg(s.drop_last());
    }
}

/// Internal consistency of the rows: counts are strictly positive, stack
/// keys are unique, and all rows of one thread carry the same name.
pub open spec fn entries_wf(s: Seq<ProfileEntry>) -> bool {
    &&& forall|k: int| 0 <= k < s.len() ==> (#[trigger] s[k]).count >= 1
    &&& forall|k1: int, k2: int|
        0 <= k1 < k2 < s.len() ==> !((#[trigger] s[k1]).thread_id == (#[trigger] s[k2]).thread_id
            && frames_key(s[k1].frames@) == frames_key(s[k2].frames@))
    &&& forall|k1: int, k2: int|
        0 <= k1 < s.len() && 0 <= k2 < s.len() && (#[trigger] s[k1]).thread_id == (
        #[trigger] s[k2]).thread_id ==> s[k1].thread_name@ == s[k2].thread_name@
}

proof fn lemma_entries_wf_push(s: Seq<ProfileEntry>, e: ProfileEntry)
    requires
        entries_wf(s),
        e.count >= 1,
        forall|k: int|
            0 <= k < s.len() ==> !((#[trigger] s[k]).thread_id == e.thread_id && frames_key(
                s[k].frames@,
            ) == frames_key(e.frames@)),
        forall|k: int|
            0 <= k < s.len() && (#[trigger] s[k]).thread_id == e.thread_id ==> s[k].thread_name@
                == e.thread_name@,
    ensures
        entries_wf(s.push(e)),
{
    let t = s.push(e);
    let n = s.len() as int;
    assert forall|k1: int, k2: int| 0 <= k1 < k2 < t.len() implies !((
    #[trigger] t[k1]).thread_id == (#[trigger] t[k2]).thread_id && frames_key(t[k1].frames@)
        == frames_key(t[k2].frames@)) by {
        if k2 == n {
            assert(t[k1] == s[k1]);
        } else {
            assert(t[k1] == s[k1]);
            assert(t[k2] == s[k2]);
        }
    }
    assert forall|k1: int, k2: int|
        0 <= k1 < t.len() && 0 <= k2 < t.len() && (#[trigger] t[k1]).thread_id == (
        #[trigger] t[k2]).thread_id implies t[k1].thread_name@ == t[k2].thread_name@ by {
        if k1 < n && k2 < n {
            assert(t[k1] == s[k1]);
            assert(t[k2] == s[k2]);
        } else if k1 < n {
            assert(t[k1] == s[k1]);
        } else if k2 < n {
            assert(t[k2] == s[k2]);
        }
    }
}

/// The aggregated profile of one session.
pub struct Profile {
    /// Wall-clock start of the session, as seconds since the Unix epoch;
    /// `None` until the controller starts recording.
    pub start_time: Option<u64>,
    /// Length of the sampling window, in milliseconds.
    pub duration_ms: u64,
    /// Sampling frequency, in samples per second.
    pub frequency: u64,
    /// The rows, in order of first insertion.
    pub entries: Vec<ProfileEntry>,
}

impl Profile {
    /// True when a row with this exact stack key exists.
    pub open spec fn has_key(self, tid: u64, key: Seq<(Seq<char>, Seq<char>, u32)>) -> bool {
        exists|k: int|
            0 <= k < self.entries@.len() && (#[trigger] self.entries@[k]).thread_id == tid
                && frames_key(self.entries@[k].frames@) == key
    }

    /// Index of the row with this stack key (the first, though
    /// well-formedness makes it unique).
    pub open spec fn spec_key_index(self, tid: u64, key: Seq<(Seq<char>, Seq<char>, u32)>) -> int {
        choose|k: int|
            0 <= k < self.entries@.len() && (#[trigger] self.entries@[k]).thread_id == tid
                && frames_key(self.entries@[k].frames@) == key && forall|j: int|
                0 <= j < k ==> !((#[trigger] self.entries@[j]).thread_id == tid && frames_key(
                    self.entries@[j].frames@,
                ) == key)
    }

    /// True when some row belongs to this thread.
    pub open spec fn has_tid(self, tid: u64) -> bool {
        exists|k: int| 0 <= k < self.entries@.len() && (#[trigger] self.entries@[k]).thread_id == tid
    }

    /// Index of the first row of this thread.
    pub open spec fn spec_tid_index(self, tid: u64) -> int {
        choose|k: int|
            0 <= k < self.entries@.len() && (#[trigger] self.entries@[k]).thread_id == tid
                && forall|j: int| 0 <= j < k ==> (#[trigger] self.entries@[j]).thread_id != tid
    }

    /// The thread name a new row for `tid` receives: the name already on
    /// record for that thread if any (names are resolved once per thread and
    /// session), else the caller's hint (the OS name source), else the
    /// fallback `Thread <tid>`.
    pub open spec fn spec_resolved_name(self, tid: u64, hint: Option<Seq<char>>) -> Seq<char> {
        if self.has_tid(tid) {
            self.entries@[self.spec_tid_index(tid)].thread_name@
        } else {
            match hint {
                Option::Some(h) => h,
                Option::None => spec_thread_fallback(tid as nat),
            }
        }
    }

    /// Internal consistency of the profile's rows.
    pub open spec fn wf(self) -> bool {
        entries_wf(self.entries@)
    }

    /// Sum of all counts.
    pub open spec fn total_count(self) -> int {
        spec_total(self.entries@)
    }

    /// A fresh, empty profile for a window of `duration_ms` at `frequency`
    /// samples per second.
    pub fn new(duration_ms: u64, frequency: u64) -> (p: Profile)
        ensures
            p.wf(),
            p.start_time is None,
            p.duration_ms == duration_ms,
            p.frequency == frequency,
            p.entries@.len() == 0,
            p.total_count() == 0,
    {
        Profile { start_time: None, duration_ms, frequency, entries: Vec::new() }
    }

    fn find_key(&self, tid: u64, sample: &Vec<FrameSymbol>) -> (r: Option<usize>)
        ensures
            r is Some <==> self.has_key(tid, frames_key(sample@)),
            r is Some ==> r.unwrap() == self.spec_key_index(tid, frames_key(sample@)),
    {
        let ghost key = frames_key(sample@);
        let mut k: usize = 0;
        while k < self.entries.len()
            invariant
                k <= self.entries@.len(),
                key == frames_key(sample@),
                forall|j: int|
                    0 <= j < k ==> !((#[trigger] self.entries@[j]).thread_id == tid && frames_key(
                        self.entries@[j].frames@,
                    ) == key),
            decreases self.entries@.len() - k,
        {
            let e = self.entries.get(k).unwrap();
            if e.thread_id == tid && frames_equal(&e.frames, sample) {
                proof {
                    let idx = self.spec_key_index(tid, key);
                    assert(0 <= k < self.entries@.len() && self.entries@[k as int].thread_id == tid
                        && frames_key(self.entries@[k as int].frames@) == key && forall|j: int|
                        0 <= j < k ==> !((#[trigger] self.entries@[j]).thread_id == tid
                            && frames_key(self.entries@[j].frames@) == key));
                    assert(idx == k);
                }
                return Some(k);
            }
            k = k + 1;
        }
        None
    }

    fn find_tid_name(&self, tid: u64) -> (r: Option<String>)
        ensures
            r is Some <==> self.has_tid(tid),
            r is Some ==> {
                let t = self.spec_tid_index(tid);
                &&& 0 <= t < self.entries@.len()
                &&& self.entries@[t].thread_id == tid
                &&& r.unwrap()@ == self.entries@[t].thread_name@
            },
    {
        let mut k: usize = 0;
        while k < self.entries.len()
            invariant
                k <= self.entries@.len(),
                forall|j: int| 0 <= j < k ==> (#[trigger] self.entries@[j]).thread_id != tid,
            decreases self.entries@.len() - k,
        {
            let e = self.entries.get(k).unwrap();
            if e.thread_id == tid {
                proof {
                    let idx = self.spec_tid_index(tid);
                    assert(0 <= k < self.entries@.len() && self.entries@[k as int].thread_id == tid
                        && forall|j: int|
                        0 <= j < k ==> (#[trigger] self.entries@[j]).thread_id != tid);
                    assert(idx == k);
                }
                return Some(e.thread_name.clone());
            }
            k = k + 1;
        }
        None
    }

    fn bump(&mut self, i: usize, weight: u64)
        requires
            old(self).wf(),
            i < old(self).entries@.len(),
            weight >= 1,
            old(self).entries@[i as int].count + weight <= u64::MAX,
        ensures
            final(self).wf(),
            final(self).start_time == old(self).start_time,
            final(self).duration_ms == old(self).duration_ms,
            final(self).frequency == old(self).frequency,
            final(self).entries@.len() == old(self).entries@.len(),
            final(self).entries@[i as int].count == old(self).entries@[i as int].count + weight,
            final(self).entries@[i as int].thread_id == old(self).entries@[i as int].thread_id,
            final(self).entries@[i as int].thread_name@ == old(
                self,
            ).entries@[i as int].thread_name@,
            final(self).entries@[i as int].first_timestamp == old(
                self,
            ).entries@[i as int].first_timestamp,
            frames_key(final(self).entries@[i as int].frames@) == frames_key(
                old(self).entries@[i as int].frames@,
            ),
            forall|j: int|
                0 <= j < old(self).entries@.len() && j != i ==> final(self).entries@[j] == old(
                    self,
                ).entries@[j],
            final(self).total_count() == old(self).total_count() + weight,
    {
        let ghost old_entries = self.entries@;
        let e = self.entries.remove(i);
        let updated = ProfileEntry {
            thread_id: e.thread_id,
            thread_name: e.thread_name,
            first_timestamp: e.first_timestamp,
            frames: e.frames,
            count: e.count + weight,
        };
        self.entries.insert(i, updated);
        proof {
            assert(self.entries@ =~= old_entries.update(i as int, updated));
            lemma_total_update(old_entries, i as int, updated);
            assert forall|k: int| 0 <= k < self.entries@.len() implies {
                &&& (#[trigger] self.entries@[k]).thread_id == old_entries[k].thread_id
                &&& frames_key(self.entries@[k].frames@) == frames_key(old_entries[k].frames@)
                &&& self.entries@[k].thread_name@ == old_entries[k].thread_name@
                &&& self.entries@[k].count >= 1
            } by {
                if k != i {
                    assert(self.entries@[k] == old_entries[k]);
                }
            }
        }
    }

    fn resolve_name(&self, thread_id: u64, thread_name: Option<String>) -> (name: String)
        requires
            self.wf(),
        ensures
            name@ == self.spec_resolved_name(
                thread_id,
                match thread_name {
                    Option::Some(n) => Option::Some(n@),
                    Option::None => Option::None,
                },
            ),
            forall|k: int|
                0 <= k < self.entries@.len() && (#[trigger] self.entries@[k]).thread_id
                    == thread_id ==> self.entries@[k].thread_name@ == name@,
    {
        let r = match self.find_tid_name(thread_id) {
            Some(n) => n,
            None => match thread_name {
                Some(n) => n,
                None => fallback_thread_name(thread_id),
            },
        };
        r
    }

    fn insert_new(
        &mut self,
        thread_id: u64,
        timestamp: u64,
        sample: Vec<FrameSymbol>,
        weight: u64,
        thread_name: Option<String>,
    )
        requires
            old(self).wf(),
            weight >= 1,
            !old(self).has_key(thread_id, frames_key(sample@)),
        ensures
            final(self).wf(),
            final(self).start_time == old(self).start_time,
            final(self).duration_ms == old(self).duration_ms,
            final(self).frequency == old(self).frequency,
            final(self).entries@.len() == old(self).entries@.len() + 1,
            final(self).entries@.drop_last() == old(self).entries@,
            final(self).entries@.last().thread_id == thread_id,
            final(self).entries@.last().thread_name@ == old(self).spec_resolved_name(
                thread_id,
                match thread_name {
                    Option::Some(n) => Option::Some(n@),
                    Option::None => Option::None,
                },
            ),
            final(self).entries@.last().first_timestamp == timestamp,
            final(self).entries@.last().frames@ == sample@,
            final(self).entries@.last().count == weight,
            final(self).total_count() == old(self).total_count() + weight,
    {
        let name = self.resolve_name(thread_id, thread_name);
        let entry = ProfileEntry {
            thread_id,
            thread_name: name,
            first_timestamp: timestamp,
            frames: sample,
            count: weight,
        };
        proof {
            lemma_total_push(self.entries@, entry);
            lemma_entries_wf_push(self.entries@, entry);
        }
        let ghost old_entries = old(self).entries@;
        self.entries.push(entry);
        proof {
            assert(self.entries@.drop_last() =~= old_entries);
        }
    }

    /// Adds one sample for thread `tid`: create-or-increment of the stack
    /// key `(tid, sample)`.  On first insertion the row records the resolved
    /// thread name and this sample's timestamp; afterwards only the count
    /// grows, by `weight`.  `thread_name` is the OS name for the thread when
    /// the caller could read one.
    ///
    /// The profile transition is also captured by [`add_sample_rel`].
    pub fn add_sample(
        &mut self,
        thread_id: u64,
        timestamp: u64,
        sample: Vec<FrameSymbol>,
        weight: u64,
        thread_name: Option<String>,
    )
        requires
            old(self).wf(),
            weight >= 1,
            old(self).has_key(thread_id, frames_key(sample@)) ==> old(self).entries@[old(
                self,
            ).spec_key_index(thread_id, frames_key(sample@))].count + weight <= u64::MAX,
        ensures
            final(self).wf(),
            final(self).start_time == old(self).start_time,
            final(self).duration_ms == old(self).duration_ms,
            final(self).frequency == old(self).frequency,
            final(self).total_count() == old(self).total_count() + weight,
            if old(self).has_key(thread_id, frames_key(sample@)) {
                {
                    let i = old(self).spec_key_index(thread_id, frames_key(sample@));
                    &&& final(self).entries@.len() == old(self).entries@.len()
                    &&& final(self).entries@[i].count == old(self).entries@[i].count + weight
                    &&& final(self).entries@[i].thread_id == old(self).entries@[i].thread_id
                    &&& final(self).entries@[i].thread_name@ == old(
                        self,
                    ).entries@[i].thread_name@
                    &&& final(self).entries@[i].first_timestamp == old(
                        self,
                    ).entries@[i].first_timestamp
                    &&& frames_key(final(self).entries@[i].frames@) == frames_key(
                        old(self).entries@[i].frames@,
                    )
                    &&& forall|j: int|
                        0 <= j < old(self).entries@.len() && j != i ==> final(self).entries@[j]
                            == old(self).entries@[j]
                }
            } else {
                {
                    let e = final(self).entries@.last();
                    &&& final(self).entries@.len() == old(self).entries@.len() + 1
                    &&& final(self).entries@.drop_last() == old(self).entries@
                    &&& e.thread_id == thread_id
                    &&& e.thread_name@ == old(self).spec_resolved_name(
                        thread_id,
                        match thread_name {
                            Option::Some(n) => Option::Some(n@),
                            Option::None => Option::None,
                        },
                    )
                    &&& e.first_timestamp == timestamp
                    &&& e.frames@ == sample@
                    &&& e.count == weight
                }
            },
            add_sample_rel(*old(self), *final(self), thread_id, timestamp, frames_key(sample@), weight),
    {
        match self.find_key(thread_id, &sample) {
            Some(i) => {
                self.bump(i, weight);
            },
            None => {
                self.insert_new(thread_id, timestamp, sample, weight, thread_name);
            },
        }
    }
}

/// The profile transition that one `add_sample` call makes, in spec form:
/// an existing row for the key grows by `weight`, with every other row and
/// the profile's metadata untouched; a missing key appends one row holding
/// the key, the timestamp and `weight`.
pub open spec fn add_sample_rel(
    pre: Profile,
    post: Profile,
    tid: u64,
    ts: u64,
    key: Seq<(Seq<char>, Seq<char>, u32)>,
    weight: u64,
) -> bool {
    &&& post.start_time == pre.start_time
    &&& post.duration_ms == pre.duration_ms
    &&& post.frequency == pre.frequency
    &&& if pre.has_key(tid, key) {
        {
            let i = pre.spec_key_index(tid, key);
            &&& post.entries@.len() == pre.entries@.len()
            &&& post.entries@[i].count == pre.entries@[i].count + weight
            &&& post.entries@[i].thread_id == pre.entries@[i].thread_id
            &&& post.entries@[i].thread_name@ == pre.entries@[i].thread_name@
            &&& post.entries@[i].first_timestamp == pre.entries@[i].first_timestamp
            &&& frames_key(post.entries@[i].frames@) == frames_key(pre.entries@[i].frames@)
            &&& forall|j: int|
                0 <= j < pre.entries@.len() && j != i ==> post.entries@[j] == pre.entries@[j]
        }
    } else {
        {
            let e = post.entries@.last();
            &&& post.entries@.len() == pre.entries@.len() + 1
            &&& post.entries@.drop_last() == pre.entries@
            &&& e.thread_id == tid
            &&& frames_key(e.frames@) == key
            &&& e.first_timestamp == ts
            &&& e.count == weight
        }
    }
}

/// Law (merging of identical samples): when two samples with the same
/// thread id and the same resolved frame sequence land in a profile that
/// did not hold that stack key, the profile gains exactly one row for it,
/// and that row's count is the two weights combined — identical records of
/// weight one yield a single key with count two.
pub proof fn lemma_identical_samples_merge(
    p0: Profile,
    p1: Profile,
    p2: Profile,
    tid: u64,
    ts1: u64,
    ts2: u64,
    key: Seq<(Seq<char>, Seq<char>, u32)>,
    w1: u64,
    w2: u64,
)
    requires
        p0.wf(),
        !p0.has_key(tid, key),
        add_sample_rel(p0, p1, tid, ts1, key, w1),
        add_sample_rel(p1, p2, tid, ts2, key, w2),
    ensures
        p2.entries@.len() == p0.entries@.len() + 1,
        p2.has_key(tid, key),
        p2.entries@[p0.entries@.len() as int].count == w1 + w2,
        p2.entries@[p0.entries@.len() as int].thread_id == tid,
        frames_key(p2.entries@[p0.entries@.len() as int].frames@) == key,
        p2.entries@[p0.entries@.len() as int].first_timestamp == ts1,
        forall|j: int| 0 <= j < p0.entries@.len() ==> p2.entries@[j] == p0.entries@[j],
{
    let n = p0.entries@.len() as int;
    // After the first sample the key's row is the appended last row.
    assert(p1.entries@[n] == p1.entries@.last());
    assert(p1.has_key(tid, key));
    assert forall|j: int| 0 <= j < n implies p1.entries@[j] == p0.entries@[j] by {
        assert(p1.entries@.drop_last()[j] == p1.entries@[j]);
    }
    // It is also the first such row, since the earlier rows lack the key.
    let i = p1.spec_key_index(tid, key);
    assert(0 <= n < p1.entries@.len() && p1.entries@[n].thread_id == tid && frames_key(
        p1.entries@[n].frames@,
    ) == key && forall|j: int|
        0 <= j < n ==> !((#[trigger] p1.entries@[j]).thread_id == tid && frames_key(
            p1.entries@[j].frames@,
        ) == key));
    assert(i == n);
    assert(p2.entries@[n].count == w1 + w2);
    assert forall|j: int| 0 <= j < n implies p2.entries@[j] == p0.entries@[j] by {
        assert(p2.entries@[j] == p1.entries@[j]);
    }
    assert(p2.entries@[n].thread_id == tid && frames_key(p2.entries@[n].frames@) == key);
}

/// Compares two frame sequences as stack-key components.
pub fn frames_equal(a: &Vec<FrameSymbol>, b: &Vec<FrameSymbol>) -> (r: bool)
    ensures
        r == (frames_key(a@) == frames_key(b@)),
{
    if a.len() != b.len() {
        proof {
            assert(frames_key(a@).len() == a@.len());
            assert(frames_key(b@).len() == b@.len());
        }
        return false;
    }
    let mut k: usize = 0;
    while k < a.len()
        invariant
            a@.len() == b@.len(),
            k <= a@.len(),
            forall|j: int| 0 <= j < k ==> (#[trigger] a@[j]).key() == b@[j].key(),
        decreases a@.len() - k,
    {
        let fa = a.get(k).unwrap();
        let fb = b.get(k).unwrap();
        if !(fa.name == fb.name && fa.filename == fb.filename && fa.line == fb.line) {
            proof {
                assert(frames_key(a@)[k as int] == a@[k as int].key());
                assert(frames_key(b@)[k as int] == b@[k as int].key());
            }
            return false;
        }
        k = k + 1;
    }
    proof {
        assert(frames_key(a@) =~= frames_key(b@));
    }
    true
}

} // verus!
