//! Per-tunnel log buffers: each keeps the most recent 500 entries (a ring
//! buffer by uid, in memory only).
use vstd::prelude::*;
use std::collections::VecDeque;
use crate::keyed::{
    find_by, index_by, keys_unique, lemma_index_by, lemma_index_by_is, lemma_push_new,
    lemma_push_new_unique, lemma_update_at, lemma_update_unique, lemma_without_by,
    lemma_without_by_unique, without_by,
};
use crate::status::SshLogEntry;

verus! {

/// Largest number of entries kept per tunnel.
pub const MAX_LOGS_PER_TUNNEL: usize = 500;

/// The text is a time of day as `%H:%M:%S` writes it: two digits, a colon, two
/// digits, a colon, two digits.
pub open spec fn is_clock_text(s: Seq<char>) -> bool {
    &&& s.len() == 8
    &&& s[2] == ':'
    &&& s[5] == ':'
    &&& forall|i: int| 0 <= i < 8 && i != 2 && i != 5 ==> '0' <= #[trigger] s[i] <= '9'
}

/// The local time of day, from `chrono::Local::now().format("%H:%M:%S")`. Which
/// time it is is not stated (it depends on the clock and the time zone); its form
/// is fixed by the format.
#[verifier::external_body]
pub(crate) fn local_time_hms() -> (s: String)
    ensures
        is_clock_text(s@),
{
    chrono::Local::now().format("%H:%M:%S").to_string()
}

/// The log of one tunnel.
pub struct LogBuffer {
    pub uid: String,
    pub entries: VecDeque<SshLogEntry>,
}

/// A buffer's key: its uid.
pub open spec fn buffer_uid() -> spec_fn(LogBuffer) -> Seq<char> {
    |b: LogBuffer| b.uid@
}

/// All tunnels' logs.
pub struct LogStore {
    pub buffers: Vec<LogBuffer>,
}

/// The entries kept for `uid`, oldest first.
pub open spec fn logs_spec(buffers: Seq<LogBuffer>, uid: Seq<char>) -> Seq<SshLogEntry> {
    match find_by(buffers, buffer_uid(), uid) {
        Some(b) => b.entries@,
        None => Seq::empty(),
    }
}

/// Every buffer holds at most `MAX_LOGS_PER_TUNNEL` entries.
pub open spec fn bounded(buffers: Seq<LogBuffer>) -> bool {
    forall|i: int| 0 <= i < buffers.len() ==> (#[trigger] buffers[i]).entries@.len() <= MAX_LOGS_PER_TUNNEL
}

/// The entries after appending `entry` to `log`: the oldest one is dropped when
/// the log is full.
pub open spec fn appended(log: Seq<SshLogEntry>, entry: SshLogEntry) -> Seq<SshLogEntry> {
    if log.len() >= MAX_LOGS_PER_TUNNEL {
        log.drop_first().push(entry)
    } else {
        log.push(entry)
    }
}

impl LogStore {
    /// The store's invariant: at most one buffer per uid.
    pub open spec fn wf(&self) -> bool {
        keys_unique(self.buffers@, buffer_uid())
    }

    pub fn new() -> (s: Self)
        ensures
            s.buffers@.len() == 0,
            s.wf(),
    {
        LogStore { buffers: Vec::new() }
    }

    fn position(&self, uid: &str) -> (r: Option<usize>)
        ensures
            match r {
                Some(i) => i as int == index_by(self.buffers@, buffer_uid(), uid@) && i < self.buffers@.len(),
                None => index_by(self.buffers@, buffer_uid(), uid@) == -1,
            },
    {
        proof {
            lemma_index_by(self.buffers@, buffer_uid(), uid@);
        }
        let mut i: usize = 0;
        while i < self.buffers.len()
            invariant
                i <= self.buffers@.len(),
                forall|j: int| 0 <= j < i ==> #[trigger] self.buffers@[j].uid@ != uid@,
            decreases self.buffers.len() - i,
        {
            if crate::text::str_eq(self.buffers[i].uid.as_str(), uid) {
                proof {
                    lemma_index_by_is(self.buffers@, buffer_uid(), uid@, i as int);
                }
                return Some(i);
            }
            i = i + 1;
        }
        proof {
            lemma_index_by_is(self.buffers@, buffer_uid(), uid@, -1);
        }
        None
    }

    /// Appends `entry` to the log of `uid`, dropping its oldest entry when full.
    pub fn append(&mut self, uid: &str, entry: SshLogEntry)
        ensures
            logs_spec(final(self).buffers@, uid@) == appended(logs_spec(old(self).buffers@, uid@), entry),
            forall|other: Seq<char>|
                other != uid@ ==> #[trigger] logs_spec(final(self).buffers@, other) == logs_spec(
                    old(self).buffers@,
                    other,
                ),
            bounded(old(self).buffers@) ==> bounded(final(self).buffers@),
            old(self).wf() ==> final(self).wf(),
    {
        proof {
            lemma_index_by(self.buffers@, buffer_uid(), uid@);
        }
        match self.position(uid) {
            Some(i) => {
                let mut buffers: Vec<LogBuffer> = Vec::new();
                std::mem::swap(&mut buffers, &mut self.buffers);
                let ghost before = buffers@;
                let mut b = buffers.remove(i);
                let ghost old_entries = b.entries@;
                if b.entries.len() >= MAX_LOGS_PER_TUNNEL {
                    b.entries.pop_front();
                }
                b.entries.push_back(entry);
                buffers.insert(i, b);
                proof {
                    assert(buffers@ =~= before.update(i as int, buffers@[i as int]));
                    let nb = buffers@[i as int];
                    assert(nb.entries@ =~= appended(old_entries, entry));
                    assert forall|other: Seq<char>| other != uid@ implies #[trigger] logs_spec(buffers@, other)
                        == logs_spec(before, other) by {
                        lemma_update_at(before, buffer_uid(), i as int, nb, other);
                    }
                    lemma_update_at(before, buffer_uid(), i as int, nb, uid@);
                    if keys_unique(before, buffer_uid()) {
                        lemma_update_unique(before, buffer_uid(), i as int, nb);
                    }
                    if bounded(before) {
                        assert forall|j: int| 0 <= j < buffers@.len() implies (#[trigger] buffers@[j]).entries@.len()
                            <= MAX_LOGS_PER_TUNNEL by {
                            if j != i {
                                assert(buffers@[j] == before[j]);
                            }
                        }
                    }
                }
                self.buffers = buffers;
            },
            None => {
                let mut entries: VecDeque<SshLogEntry> = VecDeque::new();
                entries.push_back(entry);
                let b = LogBuffer { uid: String::from_str(uid), entries };
                let ghost before = self.buffers@;
                self.buffers.push(b);
                proof {
                    let nb = self.buffers@.last();
                    assert(nb.entries@ =~= appended(Seq::empty(), entry));
                    assert forall|other: Seq<char>| other != uid@ implies #[trigger] logs_spec(self.buffers@, other)
                        == logs_spec(before, other) by {
                        lemma_push_new(before, buffer_uid(), nb, other);
                    }
                    lemma_push_new(before, buffer_uid(), nb, uid@);
                    if keys_unique(before, buffer_uid()) {
                        lemma_push_new_unique(before, buffer_uid(), nb);
                    }
                    if bounded(before) {
                        assert forall|j: int| 0 <= j < self.buffers@.len() implies (#[trigger] self.buffers@[j]).entries@.len()
                            <= MAX_LOGS_PER_TUNNEL by {
                            if j < before.len() {
                                assert(self.buffers@[j] == before[j]);
                            }
                        }
                    }
                }
            },
        }
    }

    /// The entries kept for `uid`, oldest first (empty when it has none).
    pub fn get(&self, uid: &str) -> (r: Vec<SshLogEntry>)
        ensures
            r@ == logs_spec(self.buffers@, uid@),
    {
        proof {
            lemma_index_by(self.buffers@, buffer_uid(), uid@);
        }
        match self.position(uid) {
            Some(i) => {
                let b = &self.buffers[i];
                let mut r: Vec<SshLogEntry> = Vec::new();
                let mut j: usize = 0;
                while j < b.entries.len()
                    invariant
                        j <= b.entries@.len(),
                        r@ == b.entries@.subrange(0, j as int),
                    decreases b.entries.len() - j,
                {
                    r.push(b.entries[j].clone());
                    proof {
                        assert(r@ =~= b.entries@.subrange(0, j + 1));
                    }
                    j = j + 1;
                }
                proof {
                    assert(b.entries@.subrange(0, b.entries@.len() as int) =~= b.entries@);
                }
                r
            },
            None => Vec::new(),
        }
    }

    /// Forgets the log of `uid`.
    pub fn clear(&mut self, uid: &str)
        ensures
            logs_spec(final(self).buffers@, uid@) == Seq::<SshLogEntry>::empty(),
            forall|other: Seq<char>|
                other != uid@ ==> #[trigger] logs_spec(final(self).buffers@, other) == logs_spec(
                    old(self).buffers@,
                    other,
                ),
            bounded(old(self).buffers@) ==> bounded(final(self).buffers@),
            old(self).wf() ==> final(self).wf(),
    {
        let mut old_buffers: Vec<LogBuffer> = Vec::new();
        std::mem::swap(&mut old_buffers, &mut self.buffers);
        let ghost orig = old_buffers@;
        let mut kept: Vec<LogBuffer> = Vec::new();
        let mut rest = old_buffers;
        // move the buffers to keep, front to back
        let n = rest.len();
        let mut i: usize = 0;
        while i < n
            invariant
                n == orig.len(),
                i <= n,
                rest@ == orig.subrange(i as int, n as int),
                kept@ == without_by(orig.subrange(0, i as int), buffer_uid(), uid@),
            decreases n - i,
        {
            let b = rest.remove(0);
            proof {
                assert(b == orig[i as int]);
                assert(orig.subrange(0, i + 1).drop_last() =~= orig.subrange(0, i as int));
                assert(orig.subrange(0, i + 1).last() == orig[i as int]);
            }
            if !crate::text::str_eq(b.uid.as_str(), uid) {
                kept.push(b);
            }
            proof {
                assert(rest@ =~= orig.subrange(i + 1, n as int));
            }
            i = i + 1;
        }
        proof {
            assert(orig.subrange(0, n as int) =~= orig);
            lemma_without_by(orig, buffer_uid(), uid@, uid@);
            if keys_unique(orig, buffer_uid()) {
                lemma_without_by_unique(orig, buffer_uid(), uid@);
            }
            assert forall|other: Seq<char>| other != uid@ implies #[trigger] logs_spec(kept@, other) == logs_spec(
                orig,
                other,
            ) by {
                lemma_without_by(orig, buffer_uid(), uid@, other);
            }
            if bounded(orig) {
                assert forall|j: int| 0 <= j < kept@.len() implies (#[trigger] kept@[j]).entries@.len() <= MAX_LOGS_PER_TUNNEL by {
                    assert(orig.contains(kept@[j]));
                }
            }
        }
        self.buffers = kept;
    }
}

} // verus!
