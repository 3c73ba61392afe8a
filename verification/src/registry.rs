//! The table of tunnels that have been started: for each uid, the run it
//! belongs to (a generation number), its published status, its metrics and
//! whether its supervisor has ended. Updates from an earlier run of the same
//! uid carry an old generation and are ignored.
use vstd::prelude::*;
use crate::config::strings_view;
use crate::keyed::{
    find_by, index_by, keys_unique, lemma_index_by, lemma_index_by_is, lemma_push_new,
    lemma_push_new_unique, lemma_update_at, lemma_update_unique, lemma_without_by,
    lemma_without_by_unique, without_by,
};
use crate::status::{TunnelMetrics, TunnelStats, TunnelStatus, latency_reading, latency_slot};

verus! {

/// One started tunnel.
#[derive(Debug)]
pub struct TunnelEntry {
    pub uid: String,
    /// Which run of this uid the entry belongs to.
    pub generation: u64,
    pub status: TunnelStatus,
    pub metrics: TunnelMetrics,
    /// The supervisor has ended.
    pub finished: bool,
}

impl Clone for TunnelEntry {
    fn clone(&self) -> (res: Self)
        ensures
            res == *self,
    {
        TunnelEntry {
            uid: self.uid.clone(),
            generation: self.generation,
            status: self.status.clone(),
            metrics: self.metrics.clone(),
            finished: self.finished,
        }
    }
}

/// An entry's key: its uid.
pub open spec fn entry_uid() -> spec_fn(TunnelEntry) -> Seq<char> {
    |e: TunnelEntry| e.uid@
}

/// The result of asking to start a tunnel.
#[derive(Debug, PartialEq, Eq, Clone, Copy)]
pub enum StartDecision {
    /// A live supervisor already runs it; nothing to do.
    AlreadyRunning,
    /// Spawn a supervisor for this run.
    Spawn { generation: u64 },
}

/// A change to a started tunnel's entry, reported by its supervisor.
#[derive(Debug, PartialEq, Eq)]
pub enum EntryUpdate {
    /// Publish a new status.
    Status(TunnelStatus),
    /// The supervisor has ended.
    Finished,
    /// `n` more bytes were relayed from the local side.
    Up(u64),
    /// `n` more bytes were relayed from the remote side.
    Down(u64),
    /// A latency reading (`None`: unknown).
    Latency(Option<u64>),
}

/// An entry after an update.
pub open spec fn apply_update(e: TunnelEntry, u: EntryUpdate) -> TunnelEntry {
    match u {
        EntryUpdate::Status(s) => TunnelEntry { status: s, ..e },
        EntryUpdate::Finished => TunnelEntry { finished: true, ..e },
        EntryUpdate::Up(n) => TunnelEntry {
            metrics: TunnelMetrics { up: ((e.metrics.up + n) % 0x1_0000_0000_0000_0000) as u64, ..e.metrics },
            ..e
        },
        EntryUpdate::Down(n) => TunnelEntry {
            metrics: TunnelMetrics { down: ((e.metrics.down + n) % 0x1_0000_0000_0000_0000) as u64, ..e.metrics },
            ..e
        },
        EntryUpdate::Latency(ms) => TunnelEntry {
            metrics: TunnelMetrics { latency: latency_slot(ms), ..e.metrics },
            ..e
        },
    }
}

pub struct TunnelRegistry {
    pub entries: Vec<TunnelEntry>,
    pub next_generation: u64,
}

impl TunnelRegistry {
    /// The registry's invariant: at most one entry per uid.
    pub open spec fn wf(&self) -> bool {
        keys_unique(self.entries@, entry_uid())
    }
}

/// The entry of `uid`, if any.
pub open spec fn entry_of(entries: Seq<TunnelEntry>, uid: Seq<char>) -> Option<TunnelEntry> {
    find_by(entries, entry_uid(), uid)
}

/// A supervisor runs `uid` and has not ended.
pub open spec fn active_spec(entries: Seq<TunnelEntry>, uid: Seq<char>) -> bool {
    match entry_of(entries, uid) {
        Some(e) => !e.finished,
        None => false,
    }
}

/// The status shown for `uid`: its entry's, or `Stopped` when it has none.
pub open spec fn status_spec(entries: Seq<TunnelEntry>, uid: Seq<char>) -> TunnelStatus {
    match entry_of(entries, uid) {
        Some(e) => e.status,
        None => TunnelStatus::Stopped,
    }
}

/// The snapshot shown for `uid`: its entry's status and metrics, or stopped and zero.
pub open spec fn stats_spec(entries: Seq<TunnelEntry>, uid: Seq<char>) -> TunnelStats {
    match entry_of(entries, uid) {
        Some(e) => TunnelStats {
            status: e.status,
            latency_ms: latency_reading(e.metrics.latency),
            up: e.metrics.up,
            down: e.metrics.down,
        },
        None => TunnelStats { status: TunnelStatus::Stopped, latency_ms: None, up: 0, down: 0 },
    }
}

/// The entry of `uid` belongs to run `generation`.
pub open spec fn is_current(entries: Seq<TunnelEntry>, uid: Seq<char>, generation: u64) -> bool {
    match entry_of(entries, uid) {
        Some(e) => e.generation == generation,
        None => false,
    }
}

impl TunnelRegistry {
    pub fn new() -> (r: Self)
        ensures
            r.entries@.len() == 0,
            r.next_generation == 0,
            r.wf(),
    {
        TunnelRegistry { entries: Vec::new(), next_generation: 0 }
    }

    fn position(&self, uid: &str) -> (r: Option<usize>)
        ensures
            match r {
                Some(i) => i as int == index_by(self.entries@, entry_uid(), uid@) && i < self.entries@.len(),
                None => index_by(self.entries@, entry_uid(), uid@) == -1,
            },
    {
        proof {
            lemma_index_by(self.entries@, entry_uid(), uid@);
        }
        let mut i: usize = 0;
        while i < self.entries.len()
            invariant
                i <= self.entries@.len(),
                forall|j: int| 0 <= j < i ==> #[trigger] self.entries@[j].uid@ != uid@,
            decreases self.entries.len() - i,
        {
            if crate::text::str_eq(self.entries[i].uid.as_str(), uid) {
                proof {
                    lemma_index_by_is(self.entries@, entry_uid(), uid@, i as int);
                }
                return Some(i);
            }
            i = i + 1;
        }
        proof {
            lemma_index_by_is(self.entries@, entry_uid(), uid@, -1);
        }
        None
    }

    /// Position of the entry of `uid` when it belongs to run `generation`.
    fn current(&self, uid: &str, generation: u64) -> (r: Option<usize>)
        ensures
            match r {
                Some(i) => i as int == index_by(self.entries@, entry_uid(), uid@) && i < self.entries@.len()
                    && is_current(self.entries@, uid@, generation),
                None => !is_current(self.entries@, uid@, generation),
            },
    {
        match self.position(uid) {
            Some(i) => {
                if self.entries[i].generation == generation {
                    Some(i)
                } else {
                    None
                }
            },
            None => None,
        }
    }

    /// Whether a supervisor runs `uid` and has not ended.
    pub fn is_active(&self, uid: &str) -> (r: bool)
        ensures
            r == active_spec(self.entries@, uid@),
    {
        match self.position(uid) {
            Some(i) => !self.entries[i].finished,
            None => false,
        }
    }

    /// Forgets every entry of `uid`; true when it had one.
    pub fn stop(&mut self, uid: &str) -> (had: bool)
        ensures
            had == (entry_of(old(self).entries@, uid@) is Some),
            final(self).entries@ == without_by(old(self).entries@, entry_uid(), uid@),
            final(self).next_generation == old(self).next_generation,
            old(self).wf() ==> final(self).wf(),
    {
        proof {
            if old(self).wf() {
                lemma_without_by_unique(old(self).entries@, entry_uid(), uid@);
            }
        }
        let had = self.position(uid).is_some();
        let mut old_entries: Vec<TunnelEntry> = Vec::new();
        std::mem::swap(&mut old_entries, &mut self.entries);
        let ghost orig = old_entries@;
        let mut kept: Vec<TunnelEntry> = Vec::new();
        let mut i: usize = 0;
        while i < old_entries.len()
            invariant
                old_entries@ == orig,
                i <= orig.len(),
                kept@ == without_by(orig.subrange(0, i as int), entry_uid(), uid@),
            decreases orig.len() - i,
        {
            proof {
                assert(orig.subrange(0, i + 1).drop_last() =~= orig.subrange(0, i as int));
            }
            if !crate::text::str_eq(old_entries[i].uid.as_str(), uid) {
                kept.push(old_entries[i].clone());
            }
            i = i + 1;
        }
        proof {
            assert(orig.subrange(0, orig.len() as int) =~= orig);
        }
        self.entries = kept;
        had
    }

    /// Registers a new run of `uid` unless a live supervisor already runs it. A new
    /// run replaces any ended entry of `uid`, starts as `Connecting` with fresh
    /// metrics, and takes the next generation number.
    pub fn start(&mut self, uid: &str) -> (d: StartDecision)
        ensures
            active_spec(old(self).entries@, uid@) ==> d == StartDecision::AlreadyRunning
                && final(self).entries@ == old(self).entries@
                && final(self).next_generation == old(self).next_generation,
            !active_spec(old(self).entries@, uid@) ==> {
                let w = without_by(old(self).entries@, entry_uid(), uid@);
                let e = final(self).entries@.last();
                &&& d == (StartDecision::Spawn { generation: old(self).next_generation })
                &&& final(self).next_generation == (if old(self).next_generation == u64::MAX {
                    0
                } else {
                    old(self).next_generation + 1
                })
                &&& final(self).entries@.len() == w.len() + 1
                &&& final(self).entries@.drop_last() == w
                &&& e.uid@ == uid@
                &&& e.generation == old(self).next_generation
                &&& e.status == TunnelStatus::Connecting
                &&& e.metrics == (TunnelMetrics { up: 0, down: 0, latency: u64::MAX })
                &&& !e.finished
                &&& entry_of(final(self).entries@, uid@) == Some(e)
                &&& active_spec(final(self).entries@, uid@)
                &&& forall|other: Seq<char>|
                    other != uid@ ==> #[trigger] entry_of(final(self).entries@, other) == entry_of(
                        old(self).entries@,
                        other,
                    )
            },
            old(self).wf() ==> final(self).wf(),
    {
        if self.is_active(uid) {
            return StartDecision::AlreadyRunning;
        }
        let generation = self.next_generation;
        self.stop(uid);
        let ghost w = self.entries@;
        let e = TunnelEntry {
            uid: String::from_str(uid),
            generation,
            status: TunnelStatus::Connecting,
            metrics: TunnelMetrics::new(),
            finished: false,
        };
        self.entries.push(e);
        self.next_generation = generation.wrapping_add(1);
        proof {
            assert(self.entries@.drop_last() =~= w);
            assert forall|other: Seq<char>| other != uid@ implies #[trigger] entry_of(self.entries@, other)
                == entry_of(old(self).entries@, other) by {
                lemma_without_by(old(self).entries@, entry_uid(), uid@, other);
                lemma_push_new(w, entry_uid(), self.entries@.last(), other);
            }
            lemma_without_by(old(self).entries@, entry_uid(), uid@, uid@);
            lemma_index_by(w, entry_uid(), uid@);
            lemma_push_new(w, entry_uid(), self.entries@.last(), uid@);
            if old(self).wf() {
                lemma_push_new_unique(w, entry_uid(), self.entries@.last());
            }
        }
        StartDecision::Spawn { generation }
    }

    /// Forgets every entry and gives back their uids, in order.
    pub fn drain(&mut self) -> (uids: Vec<String>)
        ensures
            strings_view(uids@) == old(self).entries@.map_values(|e: TunnelEntry| e.uid@),
            final(self).entries@.len() == 0,
            final(self).next_generation == old(self).next_generation,
            final(self).wf(),
    {
        let mut uids: Vec<String> = Vec::new();
        let mut i: usize = 0;
        while i < self.entries.len()
            invariant
                i <= self.entries@.len(),
                self.entries@ == old(self).entries@,
                self.next_generation == old(self).next_generation,
                uids@.len() == i,
                forall|j: int| 0 <= j < i ==> #[trigger] uids@[j]@ == self.entries@[j].uid@,
            decreases self.entries.len() - i,
        {
            let u = self.entries[i].uid.clone();
            uids.push(u);
            i = i + 1;
        }
        self.entries = Vec::new();
        proof {
            assert(strings_view(uids@) =~= old(self).entries@.map_values(|e: TunnelEntry| e.uid@));
        }
        uids
    }

    /// Applies `update` to the entry of `uid` when it belongs to run `generation`;
    /// an update from any other run is ignored. True when applied.
    pub fn apply(&mut self, uid: &str, generation: u64, update: EntryUpdate) -> (applied: bool)
        ensures
            applied == is_current(old(self).entries@, uid@, generation),
            final(self).next_generation == old(self).next_generation,
            applied ==> entry_of(final(self).entries@, uid@) == Some(
                apply_update(entry_of(old(self).entries@, uid@).unwrap(), update),
            ),
            !applied ==> final(self).entries@ == old(self).entries@,
            forall|other: Seq<char>|
                other != uid@ ==> #[trigger] entry_of(final(self).entries@, other) == entry_of(
                    old(self).entries@,
                    other,
                ),
            old(self).wf() ==> final(self).wf(),
    {
        match self.current(uid, generation) {
            Some(i) => {
                let mut e = self.entries[i].clone();
                match update {
                    EntryUpdate::Status(s) => {
                        e.status = s;
                    },
                    EntryUpdate::Finished => {
                        e.finished = true;
                    },
                    EntryUpdate::Up(n) => {
                        e.metrics.add_up(n);
                    },
                    EntryUpdate::Down(n) => {
                        e.metrics.add_down(n);
                    },
                    EntryUpdate::Latency(ms) => {
                        e.metrics.set_latency(ms);
                    },
                }
                let ghost ne = e;
                self.entries.set(i, e);
                proof {
                    lemma_index_by(old(self).entries@, entry_uid(), uid@);
                    assert forall|other: Seq<char>| other != uid@ implies #[trigger] entry_of(self.entries@, other)
                        == entry_of(old(self).entries@, other) by {
                        lemma_update_at(old(self).entries@, entry_uid(), i as int, ne, other);
                    }
                    lemma_update_at(old(self).entries@, entry_uid(), i as int, ne, uid@);
                    if old(self).wf() {
                        lemma_update_unique(old(self).entries@, entry_uid(), i as int, ne);
                    }
                }
                true
            },
            None => false,
        }
    }

    /// The status shown for `uid`.
    pub fn status_of(&self, uid: &str) -> (s: TunnelStatus)
        ensures
            s == status_spec(self.entries@, uid@),
    {
        proof {
            lemma_index_by(self.entries@, entry_uid(), uid@);
        }
        match self.position(uid) {
            Some(i) => self.entries[i].status.clone(),
            None => TunnelStatus::Stopped,
        }
    }

    /// The snapshot shown for `uid`.
    pub fn stats_of(&self, uid: &str) -> (s: TunnelStats)
        ensures
            s == stats_spec(self.entries@, uid@),
    {
        proof {
            lemma_index_by(self.entries@, entry_uid(), uid@);
        }
        match self.position(uid) {
            Some(i) => TunnelStats::from_metrics(self.entries[i].status.clone(), &self.entries[i].metrics),
            None => TunnelStats::stopped(),
        }
    }
}

// ---- laws ----------------------------------------------------------------

/// Traffic reports add up, like an atomic `fetch_add`: an `Up` (or `Down`) report
/// of `n` bytes adds `n`, wrapping at 2^64, to that direction's counter, so two
/// reports of `a` then `b` add `a + b`; the other direction, the latency, the
/// status and the run are left as they were.
pub proof fn law_traffic_reports_accumulate(e: TunnelEntry, a: u64, b: u64)
    ensures
        apply_update(e, EntryUpdate::Up(a)).metrics.up == (e.metrics.up + a) % 0x1_0000_0000_0000_0000,
        apply_update(apply_update(e, EntryUpdate::Up(a)), EntryUpdate::Up(b)).metrics.up == (e.metrics.up + a
            + b) % 0x1_0000_0000_0000_0000,
        apply_update(e, EntryUpdate::Up(a)).metrics.down == e.metrics.down,
        apply_update(e, EntryUpdate::Up(a)).metrics.latency == e.metrics.latency,
        apply_update(e, EntryUpdate::Down(a)).metrics.down == (e.metrics.down + a) % 0x1_0000_0000_0000_0000,
        apply_update(apply_update(e, EntryUpdate::Down(a)), EntryUpdate::Down(b)).metrics.down == (
        e.metrics.down + a + b) % 0x1_0000_0000_0000_0000,
        apply_update(e, EntryUpdate::Down(a)).metrics.up == e.metrics.up,
        apply_update(e, EntryUpdate::Down(a)).metrics.latency == e.metrics.latency,
        apply_update(e, EntryUpdate::Up(a)).status == e.status,
        apply_update(e, EntryUpdate::Down(a)).status == e.status,
        apply_update(e, EntryUpdate::Up(a)).generation == e.generation,
        apply_update(e, EntryUpdate::Down(a)).generation == e.generation,
        apply_update(e, EntryUpdate::Up(a)).finished == e.finished,
        apply_update(e, EntryUpdate::Down(a)).finished == e.finished,
{
    let m: int = 0x1_0000_0000_0000_0000;
    let x = e.metrics.up as int;
    let y = e.metrics.down as int;
    assert(((x + a) % m + b) % m == (x + a + b) % m) by {
        vstd::arithmetic::div_mod::lemma_add_mod_noop(x + a, b as int, m);
        vstd::arithmetic::div_mod::lemma_mod_twice(b as int, m);
        vstd::arithmetic::div_mod::lemma_small_mod(b as nat, m as nat);
    }
    assert(((y + a) % m + b) % m == (y + a + b) % m) by {
        vstd::arithmetic::div_mod::lemma_add_mod_noop(y + a, b as int, m);
        vstd::arithmetic::div_mod::lemma_small_mod(b as nat, m as nat);
    }
}

/// A latency report reads back in the snapshot: after `Latency(ms)` the shown
/// latency is `ms` (a reading of `u64::MAX` ms, the stored value for "unknown",
/// reads back as unknown); status and counters are left as they were.
pub proof fn law_latency_report_is_shown(entries: Seq<TunnelEntry>, uid: Seq<char>, e: TunnelEntry, ms: Option<u64>)
    requires
        entry_of(entries, uid) == Some(apply_update(e, EntryUpdate::Latency(ms))),
    ensures
        ms != Some(u64::MAX) ==> stats_spec(entries, uid).latency_ms == ms,
        ms == Some(u64::MAX) ==> stats_spec(entries, uid).latency_ms == None::<u64>,
        stats_spec(entries, uid).up == e.metrics.up,
        stats_spec(entries, uid).down == e.metrics.down,
        stats_spec(entries, uid).status == e.status,
{
}

/// The status shown for a started tunnel is the last status its run published,
/// also after its supervisor has ended (a final `Error` stays visible);
/// `Stopped` is shown exactly for a uid with no entry.
pub proof fn law_shown_status_is_last_published(
    entries: Seq<TunnelEntry>,
    uid: Seq<char>,
    e: TunnelEntry,
    s: TunnelStatus,
)
    ensures
        entry_of(entries, uid) == Some(apply_update(apply_update(e, EntryUpdate::Status(s)), EntryUpdate::Finished))
            ==> status_spec(entries, uid) == s && stats_spec(entries, uid).status == s,
        entry_of(entries, uid) == Some(apply_update(e, EntryUpdate::Status(s))) ==> status_spec(entries, uid) == s
            && stats_spec(entries, uid).status == s,
        entry_of(entries, uid) matches Some(x) ==> status_spec(entries, uid) == x.status,
        entry_of(entries, uid) is None ==> status_spec(entries, uid) == TunnelStatus::Stopped && stats_spec(
            entries,
            uid,
        ) == (TunnelStats { status: TunnelStatus::Stopped, latency_ms: None, up: 0, down: 0 }),
{
}

/// A tunnel counts as running exactly while its run's supervisor has not ended:
/// once the run reports `Finished` it can be started again (a new run is
/// spawned), and a uid with no entry is not running.
pub proof fn law_running_until_finished(entries: Seq<TunnelEntry>, uid: Seq<char>, e: TunnelEntry)
    ensures
        entry_of(entries, uid) == Some(apply_update(e, EntryUpdate::Finished)) ==> !active_spec(entries, uid),
        entry_of(entries, uid) == Some(e) && !e.finished ==> active_spec(entries, uid),
        entry_of(entries, uid) is None ==> !active_spec(entries, uid),
        apply_update(e, EntryUpdate::Finished).status == e.status,
        apply_update(e, EntryUpdate::Finished).metrics == e.metrics,
{
}

} // verus!
