//! The tunnel manager: the server configuration, the table of started
//! tunnels and their logs, and the rules that tie them together. Persisting
//! the configuration and running the supervisors is the caller's part: each
//! operation says what to persist, start or stop.
use vstd::prelude::*;
use crate::config::{
    enabled_uids_spec, find_spec, first_index, port_taken_by_other, strings_view, uids_spec,
    upsert_spec, without_uid, ISshConfig, ISshServer,
};
use crate::logs::{appended, bounded, is_clock_text, local_time_hms, logs_spec, LogStore};
use crate::registry::{
    active_spec, entry_of, status_spec, stats_spec, EntryUpdate, StartDecision, TunnelEntry, TunnelRegistry,
    entry_uid,
};
use crate::keyed::without_by;
use crate::status::{SshLogEntry, TunnelMetrics, TunnelStats, TunnelStatus};
use crate::text::{decimal, push_decimal};

verus! {

/// Why a configuration change or a start was refused.
#[derive(Debug, PartialEq, Eq, Clone, Copy)]
pub enum SshError {
    /// Another tunnel already listens on this local port.
    PortTaken(u16),
    /// The local port is one of mihomo's ports.
    MihomoPortConflict(u16),
    /// No server entry has the uid.
    ServerNotFound,
}

impl SshError {
    pub open spec fn message_spec(self) -> Seq<char> {
        match self {
            SshError::PortTaken(p) => "本地端口 "@ + decimal(p as nat) + " 已被其它隧道占用"@,
            SshError::MihomoPortConflict(p) => "本地端口 "@ + decimal(p as nat) + " 与 mihomo 端口冲突"@,
            SshError::ServerNotFound => "未找到该 SSH 服务器"@,
        }
    }

    /// The message shown to the user.
    pub fn message(self) -> (m: String)
        ensures
            m@ == self.message_spec(),
    {
        match self {
            SshError::PortTaken(p) => {
                let mut m = String::from_str("本地端口 ");
                push_decimal(&mut m, p as u64);
                m.append(" 已被其它隧道占用");
                m
            },
            SshError::MihomoPortConflict(p) => {
                let mut m = String::from_str("本地端口 ");
                push_decimal(&mut m, p as u64);
                m.append(" 与 mihomo 端口冲突");
                m
            },
            SshError::ServerNotFound => String::from_str("未找到该 SSH 服务器"),
        }
    }
}

/// The ports mihomo listens on (mixed, SOCKS and HTTP), when set.
#[derive(Debug, PartialEq, Eq, Clone, Copy)]
pub struct MihomoPorts {
    pub mixed_port: Option<u16>,
    pub socks_port: Option<u16>,
    pub port: Option<u16>,
}

/// mihomo listens on `p`.
pub open spec fn mihomo_uses(ports: MihomoPorts, p: u16) -> bool {
    ports.mixed_port == Some(p) || ports.socks_port == Some(p) || ports.port == Some(p)
}

/// Refuses a local port that mihomo listens on.
pub fn check_mihomo_port_conflict(local_port: u16, ports: &MihomoPorts) -> (r: Result<(), SshError>)
    ensures
        r is Err <==> mihomo_uses(*ports, local_port),
        r is Err <==> (ports.mixed_port == Some(local_port) || ports.socks_port == Some(local_port) || ports.port
            == Some(local_port)),
        r matches Err(e) ==> e == SshError::MihomoPortConflict(local_port),
{
    let used = ports.mixed_port == Some(local_port) || ports.socks_port == Some(local_port)
        || ports.port == Some(local_port);
    if used {
        Err(SshError::MihomoPortConflict(local_port))
    } else {
        Ok(())
    }
}

/// What the caller is to do to start a tunnel.
#[derive(Debug, PartialEq, Eq)]
pub enum TunnelLaunch {
    /// It already runs.
    AlreadyRunning,
    /// Spawn a supervisor for `server`; its reports carry `generation`.
    Spawn { server: ISshServer, generation: u64 },
}

/// The entry of `uid` is a new run numbered `generation`: live, `Connecting`, with
/// fresh metrics (no bytes relayed, latency unknown).
pub open spec fn fresh_run(entries: Seq<TunnelEntry>, uid: Seq<char>, generation: u64) -> bool {
    &&& entry_of(entries, uid) matches Some(e)
    &&& e.generation == generation
    &&& e.status == TunnelStatus::Connecting
    &&& e.metrics == (TunnelMetrics { up: 0, down: 0, latency: u64::MAX })
    &&& !e.finished
}

pub struct SshManager {
    /// The server entries (persisted to `ssh_tunnels.yaml`).
    pub config: ISshConfig,
    /// The started tunnels.
    pub tunnels: TunnelRegistry,
    /// Each tunnel's recent log entries (memory only).
    pub logs: LogStore,
}

impl SshManager {
    /// The manager's invariant: at most one started tunnel and one log per uid,
    /// and every tunnel log holds at most 500 entries.
    pub open spec fn wf(&self) -> bool {
        &&& bounded(self.logs.buffers@)
        &&& self.logs.wf()
        &&& self.tunnels.wf()
    }

    pub fn new() -> (m: Self)
        ensures
            m.config.servers@.len() == 0,
            m.tunnels.entries@.len() == 0,
            m.logs.buffers@.len() == 0,
            m.wf(),
    {
        SshManager { config: ISshConfig::default(), tunnels: TunnelRegistry::new(), logs: LogStore::new() }
    }

    /// Appends a line to the log of `uid`, stamped with the local time, and returns
    /// the new entry (for the caller to push to the user interface).
    pub fn append_log(&mut self, uid: &str, level: &str, message: String) -> (e: SshLogEntry)
        ensures
            e.level@ == level@,
            e.message == message,
            is_clock_text(e.time@),
            logs_spec(final(self).logs.buffers@, uid@) == appended(logs_spec(old(self).logs.buffers@, uid@), e),
            forall|other: Seq<char>|
                other != uid@ ==> #[trigger] logs_spec(final(self).logs.buffers@, other) == logs_spec(
                    old(self).logs.buffers@,
                    other,
                ),
            old(self).wf() ==> final(self).wf(),
            final(self).config == old(self).config,
            final(self).tunnels == old(self).tunnels,
    {
        let entry = SshLogEntry { time: local_time_hms(), level: String::from_str(level), message };
        let result = entry.clone();
        self.logs.append(uid, entry);
        result
    }

    /// The log of `uid`, oldest first.
    pub fn get_logs(&self, uid: &str) -> (r: Vec<SshLogEntry>)
        ensures
            r@ == logs_spec(self.logs.buffers@, uid@),
    {
        self.logs.get(uid)
    }

    /// Forgets the log of `uid`.
    pub fn clear_logs(&mut self, uid: &str)
        ensures
            logs_spec(final(self).logs.buffers@, uid@) == Seq::<SshLogEntry>::empty(),
            forall|other: Seq<char>|
                other != uid@ ==> #[trigger] logs_spec(final(self).logs.buffers@, other) == logs_spec(
                    old(self).logs.buffers@,
                    other,
                ),
            old(self).wf() ==> final(self).wf(),
            final(self).config == old(self).config,
            final(self).tunnels == old(self).tunnels,
    {
        self.logs.clear(uid);
    }

    /// Takes the configuration read from disk.
    pub fn load_config(&mut self, cfg: ISshConfig)
        ensures
            final(self).config == cfg,
            final(self).tunnels == old(self).tunnels,
            final(self).logs == old(self).logs,
            old(self).wf() ==> final(self).wf(),
    {
        self.config = cfg;
    }

    /// All server entries, passwords included.
    pub fn list_servers(&self) -> (r: Vec<ISshServer>)
        ensures
            r@ == self.config.servers@,
    {
        let r = self.config.servers.clone();
        proof {
            assert(r@ =~= self.config.servers@);
        }
        r
    }

    /// The entry of `uid`, password included.
    pub fn find_server(&self, uid: &str) -> (r: Option<ISshServer>)
        ensures
            r == find_spec(self.config.servers@, uid@),
    {
        self.config.find(uid)
    }

    /// Adds or replaces an entry after checking its local port: it must not be
    /// another entry's nor mihomo's. On success the caller persists the
    /// configuration and, when the result is true (the tunnel runs), restarts it.
    pub fn upsert_server(&mut self, server: ISshServer, mihomo: &MihomoPorts) -> (r: Result<bool, SshError>)
        ensures
            port_taken_by_other(old(self).config.servers@, server.uid@, server.local_port) ==> r == Err::<
                bool,
                SshError,
            >(SshError::PortTaken(server.local_port)),
            !port_taken_by_other(old(self).config.servers@, server.uid@, server.local_port) && mihomo_uses(
                *mihomo,
                server.local_port,
            ) ==> r == Err::<bool, SshError>(SshError::MihomoPortConflict(server.local_port)),
            r is Ok <==> !port_taken_by_other(old(self).config.servers@, server.uid@, server.local_port)
                && !mihomo_uses(*mihomo, server.local_port),
            r is Err ==> final(self).config == old(self).config,
            r is Ok ==> !port_taken_by_other(old(self).config.servers@, server.uid@, server.local_port)
                && !mihomo_uses(*mihomo, server.local_port)
                && r == Ok::<bool, SshError>(active_spec(old(self).tunnels.entries@, server.uid@))
                && final(self).config.servers@ == upsert_spec(old(self).config.servers@, server),
            final(self).tunnels == old(self).tunnels,
            final(self).logs == old(self).logs,
            old(self).wf() ==> final(self).wf(),
    {
        if self.config.port_taken(server.uid.as_str(), server.local_port) {
            return Err(SshError::PortTaken(server.local_port));
        }
        check_mihomo_port_conflict(server.local_port, mihomo)?;
        let running = self.tunnels.is_active(server.uid.as_str());
        self.config.upsert(server);
        Ok(running)
    }

    /// Removes the entry of `uid` with its tunnel and its log; true when a tunnel
    /// was registered (the caller stops it before and persists after).
    pub fn delete_server(&mut self, uid: &str) -> (had_tunnel: bool)
        ensures
            had_tunnel == (crate::registry::entry_of(old(self).tunnels.entries@, uid@) is Some),
            final(self).tunnels.entries@ == without_by(old(self).tunnels.entries@, entry_uid(), uid@),
            final(self).config.servers@ == without_uid(old(self).config.servers@, uid@),
            logs_spec(final(self).logs.buffers@, uid@) == Seq::<SshLogEntry>::empty(),
            forall|other: Seq<char>|
                other != uid@ ==> #[trigger] logs_spec(final(self).logs.buffers@, other) == logs_spec(
                    old(self).logs.buffers@,
                    other,
                ),
            old(self).wf() ==> final(self).wf(),
    {
        let had = self.tunnels.stop(uid);
        self.config.remove(uid);
        self.logs.clear(uid);
        had
    }

    /// Sets the run intent of `uid` (the caller persists it).
    pub fn set_enabled(&mut self, uid: &str, enabled: bool) -> (r: Result<(), SshError>)
        ensures
            r is Ok <==> first_index(old(self).config.servers@, uid@) >= 0,
            r matches Err(e) ==> e == SshError::ServerNotFound && final(self).config.servers@ == old(self).config.servers@,
            r is Ok ==> final(self).config.servers@ == old(self).config.servers@.update(
                first_index(old(self).config.servers@, uid@),
                ISshServer { enabled, ..old(self).config.servers@[first_index(old(self).config.servers@, uid@)] },
            ),
            final(self).tunnels == old(self).tunnels,
            final(self).logs == old(self).logs,
            old(self).wf() ==> final(self).wf(),
    {
        if self.config.set_enabled(uid, enabled) {
            Ok(())
        } else {
            Err(SshError::ServerNotFound)
        }
    }

    /// Whether a supervisor runs `uid` and has not ended.
    pub fn is_active(&self, uid: &str) -> (r: bool)
        ensures
            r == active_spec(self.tunnels.entries@, uid@),
    {
        self.tunnels.is_active(uid)
    }

    /// Starts the tunnel of `uid` (its run intent is left as it is): refused when
    /// there is no such entry, nothing to do when it already runs, else a new run
    /// of its entry for the caller to spawn.
    pub fn start(&mut self, uid: &str) -> (r: Result<TunnelLaunch, SshError>)
        ensures
            find_spec(old(self).config.servers@, uid@) is None ==> r == Err::<TunnelLaunch, SshError>(
                SshError::ServerNotFound,
            ) && final(self).tunnels == old(self).tunnels,
            find_spec(old(self).config.servers@, uid@) is Some && active_spec(old(self).tunnels.entries@, uid@)
                ==> r == Ok::<TunnelLaunch, SshError>(TunnelLaunch::AlreadyRunning),
            find_spec(old(self).config.servers@, uid@) is Some && !active_spec(old(self).tunnels.entries@, uid@)
                ==> r == Ok::<TunnelLaunch, SshError>(TunnelLaunch::Spawn {
                    server: find_spec(old(self).config.servers@, uid@).unwrap(),
                    generation: old(self).tunnels.next_generation,
                }) && fresh_run(final(self).tunnels.entries@, uid@, old(self).tunnels.next_generation),
            active_spec(old(self).tunnels.entries@, uid@) ==> final(self).tunnels.entries@ == old(self).tunnels.entries@,
            forall|other: Seq<char>|
                other != uid@ ==> #[trigger] entry_of(final(self).tunnels.entries@, other) == entry_of(
                    old(self).tunnels.entries@,
                    other,
                ),
            final(self).config == old(self).config,
            final(self).logs == old(self).logs,
            old(self).wf() ==> final(self).wf(),
    {
        let server = match self.config.find(uid) {
            Some(s) => s,
            None => return Err(SshError::ServerNotFound),
        };
        match self.tunnels.start(uid) {
            StartDecision::AlreadyRunning => Ok(TunnelLaunch::AlreadyRunning),
            StartDecision::Spawn { generation } => Ok(TunnelLaunch::Spawn { server, generation }),
        }
    }

    /// Forgets the tunnel of `uid`; true when one was registered (the caller
    /// signals its supervisor to stop). Stopping does not reconnect.
    pub fn stop(&mut self, uid: &str) -> (had: bool)
        ensures
            had == (crate::registry::entry_of(old(self).tunnels.entries@, uid@) is Some),
            final(self).tunnels.entries@ == without_by(old(self).tunnels.entries@, entry_uid(), uid@),
            final(self).tunnels.next_generation == old(self).tunnels.next_generation,
            final(self).config == old(self).config,
            final(self).logs == old(self).logs,
            old(self).wf() ==> final(self).wf(),
    {
        self.tunnels.stop(uid)
    }

    /// Stops, then starts the tunnel of `uid`.
    pub fn restart(&mut self, uid: &str) -> (r: Result<TunnelLaunch, SshError>)
        ensures
            find_spec(old(self).config.servers@, uid@) is None ==> r == Err::<TunnelLaunch, SshError>(
                SshError::ServerNotFound,
            ),
            find_spec(old(self).config.servers@, uid@) is None ==> entry_of(final(self).tunnels.entries@, uid@)
                is None,
            find_spec(old(self).config.servers@, uid@) is Some ==> r == Ok::<TunnelLaunch, SshError>(
                TunnelLaunch::Spawn {
                    server: find_spec(old(self).config.servers@, uid@).unwrap(),
                    generation: old(self).tunnels.next_generation,
                },
            ) && fresh_run(final(self).tunnels.entries@, uid@, old(self).tunnels.next_generation),
            forall|other: Seq<char>|
                other != uid@ ==> #[trigger] entry_of(final(self).tunnels.entries@, other) == entry_of(
                    old(self).tunnels.entries@,
                    other,
                ),
            final(self).config == old(self).config,
            final(self).logs == old(self).logs,
            old(self).wf() ==> final(self).wf(),
    {
        self.tunnels.stop(uid);
        proof {
            crate::keyed::lemma_without_by(old(self).tunnels.entries@, entry_uid(), uid@, uid@);
            assert forall|other: Seq<char>| other != uid@ implies #[trigger] entry_of(self.tunnels.entries@, other)
                == entry_of(old(self).tunnels.entries@, other) by {
                crate::keyed::lemma_without_by(old(self).tunnels.entries@, entry_uid(), uid@, other);
            }
        }
        self.start(uid)
    }

    /// Forgets every tunnel and gives back their uids (the caller stops them all).
    pub fn stop_all(&mut self) -> (uids: Vec<String>)
        ensures
            strings_view(uids@) == old(self).tunnels.entries@.map_values(|e: crate::registry::TunnelEntry| e.uid@),
            final(self).tunnels.entries@.len() == 0,
            final(self).config == old(self).config,
            final(self).logs == old(self).logs,
            old(self).wf() ==> final(self).wf(),
    {
        self.tunnels.drain()
    }

    /// The uids of the enabled entries, to start when the application starts.
    pub fn start_all_enabled(&self) -> (uids: Vec<String>)
        ensures
            strings_view(uids@) == enabled_uids_spec(self.config.servers@),
    {
        self.config.enabled_uids()
    }

    /// Sets every entry's run intent and gives back all uids, to start (the caller
    /// persists once, then starts each).
    pub fn enable_and_start_all(&mut self) -> (uids: Vec<String>)
        ensures
            final(self).config.servers@.len() == old(self).config.servers@.len(),
            forall|i: int|
                0 <= i < old(self).config.servers@.len() ==> #[trigger] final(self).config.servers@[i] == (
                ISshServer { enabled: true, ..old(self).config.servers@[i] }),
            strings_view(uids@) == uids_spec(old(self).config.servers@),
            final(self).tunnels == old(self).tunnels,
            final(self).logs == old(self).logs,
            old(self).wf() ==> final(self).wf(),
    {
        self.config.enable_all();
        let uids = self.config.uids();
        proof {
            assert(uids_spec(self.config.servers@) =~= uids_spec(old(self).config.servers@));
        }
        uids
    }

    /// The uids of the enabled entries, to restart.
    pub fn restart_all_enabled(&self) -> (uids: Vec<String>)
        ensures
            strings_view(uids@) == enabled_uids_spec(self.config.servers@),
    {
        self.config.enabled_uids()
    }

    /// Replaces the whole configuration with imported entries: every tunnel is
    /// forgotten and its uid returned (the caller stops them, persists, then
    /// starts the enabled imported entries).
    pub fn import_servers(&mut self, servers: Vec<ISshServer>) -> (stopped: Vec<String>)
        ensures
            final(self).config.servers@ == servers@,
            final(self).tunnels.entries@.len() == 0,
            strings_view(stopped@) == old(self).tunnels.entries@.map_values(|e: crate::registry::TunnelEntry| e.uid@),
            final(self).logs == old(self).logs,
            old(self).wf() ==> final(self).wf(),
    {
        let stopped = self.tunnels.drain();
        self.config = ISshConfig { servers };
        stopped
    }

    /// Records what the supervisor of run `generation` of `uid` reports; reports of
    /// any other run are ignored. True when applied.
    pub fn update_tunnel(&mut self, uid: &str, generation: u64, update: EntryUpdate) -> (applied: bool)
        ensures
            applied == crate::registry::is_current(old(self).tunnels.entries@, uid@, generation),
            applied ==> crate::registry::entry_of(final(self).tunnels.entries@, uid@) == Some(
                crate::registry::apply_update(crate::registry::entry_of(old(self).tunnels.entries@, uid@).unwrap(), update),
            ),
            !applied ==> final(self).tunnels.entries@ == old(self).tunnels.entries@,
            forall|other: Seq<char>|
                other != uid@ ==> #[trigger] crate::registry::entry_of(final(self).tunnels.entries@, other)
                    == crate::registry::entry_of(old(self).tunnels.entries@, other),
            final(self).config == old(self).config,
            final(self).logs == old(self).logs,
            old(self).wf() ==> final(self).wf(),
    {
        self.tunnels.apply(uid, generation, update)
    }

    /// The status of every entry, in order (`Stopped` for those not started).
    pub fn status_map(&self) -> (r: Vec<(String, TunnelStatus)>)
        ensures
            r@.len() == self.config.servers@.len(),
            forall|i: int|
                0 <= i < r@.len() ==> (#[trigger] r@[i]).0@ == self.config.servers@[i].uid@ && r@[i].1
                    == status_spec(self.tunnels.entries@, self.config.servers@[i].uid@),
    {
        let mut r: Vec<(String, TunnelStatus)> = Vec::new();
        let mut i: usize = 0;
        while i < self.config.servers.len()
            invariant
                i <= self.config.servers@.len(),
                r@.len() == i,
                forall|j: int|
                    0 <= j < i ==> (#[trigger] r@[j]).0@ == self.config.servers@[j].uid@ && r@[j].1
                        == status_spec(self.tunnels.entries@, self.config.servers@[j].uid@),
            decreases self.config.servers.len() - i,
        {
            let uid = self.config.servers[i].uid.clone();
            let status = self.tunnels.status_of(uid.as_str());
            r.push((uid, status));
            i = i + 1;
        }
        r
    }

    /// The status and metrics of every entry, in order (stopped and zero for those
    /// not started).
    pub fn stats_map(&self) -> (r: Vec<(String, TunnelStats)>)
        ensures
            r@.len() == self.config.servers@.len(),
            forall|i: int|
                0 <= i < r@.len() ==> (#[trigger] r@[i]).0@ == self.config.servers@[i].uid@ && r@[i].1
                    == stats_spec(self.tunnels.entries@, self.config.servers@[i].uid@),
    {
        let mut r: Vec<(String, TunnelStats)> = Vec::new();
        let mut i: usize = 0;
        while i < self.config.servers.len()
            invariant
                i <= self.config.servers@.len(),
                r@.len() == i,
                forall|j: int|
                    0 <= j < i ==> (#[trigger] r@[j]).0@ == self.config.servers@[j].uid@ && r@[j].1
                        == stats_spec(self.tunnels.entries@, self.config.servers@[j].uid@),
            decreases self.config.servers.len() - i,
        {
            let uid = self.config.servers[i].uid.clone();
            let stats = self.tunnels.stats_of(uid.as_str());
            r.push((uid, stats));
            i = i + 1;
        }
        r
    }
}

// ---- laws ----------------------------------------------------------------

/// A local port that mihomo listens on, whether as its mixed, SOCKS or HTTP port,
/// counts as a mihomo conflict (the condition on which `upsert_server` refuses a
/// save with `MihomoPortConflict` and leaves the configuration as it was); a port
/// none of the three uses does not.
pub proof fn law_mihomo_ports_are_refused(ports: MihomoPorts, p: u16)
    ensures
        ports.mixed_port == Some(p) ==> mihomo_uses(ports, p),
        ports.socks_port == Some(p) ==> mihomo_uses(ports, p),
        ports.port == Some(p) ==> mihomo_uses(ports, p),
        ports.mixed_port != Some(p) && ports.socks_port != Some(p) && ports.port != Some(p) ==> !mihomo_uses(
            ports,
            p,
        ),
{
}

/// What is saved is what is read back: after an entry is added or replaced, looking
/// up its uid gives exactly that entry, and every other uid gives what it gave.
pub proof fn law_upsert_then_find(servers: Seq<ISshServer>, server: ISshServer, other: Seq<char>)
    ensures
        find_spec(upsert_spec(servers, server), server.uid@) == Some(server),
        other != server.uid@ ==> find_spec(upsert_spec(servers, server), other) == find_spec(servers, other),
{
    let key = crate::config::server_uid();
    if crate::keyed::index_by(servers, key, server.uid@) >= 0 {
        crate::keyed::lemma_update_first(servers, key, server, other);
    } else {
        crate::keyed::lemma_push_new(servers, key, server, other);
    }
}

/// Accepted changes keep local ports apart: when no two tunnels of different uids
/// share a local port, adding or replacing an entry whose port no other uid uses
/// keeps it so.
pub proof fn law_upsert_keeps_ports_distinct(servers: Seq<ISshServer>, server: ISshServer)
    requires
        crate::config::ports_distinct(servers),
        !port_taken_by_other(servers, server.uid@, server.local_port),
    ensures
        crate::config::ports_distinct(upsert_spec(servers, server)),
{
    let key = crate::config::server_uid();
    let t = upsert_spec(servers, server);
    let idx = crate::keyed::index_by(servers, key, server.uid@);
    crate::keyed::lemma_index_by(servers, key, server.uid@);
    assert forall|i: int, j: int|
        0 <= i < t.len() && 0 <= j < t.len() && #[trigger] t[i].uid@ != #[trigger] t[j].uid@ implies t[i].local_port
        != t[j].local_port by {
        let is_new_i = if idx >= 0 { i == idx } else { i == servers.len() };
        let is_new_j = if idx >= 0 { j == idx } else { j == servers.len() };
        if is_new_i {
            assert(t[i] == server);
            if !is_new_j {
                assert(t[j] == servers[j]);
                assert(!(servers[j].uid@ != server.uid@ && servers[j].local_port == server.local_port));
            }
        } else if is_new_j {
            assert(t[j] == server);
            assert(t[i] == servers[i]);
            assert(!(servers[i].uid@ != server.uid@ && servers[i].local_port == server.local_port));
        } else {
            assert(t[i] == servers[i]);
            assert(t[j] == servers[j]);
        }
    }
}

/// After an entry is deleted its uid is not found any more, and every other uid
/// gives what it gave.
pub proof fn law_delete_forgets(servers: Seq<ISshServer>, uid: Seq<char>, other: Seq<char>)
    ensures
        find_spec(without_uid(servers, uid), uid) == None::<ISshServer>,
        other != uid ==> find_spec(without_uid(servers, uid), other) == find_spec(servers, other),
{
    crate::keyed::lemma_without_by(servers, crate::config::server_uid(), uid, other);
}

/// After the run intent of an existing entry is set, reading the entry gives it
/// with that intent and nothing else changed.
pub proof fn law_set_enabled_then_find(servers: Seq<ISshServer>, uid: Seq<char>, enabled: bool)
    requires
        first_index(servers, uid) >= 0,
    ensures
        find_spec(
            servers.update(first_index(servers, uid), ISshServer { enabled, ..servers[first_index(servers, uid)] }),
            uid,
        ) == Some(ISshServer { enabled, ..servers[first_index(servers, uid)] }),
{
    let key = crate::config::server_uid();
    crate::keyed::lemma_index_by(servers, key, uid);
    let x = ISshServer { enabled, ..servers[first_index(servers, uid)] };
    crate::keyed::lemma_update_at(servers, key, first_index(servers, uid), x, uid);
}

/// A stopped tunnel shows as `Stopped` with zero metrics and is not active.
pub proof fn law_stopped_tunnel_shows_stopped(entries: Seq<crate::registry::TunnelEntry>, uid: Seq<char>)
    ensures
        status_spec(without_by(entries, entry_uid(), uid), uid) == TunnelStatus::Stopped,
        !active_spec(without_by(entries, entry_uid(), uid), uid),
        stats_spec(without_by(entries, entry_uid(), uid), uid) == (TunnelStats {
            status: TunnelStatus::Stopped,
            latency_ms: None,
            up: 0,
            down: 0,
        }),
{
    crate::keyed::lemma_without_by(entries, entry_uid(), uid, uid);
}

/// Reports from an earlier run never touch the current one: once the entry of a
/// uid belongs to run `generation`, an update carrying any other generation is
/// not current and is ignored.
pub proof fn law_earlier_runs_ignored(
    entries: Seq<crate::registry::TunnelEntry>,
    uid: Seq<char>,
    generation: u64,
    stale: u64,
)
    requires
        crate::registry::is_current(entries, uid, generation),
        stale != generation,
    ensures
        !crate::registry::is_current(entries, uid, stale),
{
}

/// A tunnel's log is a ring of at most 500 entries: appending keeps it within that
/// bound, the new entry is always the newest, and while there is room nothing is
/// dropped.
pub proof fn law_log_ring(log: Seq<SshLogEntry>, entry: SshLogEntry)
    requires
        log.len() <= crate::logs::MAX_LOGS_PER_TUNNEL,
    ensures
        crate::logs::MAX_LOGS_PER_TUNNEL == 500,
        appended(log, entry).len() <= crate::logs::MAX_LOGS_PER_TUNNEL,
        appended(log, entry).last() == entry,
        log.len() < crate::logs::MAX_LOGS_PER_TUNNEL ==> appended(log, entry) == log.push(entry),
        log.len() == crate::logs::MAX_LOGS_PER_TUNNEL ==> appended(log, entry).drop_last() == log.drop_first(),
{
    if log.len() == crate::logs::MAX_LOGS_PER_TUNNEL {
        assert(appended(log, entry).drop_last() =~= log.drop_first());
    }
}

} // verus!
