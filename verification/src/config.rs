//! The persisted tunnel configuration (`ssh_tunnels.yaml`): the server
//! entries and the rules for adding, changing and removing them.
use vstd::prelude::*;
use crate::keyed::{find_by, index_by, lemma_index_by, lemma_index_by_is, without_by};

verus! {




/// The SSH port an entry gets when its file gives none: 22.
pub fn default_ssh_port() -> (p: u16)
    ensures
        p == 22,
{
    22
}

/// One SSH SOCKS tunnel server entry.
#[derive(Debug, PartialEq, Eq)]
pub struct ISshServer {
    /// Unique identifier.
    pub uid: String,
    /// Display name.
    pub name: String,
    /// Server IP or domain.
    pub host: String,
    /// SSH port.
    pub port: u16,
    /// Login name.
    pub username: String,
    /// Password, in clear (how it is kept on disk is the caller's part); `None` when not set.
    pub password: Option<String>,
    /// Local SOCKS5 listening port.
    pub local_port: u16,
    /// Run intent: the user wants this tunnel running (persisted).
    pub enabled: bool,
}

impl Clone for ISshServer {
    fn clone(&self) -> (res: Self)
        ensures
            res == *self,
    {
        ISshServer {
            uid: self.uid.clone(),
            name: self.name.clone(),
            host: self.host.clone(),
            port: self.port,
            username: self.username.clone(),
            password: match &self.password {
                Some(p) => Some(p.clone()),
                None => None,
            },
            local_port: self.local_port,
            enabled: self.enabled,
        }
    }
}

} // verus!

verus! {

impl Default for ISshServer {
    fn default() -> (res: Self)
        ensures
            res.uid@.len() == 0,
            res.name@.len() == 0,
            res.host@.len() == 0,
            res.port == 0,
            res.username@.len() == 0,
            res.password is None,
            res.local_port == 0,
            !res.enabled,
    {
        ISshServer {
            uid: String::new(),
            name: String::new(),
            host: String::new(),
            port: 0,
            username: String::new(),
            password: None,
            local_port: 0,
            enabled: false,
        }
    }
}

/// An entry's key: its uid.
pub open spec fn server_uid() -> spec_fn(ISshServer) -> Seq<char> {
    |s: ISshServer| s.uid@
}

/// Index of the first entry whose uid is `uid`, or -1.
pub open spec fn first_index(servers: Seq<ISshServer>, uid: Seq<char>) -> int {
    index_by(servers, server_uid(), uid)
}

/// The first entry with `uid`, if any.
pub open spec fn find_spec(servers: Seq<ISshServer>, uid: Seq<char>) -> Option<ISshServer> {
    find_by(servers, server_uid(), uid)
}

/// The entries without those whose uid is `uid`, in order.
pub open spec fn without_uid(servers: Seq<ISshServer>, uid: Seq<char>) -> Seq<ISshServer> {
    without_by(servers, server_uid(), uid)
}

/// The entries with the first one whose uid is `server.uid` replaced by `server`,
/// or with `server` appended when there is none.
pub open spec fn upsert_spec(servers: Seq<ISshServer>, server: ISshServer) -> Seq<ISshServer> {
    let i = first_index(servers, server.uid@);
    if i >= 0 {
        servers.update(i, server)
    } else {
        servers.push(server)
    }
}

/// Whether an entry with another uid already listens on `local_port`.
pub open spec fn port_taken_by_other(servers: Seq<ISshServer>, uid: Seq<char>, local_port: u16) -> bool {
    exists|i: int| 0 <= i < servers.len() && #[trigger] servers[i].uid@ != uid && servers[i].local_port == local_port
}

/// No two entries with different uids share a local port.
pub open spec fn ports_distinct(servers: Seq<ISshServer>) -> bool {
    forall|i: int, j: int|
        0 <= i < servers.len() && 0 <= j < servers.len() && #[trigger] servers[i].uid@ != #[trigger] servers[j].uid@
            ==> servers[i].local_port != servers[j].local_port
}

/// The uids of the entries, in order.
pub open spec fn uids_spec(servers: Seq<ISshServer>) -> Seq<Seq<char>> {
    servers.map_values(|s: ISshServer| s.uid@)
}

/// The uids of the enabled entries, in order.
pub open spec fn enabled_uids_spec(servers: Seq<ISshServer>) -> Seq<Seq<char>>
    decreases servers.len(),
{
    if servers.len() == 0 {
        Seq::empty()
    } else {
        let rest = enabled_uids_spec(servers.drop_last());
        if servers.last().enabled {
            rest.push(servers.last().uid@)
        } else {
            rest
        }
    }
}

/// Views of a list of strings.
pub open spec fn strings_view(v: Seq<String>) -> Seq<Seq<char>> {
    v.map_values(|s: String| s@)
}

/// The `ssh_tunnels.yaml` content: the list of server entries.
#[derive(Debug, PartialEq, Eq)]
pub struct ISshConfig {
    pub servers: Vec<ISshServer>,
}

impl Clone for ISshConfig {
    fn clone(&self) -> (res: Self)
        ensures
            res.servers@ == self.servers@,
    {
        let servers = self.servers.clone();
        proof {
            assert(servers@ =~= self.servers@);
        }
        ISshConfig { servers }
    }
}

impl Default for ISshConfig {
    fn default() -> (res: Self)
        ensures
            res.servers@.len() == 0,
    {
        ISshConfig { servers: Vec::new() }
    }
}

impl ISshConfig {
    /// Position of the first entry with `uid`.
    pub fn position(&self, uid: &str) -> (r: Option<usize>)
        ensures
            match r {
                Some(i) => i as int == first_index(self.servers@, uid@) && i < self.servers@.len(),
                None => first_index(self.servers@, uid@) == -1,
            },
    {
        proof {
            lemma_index_by(self.servers@, server_uid(), uid@);
        }
        let mut i: usize = 0;
        while i < self.servers.len()
            invariant
                i <= self.servers@.len(),
                forall|j: int| 0 <= j < i ==> #[trigger] self.servers@[j].uid@ != uid@,
            decreases self.servers.len() - i,
        {
            if crate::text::str_eq(self.servers[i].uid.as_str(), uid) {
                proof {
                    lemma_index_by_is(self.servers@, server_uid(), uid@, i as int);
                }
                return Some(i);
            }
            i = i + 1;
        }
        proof {
            lemma_index_by_is(self.servers@, server_uid(), uid@, -1);
        }
        None
    }

    /// The first entry with `uid`, copied.
    pub fn find(&self, uid: &str) -> (r: Option<ISshServer>)
        ensures
            r == find_spec(self.servers@, uid@),
    {
        match self.position(uid) {
            Some(i) => Some(self.servers[i].clone()),
            None => None,
        }
    }

    /// Whether an entry with another uid than `uid` already listens on `local_port`.
    pub fn port_taken(&self, uid: &str, local_port: u16) -> (r: bool)
        ensures
            r == port_taken_by_other(self.servers@, uid@, local_port),
    {
        let mut i: usize = 0;
        while i < self.servers.len()
            invariant
                i <= self.servers@.len(),
                forall|j: int|
                    0 <= j < i ==> !(#[trigger] self.servers@[j].uid@ != uid@ && self.servers@[j].local_port
                        == local_port),
            decreases self.servers.len() - i,
        {
            if self.servers[i].local_port == local_port && !crate::text::str_eq(self.servers[i].uid.as_str(), uid) {
                proof {
                    assert(self.servers@[i as int].uid@ != uid@);
                }
                return true;
            }
            i = i + 1;
        }
        false
    }

    /// Replaces the first entry with the same uid, or appends the entry.
    pub fn upsert(&mut self, server: ISshServer)
        ensures
            final(self).servers@ == upsert_spec(old(self).servers@, server),
    {
        match self.position(server.uid.as_str()) {
            Some(i) => {
                self.servers.set(i, server);
            },
            None => {
                self.servers.push(server);
            },
        }
    }

    /// Removes every entry with `uid`.
    pub fn remove(&mut self, uid: &str)
        ensures
            final(self).servers@ == without_uid(old(self).servers@, uid@),
    {
        let mut kept: Vec<ISshServer> = Vec::new();
        let mut old_servers: Vec<ISshServer> = Vec::new();
        std::mem::swap(&mut old_servers, &mut self.servers);
        let ghost orig = old_servers@;
        let mut i: usize = 0;
        while i < old_servers.len()
            invariant
                old_servers@ == orig,
                i <= orig.len(),
                kept@ == without_uid(orig.subrange(0, i as int), uid@),
            decreases orig.len() - i,
        {
            proof {
                assert(orig.subrange(0, i + 1).drop_last() =~= orig.subrange(0, i as int));
            }
            if !crate::text::str_eq(old_servers[i].uid.as_str(), uid) {
                kept.push(old_servers[i].clone());
            }
            i = i + 1;
        }
        proof {
            assert(orig.subrange(0, orig.len() as int) =~= orig);
        }
        self.servers = kept;
    }

    /// Sets the run intent of the first entry with `uid`; false when there is none.
    pub fn set_enabled(&mut self, uid: &str, enabled: bool) -> (found: bool)
        ensures
            found == (first_index(old(self).servers@, uid@) >= 0),
            found ==> final(self).servers@ == old(self).servers@.update(
                first_index(old(self).servers@, uid@),
                ISshServer { enabled, ..old(self).servers@[first_index(old(self).servers@, uid@)] },
            ),
            !found ==> final(self).servers@ == old(self).servers@,
    {
        match self.position(uid) {
            Some(i) => {
                let mut s = self.servers[i].clone();
                s.enabled = enabled;
                self.servers.set(i, s);
                true
            },
            None => false,
        }
    }

    /// Sets the run intent of every entry.
    pub fn enable_all(&mut self)
        ensures
            final(self).servers@.len() == old(self).servers@.len(),
            forall|i: int|
                0 <= i < old(self).servers@.len() ==> #[trigger] final(self).servers@[i] == (ISshServer {
                    enabled: true,
                    ..old(self).servers@[i]
                }),
    {
        let mut i: usize = 0;
        while i < self.servers.len()
            invariant
                i <= self.servers@.len(),
                self.servers@.len() == old(self).servers@.len(),
                forall|j: int|
                    0 <= j < i ==> #[trigger] self.servers@[j] == (ISshServer { enabled: true, ..old(self).servers@[j] }),
                forall|j: int| i <= j < self.servers@.len() ==> #[trigger] self.servers@[j] == old(self).servers@[j],
            decreases self.servers.len() - i,
        {
            let mut s = self.servers[i].clone();
            s.enabled = true;
            self.servers.set(i, s);
            i = i + 1;
        }
    }

    /// The uids of all entries, in order.
    pub fn uids(&self) -> (r: Vec<String>)
        ensures
            strings_view(r@) == uids_spec(self.servers@),
    {
        let mut r: Vec<String> = Vec::new();
        let mut i: usize = 0;
        while i < self.servers.len()
            invariant
                i <= self.servers@.len(),
                r@.len() == i,
                strings_view(r@) == uids_spec(self.servers@.subrange(0, i as int)),
            decreases self.servers.len() - i,
        {
            let ghost prev = r@;
            let u = self.servers[i].uid.clone();
            r.push(u);
            proof {
                assert forall|j: int| 0 <= j < i implies #[trigger] r@[j]@ == self.servers@[j].uid@ by {
                    assert(r@[j] == prev[j]);
                    assert(strings_view(prev)[j] == prev[j]@);
                    assert(uids_spec(self.servers@.subrange(0, i as int))[j] == self.servers@.subrange(0, i as int)[j].uid@);
                }
                assert(strings_view(r@) =~= uids_spec(self.servers@.subrange(0, i + 1)));
            }
            i = i + 1;
        }
        proof {
            assert(self.servers@.subrange(0, self.servers@.len() as int) =~= self.servers@);
        }
        r
    }

    /// The uids of the enabled entries, in order.
    pub fn enabled_uids(&self) -> (r: Vec<String>)
        ensures
            strings_view(r@) == enabled_uids_spec(self.servers@),
    {
        let mut r: Vec<String> = Vec::new();
        let mut i: usize = 0;
        while i < self.servers.len()
            invariant
                i <= self.servers@.len(),
                strings_view(r@) == enabled_uids_spec(self.servers@.subrange(0, i as int)),
            decreases self.servers.len() - i,
        {
            proof {
                assert(self.servers@.subrange(0, i + 1).drop_last() =~= self.servers@.subrange(0, i as int));
            }
            if self.servers[i].enabled {
                r.push(self.servers[i].uid.clone());
                proof {
                    assert(strings_view(r@) =~= enabled_uids_spec(self.servers@.subrange(0, i + 1)));
                }
            }
            i = i + 1;
        }
        proof {
            assert(self.servers@.subrange(0, self.servers@.len() as int) =~= self.servers@);
        }
        r
    }
}

// ---- laws ----------------------------------------------------------------

/// The uids to start at launch (or to restart) are those of the enabled entries,
/// every one of them, in the configuration's order, and no other: the enabled
/// entries, filtered in order, mapped to their uids.
pub proof fn law_enabled_uids_are_every_enabled_entry(servers: Seq<ISshServer>)
    ensures
        enabled_uids_spec(servers) == servers.filter(|s: ISshServer| s.enabled).map_values(
            |s: ISshServer| s.uid@,
        ),
        forall|i: int|
            0 <= i < servers.len() && (#[trigger] servers[i]).enabled ==> enabled_uids_spec(servers).contains(
                servers[i].uid@,
            ),
    decreases servers.len(),
{
    let f = |s: ISshServer| s.enabled;
    let u = |s: ISshServer| s.uid@;
    if servers.len() > 0 {
        let init = servers.drop_last();
        law_enabled_uids_are_every_enabled_entry(init);
        assert(servers.filter(f) == (if f(servers.last()) {
            init.filter(f).push(servers.last())
        } else {
            init.filter(f)
        })) by {
            reveal_with_fuel(Seq::<_>::filter, 2);
            assert(servers.drop_last() =~= init);
        }
        assert(enabled_uids_spec(servers) =~= servers.filter(f).map_values(u));
        let r = enabled_uids_spec(servers);
        let ri = enabled_uids_spec(init);
        assert forall|i: int| 0 <= i < servers.len() && (#[trigger] servers[i]).enabled implies r.contains(
            servers[i].uid@,
        ) by {
            if i < init.len() {
                assert(servers[i] == init[i]);
                assert(init[i].enabled);
                let k = choose|k: int| 0 <= k < ri.len() && ri[k] == init[i].uid@;
                assert(r[k] == ri[k]);
            } else {
                assert(r[r.len() - 1] == servers[i].uid@);
            }
        }
    } else {
        assert(servers.filter(f) =~= Seq::<ISshServer>::empty());
        assert(enabled_uids_spec(servers) =~= servers.filter(f).map_values(u));
    }
}

} // verus!
