//! The rules of the user-facing commands: what the server list shows, and how
//! a saved entry is completed before it is stored.
use vstd::prelude::*;
use crate::config::{find_spec, port_taken_by_other, upsert_spec, ISshServer};
use crate::manager::{mihomo_uses, MihomoPorts, SshError, SshManager};
use crate::registry::active_spec;
use crate::text::{all_whitespace, is_blank};

verus! {

/// An entry as the user interface gets it: without its password.
pub open spec fn without_password(s: ISshServer) -> ISshServer {
    ISshServer { password: None, ..s }
}

/// All server entries, with every password blanked: passwords never leave the backend.
pub fn get_ssh_servers(manager: &SshManager) -> (r: Vec<ISshServer>)
    ensures
        r@.len() == manager.config.servers@.len(),
        forall|i: int| 0 <= i < r@.len() ==> #[trigger] r@[i] == without_password(manager.config.servers@[i]),
        forall|i: int| 0 <= i < r@.len() ==> (#[trigger] r@[i]).password is None,
{
    let mut servers = manager.list_servers();
    let ghost all = servers@;
    let mut i: usize = 0;
    while i < servers.len()
        invariant
            i <= servers@.len(),
            servers@.len() == all.len(),
            all == manager.config.servers@,
            forall|j: int| 0 <= j < i ==> #[trigger] servers@[j] == without_password(all[j]),
            forall|j: int| i <= j < servers@.len() ==> #[trigger] servers@[j] == all[j],
        decreases servers.len() - i,
    {
        let mut s = servers[i].clone();
        s.password = None;
        servers.set(i, s);
        i = i + 1;
    }
    servers
}

/// The password a save stores: the one given when it is not empty, else the one
/// already stored for that uid (none for a new entry).
pub open spec fn password_to_store(given: Option<String>, stored: Option<ISshServer>) -> Option<String> {
    match given {
        Some(p) if p@.len() > 0 => Some(p),
        _ => match stored {
            Some(e) => e.password,
            None => None,
        },
    }
}

/// The entry a save stores: a blank uid is replaced by `fresh_uid` (a new entry),
/// and an empty password keeps the stored one.
pub open spec fn prepared_for_save(server: ISshServer, fresh_uid: String, servers: Seq<ISshServer>) -> ISshServer {
    let uid = if all_whitespace(server.uid@) { fresh_uid } else { server.uid };
    ISshServer { uid, password: password_to_store(server.password, find_spec(servers, uid@)), ..server }
}

/// Completes an entry for saving: fills a blank uid with `fresh_uid` and puts back
/// the stored password when the given one is empty.
pub fn prepare_for_save(manager: &SshManager, server: ISshServer, fresh_uid: String) -> (r: ISshServer)
    ensures
        r == prepared_for_save(server, fresh_uid, manager.config.servers@),
{
    let mut server = server;
    if is_blank(server.uid.as_str()) {
        server.uid = fresh_uid;
    }
    let empty = match &server.password {
        Some(p) => p.as_str().is_empty(),
        None => true,
    };
    if empty {
        server.password = match manager.find_server(server.uid.as_str()) {
            Some(existing) => existing.password,
            None => None,
        };
    }
    server
}

/// Saves an entry (new or edited): completes it, then adds or replaces it after
/// the local port checks. On success it gives the entry's uid and whether its
/// tunnel runs: the caller persists the configuration and then restarts that
/// tunnel to apply the change.
pub fn save_ssh_server(
    manager: &mut SshManager,
    server: ISshServer,
    fresh_uid: String,
    mihomo: &MihomoPorts,
) -> (r: Result<(String, bool), SshError>)
    ensures
        ({
            let s = prepared_for_save(server, fresh_uid, old(manager).config.servers@);
            &&& port_taken_by_other(old(manager).config.servers@, s.uid@, s.local_port) ==> r == Err::<
                (String, bool),
                SshError,
            >(SshError::PortTaken(s.local_port))
            &&& !port_taken_by_other(old(manager).config.servers@, s.uid@, s.local_port) && mihomo_uses(
                *mihomo,
                s.local_port,
            ) ==> r == Err::<(String, bool), SshError>(SshError::MihomoPortConflict(s.local_port))
            &&& r is Ok <==> !port_taken_by_other(old(manager).config.servers@, s.uid@, s.local_port)
                && !mihomo_uses(*mihomo, s.local_port)
            &&& r is Err ==> final(manager).config == old(manager).config
            &&& r matches Ok((uid, restart)) ==> (uid == s.uid && restart == active_spec(
                old(manager).tunnels.entries@,
                s.uid@,
            ) && final(manager).config.servers@ == upsert_spec(old(manager).config.servers@, s))
        }),
        final(manager).tunnels == old(manager).tunnels,
        final(manager).logs == old(manager).logs,
{
    let prepared = prepare_for_save(manager, server, fresh_uid);
    let uid = prepared.uid.clone();
    let restart = manager.upsert_server(prepared, mihomo)?;
    Ok((uid, restart))
}

// ---- laws ----------------------------------------------------------------

/// Editing an existing entry with an empty password keeps the stored password;
/// a non-empty one replaces it.
pub proof fn law_blank_password_keeps_stored(server: ISshServer, fresh_uid: String, servers: Seq<ISshServer>)
    requires
        !all_whitespace(server.uid@),
        find_spec(servers, server.uid@) is Some,
    ensures
        (server.password is None || server.password.unwrap()@.len() == 0) ==> prepared_for_save(
            server,
            fresh_uid,
            servers,
        ).password == find_spec(servers, server.uid@).unwrap().password,
        (server.password matches Some(p) && p@.len() > 0) ==> prepared_for_save(server, fresh_uid, servers).password
            == server.password,
{
}

/// A new entry (blank uid) is saved under the fresh uid, with the password it was
/// given (or none).
pub proof fn law_new_entry_gets_fresh_uid(server: ISshServer, fresh_uid: String, servers: Seq<ISshServer>)
    requires
        all_whitespace(server.uid@),
        find_spec(servers, fresh_uid@) is None,
    ensures
        prepared_for_save(server, fresh_uid, servers).uid == fresh_uid,
        prepared_for_save(server, fresh_uid, servers).password == crate::transfer::nonempty_password(server.password),
{
}

} // verus!
