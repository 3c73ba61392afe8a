//! Import and export of server lists: the plain entries a file holds, how
//! they map to and from configured entries, and how an import text is
//! opened (an encrypted bundle needs its passphrase; plain YAML is taken as
//! it is). Turning YAML into entries and back is the caller's part.
use vstd::prelude::*;
use crate::bundle::{decrypt_bundle, is_encrypted_bundle, open_bundle, BundleError, BundleErrorKind, BundleOutcome, bundle_magic};
use crate::config::ISshServer;
use crate::text::{all_whitespace, has_prefix, is_blank, trim, trim_spec, trim_start_spec};

verus! {

/// The SSH port an entry gets when its file gives none: 22.
pub fn default_ssh_port() -> (p: u16)
    ensures
        p == 22,
{
    22
}

/// One server as an import or export file holds it: no uid, password in clear.
#[derive(Debug, PartialEq, Eq)]
pub struct SshPlainServer {
    pub name: String,
    pub host: String,
    pub port: u16,
    pub username: String,
    pub password: Option<String>,
    pub local_port: u16,
    pub enabled: bool,
}

/// An import file: a `servers:` list, or a bare list.
#[derive(Debug, PartialEq, Eq)]
pub enum SshImportFile {
    Wrapped { servers: Vec<SshPlainServer> },
    Bare(Vec<SshPlainServer>),
}

/// An export file: always a `servers:` list.
#[derive(Debug, PartialEq, Eq)]
pub struct SshExportFile {
    pub servers: Vec<SshPlainServer>,
}

/// Why an import or export was refused.
#[derive(Debug, PartialEq, Eq)]
pub enum TransferError {
    /// The text is an encrypted bundle and no passphrase was given.
    PassphraseRequired,
    /// Opening or making the bundle failed.
    Bundle(BundleError),
    /// The YAML could not be read (with the parser's message).
    ParseFailed(String),
    /// The file lists no server.
    NoServers,
    /// The export passphrase is blank.
    EmptyPassphrase,
    /// There is no server to export.
    NothingToExport,
}

impl TransferError {
    pub open spec fn message_spec(&self) -> Seq<char> {
        match self {
            TransferError::PassphraseRequired => "该配置已加密，请输入口令"@,
            TransferError::Bundle(e) => e.message_spec(),
            TransferError::ParseFailed(e) => "配置解析失败: "@ + e@,
            TransferError::NoServers => "配置文件中没有可导入的 SSH 服务器"@,
            TransferError::EmptyPassphrase => "口令不能为空"@,
            TransferError::NothingToExport => "没有可导出的 SSH 服务器"@,
        }
    }

    /// The message shown to the user.
    pub fn message(&self) -> (m: String)
        ensures
            m@ == self.message_spec(),
    {
        match self {
            TransferError::PassphraseRequired => String::from_str("该配置已加密，请输入口令"),
            TransferError::Bundle(e) => e.message(),
            TransferError::ParseFailed(e) => String::from_str("配置解析失败: ").concat(e.as_str()),
            TransferError::NoServers => String::from_str("配置文件中没有可导入的 SSH 服务器"),
            TransferError::EmptyPassphrase => String::from_str("口令不能为空"),
            TransferError::NothingToExport => String::from_str("没有可导出的 SSH 服务器"),
        }
    }
}

/// A password as files carry it: an empty one is no password.
pub open spec fn nonempty_password(p: Option<String>) -> Option<String> {
    match p {
        Some(s) => if s@.len() == 0 { None } else { Some(s) },
        None => None,
    }
}

fn filter_password(p: &Option<String>) -> (r: Option<String>)
    ensures
        r == nonempty_password(*p),
{
    match p {
        Some(s) => {
            if s.as_str().is_empty() {
                None
            } else {
                Some(s.clone())
            }
        },
        None => None,
    }
}

/// How an entry is written to an export file.
pub open spec fn plain_of(s: ISshServer) -> SshPlainServer {
    SshPlainServer {
        name: s.name,
        host: s.host,
        port: s.port,
        username: s.username,
        password: nonempty_password(s.password),
        local_port: s.local_port,
        enabled: s.enabled,
    }
}

/// How an imported server becomes an entry with uid `uid`: a blank name becomes
/// the host, port 0 becomes 22, an empty password none.
pub open spec fn imported(p: SshPlainServer, uid: String) -> ISshServer {
    ISshServer {
        uid,
        name: if all_whitespace(p.name@) { p.host } else { p.name },
        host: p.host,
        port: if p.port == 0 { 22 } else { p.port },
        username: p.username,
        password: nonempty_password(p.password),
        local_port: p.local_port,
        enabled: p.enabled,
    }
}

/// The export form of an entry.
pub fn to_plain(s: &ISshServer) -> (p: SshPlainServer)
    ensures
        p == plain_of(*s),
{
    SshPlainServer {
        name: s.name.clone(),
        host: s.host.clone(),
        port: s.port,
        username: s.username.clone(),
        password: filter_password(&s.password),
        local_port: s.local_port,
        enabled: s.enabled,
    }
}

/// The entry an imported server becomes, with uid `uid`.
pub fn from_plain(p: SshPlainServer, uid: String) -> (s: ISshServer)
    ensures
        s == imported(p, uid),
{
    let name = if is_blank(p.name.as_str()) { p.host.clone() } else { p.name };
    let password = filter_password(&p.password);
    ISshServer {
        uid,
        name,
        host: p.host,
        port: if p.port == 0 { 22 } else { p.port },
        username: p.username,
        password,
        local_port: p.local_port,
        enabled: p.enabled,
    }
}

impl SshImportFile {
    pub open spec fn servers_spec(&self) -> Seq<SshPlainServer> {
        match self {
            SshImportFile::Wrapped { servers } => servers@,
            SshImportFile::Bare(servers) => servers@,
        }
    }

    /// The servers the file lists, whichever form it has.
    pub fn into_servers(self) -> (v: Vec<SshPlainServer>)
        ensures
            v@ == self.servers_spec(),
    {
        match self {
            SshImportFile::Wrapped { servers } => servers,
            SshImportFile::Bare(servers) => servers,
        }
    }
}

/// What opening an import text gives, by kind.
pub enum ImportTextOutcome {
    /// The plain YAML text.
    Plain(Seq<char>),
    /// The text is a bundle and the passphrase is missing or blank.
    PassphraseRequired,
    /// The bundle could not be opened.
    BundleFailed(BundleErrorKind),
}

/// The passphrase as the import takes it: trimmed, and none when blank.
pub open spec fn import_passphrase(passphrase: Option<Seq<char>>) -> Option<Seq<char>> {
    match passphrase {
        Some(p) => if trim_spec(p).len() == 0 { None } else { Some(trim_spec(p)) },
        None => None,
    }
}

/// What `import_plain_text` makes of `text` with `passphrase`.
pub open spec fn import_text_spec(text: Seq<char>, passphrase: Option<Seq<char>>) -> ImportTextOutcome {
    if !has_prefix(trim_start_spec(text), bundle_magic()) {
        ImportTextOutcome::Plain(text)
    } else {
        match import_passphrase(passphrase) {
            None => ImportTextOutcome::PassphraseRequired,
            Some(p) => match open_bundle(text, p) {
                BundleOutcome::Plain(s) => ImportTextOutcome::Plain(s),
                BundleOutcome::Failed(k) => ImportTextOutcome::BundleFailed(k),
            },
        }
    }
}

pub open spec fn import_outcome_of(r: Result<String, TransferError>) -> ImportTextOutcome {
    match r {
        Ok(s) => ImportTextOutcome::Plain(s@),
        Err(TransferError::Bundle(e)) => ImportTextOutcome::BundleFailed(e.kind()),
        Err(_) => ImportTextOutcome::PassphraseRequired,
    }
}

/// Opens an import text: an encrypted bundle is decrypted with the trimmed
/// passphrase (which must not be blank); any other text is plain YAML already.
pub fn import_plain_text(text: &str, passphrase: Option<&str>) -> (r: Result<String, TransferError>)
    ensures
        import_outcome_of(r) == import_text_spec(text@, match passphrase {
            Some(p) => Some(p@),
            None => None,
        }),
        r matches Err(e) ==> e is PassphraseRequired || e is Bundle,
{
    if is_encrypted_bundle(text) {
        let pass = match passphrase {
            Some(p) => {
                let t = trim(p);
                if t.is_empty() {
                    return Err(TransferError::PassphraseRequired);
                }
                t
            },
            None => return Err(TransferError::PassphraseRequired),
        };
        match decrypt_bundle(text, pass) {
            Ok(s) => Ok(s),
            Err(e) => Err(TransferError::Bundle(e)),
        }
    } else {
        Ok(String::from_str(text))
    }
}

/// Turns the servers of an import file into entries, the i-th taking the i-th
/// fresh uid; a file without servers is refused.
pub fn servers_from_import(raw: Vec<SshPlainServer>, uids: Vec<String>) -> (r: Result<Vec<ISshServer>, TransferError>)
    requires
        uids@.len() == raw@.len(),
    ensures
        raw@.len() == 0 ==> r == Err::<Vec<ISshServer>, TransferError>(TransferError::NoServers),
        raw@.len() > 0 ==> (r matches Ok(v) && v@.len() == raw@.len() && forall|i: int|
            0 <= i < raw@.len() ==> #[trigger] v@[i] == imported(raw@[i], uids@[i])),
{
    if raw.len() == 0 {
        return Err(TransferError::NoServers);
    }
    let mut out: Vec<ISshServer> = Vec::new();
    let mut raw = raw;
    let mut uids = uids;
    let ghost raw0 = raw@;
    let ghost uids0 = uids@;
    let n = raw.len();
    let mut i: usize = 0;
    while i < n
        invariant
            n == raw0.len(),
            uids0.len() == n,
            i <= n,
            raw@ == raw0.subrange(i as int, n as int),
            uids@ == uids0.subrange(i as int, n as int),
            out@.len() == i,
            forall|j: int| 0 <= j < i ==> #[trigger] out@[j] == imported(raw0[j], uids0[j]),
        decreases n - i,
    {
        let p = raw.remove(0);
        let u = uids.remove(0);
        proof {
            assert(p == raw0[i as int]);
            assert(u == uids0[i as int]);
        }
        out.push(from_plain(p, u));
        proof {
            assert(raw@ =~= raw0.subrange(i + 1, n as int));
            assert(uids@ =~= uids0.subrange(i + 1, n as int));
        }
        i = i + 1;
    }
    Ok(out)
}

/// Checks an export request and gives the file to write: the passphrase must not
/// be blank and there must be servers; every entry keeps its password in clear.
pub fn export_plan(servers: &Vec<ISshServer>, passphrase: &str) -> (r: Result<SshExportFile, TransferError>)
    ensures
        all_whitespace(passphrase@) ==> r == Err::<SshExportFile, TransferError>(TransferError::EmptyPassphrase),
        !all_whitespace(passphrase@) && servers@.len() == 0 ==> r == Err::<SshExportFile, TransferError>(
            TransferError::NothingToExport,
        ),
        !all_whitespace(passphrase@) && servers@.len() > 0 ==> (r matches Ok(f) && f.servers@.len()
            == servers@.len() && forall|i: int| 0 <= i < servers@.len() ==> #[trigger] f.servers@[i] == plain_of(
            servers@[i],
        )),
{
    if is_blank(passphrase) {
        return Err(TransferError::EmptyPassphrase);
    }
    if servers.len() == 0 {
        return Err(TransferError::NothingToExport);
    }
    let mut out: Vec<SshPlainServer> = Vec::new();
    let mut i: usize = 0;
    while i < servers.len()
        invariant
            i <= servers@.len(),
            out@.len() == i,
            forall|j: int| 0 <= j < i ==> #[trigger] out@[j] == plain_of(servers@[j]),
        decreases servers.len() - i,
    {
        out.push(to_plain(&servers[i]));
        i = i + 1;
    }
    Ok(SshExportFile { servers: out })
}

// ---- laws ----------------------------------------------------------------

/// Exporting then importing an entry gives it back under its new uid, provided
/// its name is not blank, its port is not 0 and its password, if any, is not
/// empty (the cases the import fills in or drops).
pub proof fn law_plain_roundtrip(s: ISshServer, uid: String)
    requires
        !all_whitespace(s.name@),
        s.port != 0,
        s.password matches Some(p) ==> p@.len() > 0,
    ensures
        imported(plain_of(s), uid) == (ISshServer { uid, ..s }),
{
}

/// An import of plain text gives it back unchanged, whatever the passphrase.
pub proof fn law_plain_import_unchanged(text: Seq<char>, passphrase: Option<Seq<char>>)
    requires
        !has_prefix(trim_start_spec(text), bundle_magic()),
    ensures
        import_text_spec(text, passphrase) == ImportTextOutcome::Plain(text),
{
}

/// A bundle made with a passphrase that has no surrounding whitespace imports, with
/// that passphrase, to exactly the text it sealed.
pub proof fn law_import_sealed_bundle(token: Seq<char>, plaintext: Seq<char>, passphrase: Seq<char>)
    requires
        crate::bundle::seals(token, plaintext, passphrase),
        crate::bundle::passphrase_fits(passphrase),
        trim_spec(passphrase) == passphrase,
        passphrase.len() > 0,
    ensures
        import_text_spec(token, Some(passphrase)) == ImportTextOutcome::Plain(plaintext),
{
    crate::bundle::law_sealed_bundle_is_recognised(token, plaintext, passphrase);
    crate::bundle::law_bundle_roundtrip(token, plaintext, passphrase);
}

} // verus!
