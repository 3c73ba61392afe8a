use base64::Engine as _;
use verge_ssh::bundle::{decrypt_bundle, derive_key, encrypt_bundle, is_encrypted_bundle, seal_bundle, BundleError};
use verge_ssh::config::ISshServer;
use verge_ssh::transfer::{
    default_ssh_port, export_plan, from_plain, import_plain_text, servers_from_import, to_plain, SshImportFile,
    SshPlainServer, TransferError,
};

const YAML: &str = "servers:\n- host: 203.0.113.5\n  username: root\n  password: 密码\n  local_port: 10880\n";

#[test]
fn bundle_roundtrip() {
    let token = encrypt_bundle(YAML, "correct horse").unwrap();
    assert!(token.starts_with("CVSSH1."));
    assert!(is_encrypted_bundle(&token));
    assert!(!token[7..].contains(YAML.trim()));
    assert_eq!(decrypt_bundle(&token, "correct horse").unwrap(), YAML);
    // surrounding whitespace of the token is ignored
    assert_eq!(decrypt_bundle(&format!("\n  {token}\n"), "correct horse").unwrap(), YAML);
}

#[test]
fn bundles_differ_each_time() {
    let a = encrypt_bundle(YAML, "p").unwrap();
    let b = encrypt_bundle(YAML, "p").unwrap();
    assert_ne!(a, b);
}

#[test]
fn wrong_passphrase_is_refused() {
    let token = encrypt_bundle(YAML, "right").unwrap();
    let err = decrypt_bundle(&token, "wrong").unwrap_err();
    assert_eq!(err, BundleError::DecryptFailed);
    assert_eq!(err.message(), "解密失败：口令错误或文件已损坏");
}

#[test]
fn malformed_bundles() {
    assert_eq!(decrypt_bundle("servers: []", "p").unwrap_err(), BundleError::NotABundle);
    assert!(matches!(decrypt_bundle("CVSSH1.@@@@", "p").unwrap_err(), BundleError::BadEncoding(_)));
    // 28 bytes or fewer cannot hold salt, nonce and a tag: "AAAA..." of 28 zero bytes
    let short = format!("CVSSH1.{}", "A".repeat(36) + "AA==");
    assert!(matches!(decrypt_bundle(&short, "p").unwrap_err(), BundleError::Corrupted | BundleError::BadEncoding(_)));
    assert_eq!(decrypt_bundle("CVSSH1.AAAA", "p").unwrap_err(), BundleError::Corrupted);
    assert_eq!(BundleError::Corrupted.message(), "加密配置已损坏");
    assert_eq!(BundleError::NotABundle.message(), "不是有效的加密配置");
}

#[test]
fn key_derivation_is_deterministic() {
    let salt = [7u8; 16];
    let a = derive_key("pass", &salt).unwrap();
    let b = derive_key("pass", &salt).unwrap();
    let c = derive_key("pass2", &salt).unwrap();
    assert_eq!(a.len(), 32);
    assert_eq!(a, b);
    assert_ne!(a, c);
    assert!(matches!(derive_key("pass", &[1u8; 4]).unwrap_err(), BundleError::KeyDerivation(_)));
}

#[test]
fn bundle_detection() {
    assert!(is_encrypted_bundle("  \nCVSSH1.xyz"));
    assert!(!is_encrypted_bundle("servers:\n"));
    assert!(!is_encrypted_bundle("cvssh1.xyz"));
}

#[test]
fn import_text_plain_and_encrypted() {
    assert_eq!(import_plain_text(YAML, None).unwrap(), YAML);
    assert_eq!(import_plain_text(YAML, Some("ignored")).unwrap(), YAML);
    let token = encrypt_bundle(YAML, "pw").unwrap();
    assert_eq!(import_plain_text(&token, None).unwrap_err(), TransferError::PassphraseRequired);
    assert_eq!(import_plain_text(&token, Some("   ")).unwrap_err(), TransferError::PassphraseRequired);
    assert_eq!(TransferError::PassphraseRequired.message(), "该配置已加密，请输入口令");
    assert_eq!(import_plain_text(&token, Some("  pw ")).unwrap(), YAML);
    assert_eq!(import_plain_text(&token, Some("px")).unwrap_err(), TransferError::Bundle(BundleError::DecryptFailed));
}

fn plain(name: &str, port: u16, password: Option<&str>) -> SshPlainServer {
    SshPlainServer {
        name: name.to_string(),
        host: "h.example".to_string(),
        port,
        username: "u".to_string(),
        password: password.map(|p| p.to_string()),
        local_port: 10881,
        enabled: true,
    }
}

#[test]
fn import_mapping_fills_defaults() {
    let raw = vec![plain("  ", 0, Some("")), plain("evoxt", 2022, Some("s3cret"))];
    let out = servers_from_import(raw, vec!["ssh1".to_string(), "ssh2".to_string()]).unwrap();
    assert_eq!(out[0].uid, "ssh1");
    assert_eq!(out[0].name, "h.example");
    assert_eq!(out[0].port, 22);
    assert_eq!(out[0].password, None);
    assert_eq!(out[1].name, "evoxt");
    assert_eq!(out[1].port, 2022);
    assert_eq!(out[1].password, Some("s3cret".to_string()));
    assert_eq!(servers_from_import(vec![], vec![]).unwrap_err(), TransferError::NoServers);
    assert_eq!(TransferError::NoServers.message(), "配置文件中没有可导入的 SSH 服务器");
    assert_eq!(default_ssh_port(), 22);
}

#[test]
fn import_file_forms() {
    let a = SshImportFile::Wrapped { servers: vec![plain("a", 22, None)] }.into_servers();
    let b = SshImportFile::Bare(vec![plain("a", 22, None)]).into_servers();
    assert_eq!(a, b);
}

fn entry(uid: &str, password: Option<&str>) -> ISshServer {
    ISshServer {
        uid: uid.to_string(),
        name: "n".to_string(),
        host: "h".to_string(),
        port: 22,
        username: "u".to_string(),
        password: password.map(|p| p.to_string()),
        local_port: 10880,
        enabled: false,
    }
}

#[test]
fn export_checks_and_mapping() {
    assert_eq!(export_plan(&vec![entry("a", None)], "  ").unwrap_err(), TransferError::EmptyPassphrase);
    assert_eq!(export_plan(&vec![], "pw").unwrap_err(), TransferError::NothingToExport);
    assert_eq!(TransferError::EmptyPassphrase.message(), "口令不能为空");
    assert_eq!(TransferError::NothingToExport.message(), "没有可导出的 SSH 服务器");
    let f = export_plan(&vec![entry("a", Some("")), entry("b", Some("x"))], "pw").unwrap();
    assert_eq!(f.servers[0].password, None);
    assert_eq!(f.servers[1].password, Some("x".to_string()));
    assert_eq!(f.servers[0].local_port, 10880);
}

#[test]
fn export_then_import_keeps_entries() {
    let e = entry("old-uid", Some("pw"));
    let back = from_plain(to_plain(&e), "new-uid".to_string());
    assert_eq!(back, ISshServer { uid: "new-uid".to_string(), ..e });
}

#[test]
fn sealing_with_given_salt_and_nonce() {
    let salt = [3u8; 16];
    let nonce = [9u8; 12];
    let a = seal_bundle(YAML, "pw", &salt, &nonce).unwrap();
    let b = seal_bundle(YAML, "pw", &salt, &nonce).unwrap();
    assert_eq!(a, b);
    assert!(a.starts_with("CVSSH1."));
    let blob = base64::engine::general_purpose::STANDARD.decode(&a[7..]).unwrap();
    assert_eq!(blob.len(), 16 + 12 + YAML.len() + 16);
    assert_eq!(&blob[..16], &salt);
    assert_eq!(&blob[16..28], &nonce);
    assert_ne!(&blob[28..28 + YAML.len()], YAML.as_bytes());
    assert_eq!(decrypt_bundle(&a, "pw").unwrap(), YAML);
    let c = seal_bundle(YAML, "pw", &[4u8; 16], &nonce).unwrap();
    assert_ne!(a, c);
    let d = seal_bundle(YAML, "other", &salt, &nonce).unwrap();
    assert_ne!(a, d);
}

#[test]
fn encrypted_token_layout() {
    let token = encrypt_bundle("x", "pw").unwrap();
    let blob = base64::engine::general_purpose::STANDARD.decode(&token[7..]).unwrap();
    assert_eq!(blob.len(), 16 + 12 + 1 + 16);
}
