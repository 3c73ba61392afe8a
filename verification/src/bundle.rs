//! The passphrase-encrypted export bundle: the whole plain YAML is encrypted
//! with AES-256-GCM under a key that Argon2id derives from the passphrase and a
//! random salt. The file is one opaque token:
//! `CVSSH1.` followed by Base64 of `salt (16) || nonce (12) || ciphertext`.
use vstd::prelude::*;
use vstd::utf8::{decode_utf8, encode_utf8, valid_utf8, encode_utf8_decode_utf8, encode_utf8_valid_utf8};
use crate::crypto::{
    aes256gcm_decrypt, aes256gcm_encrypt, aes256gcm_open, aes256gcm_seal, argon2_derive, argon2id_key,
    base64_decode_text, base64_encode, base64_encode_bytes, lemma_base64_injective,
    lemma_base64_printable, random_bytes, string_from_utf8, AES_GCM_P_MAX,
};
use crate::text::{
    has_prefix, is_unicode_whitespace, starts_with, strip_prefix, trim, trim_end_spec, trim_spec,
    trim_start, trim_start_spec,
};

verus! {

/// Length of the Argon2id salt.
pub const SALT_LEN: usize = 16;
/// Length of the AES-GCM nonce.
pub const NONCE_LEN: usize = 12;

/// The magic prefix of an encrypted bundle (with its format version).
pub open spec fn bundle_magic() -> Seq<char> {
    "CVSSH1."@
}

/// Why a bundle could not be made or opened.
#[derive(Debug, PartialEq, Eq)]
pub enum BundleError {
    /// The text does not start with the bundle's magic prefix.
    NotABundle,
    /// The part after the prefix is not valid Base64 (with the decoder's message).
    BadEncoding(String),
    /// The decoded data is too short to hold salt, nonce and ciphertext.
    Corrupted,
    /// Key derivation failed (with Argon2's message).
    KeyDerivation(String),
    /// Authentication failed: wrong passphrase or damaged data.
    DecryptFailed,
    /// The decrypted text is not valid UTF-8 (with the decoder's message).
    NotUtf8(String),
    /// The random source failed while making the salt.
    RandomSalt(String),
    /// The random source failed while making the nonce.
    RandomNonce(String),
    /// Encryption failed (with AES-GCM's message).
    EncryptFailed(String),
}

/// The kinds of [`BundleError`], without their messages.
pub enum BundleErrorKind {
    NotABundle,
    BadEncoding,
    Corrupted,
    KeyDerivation,
    DecryptFailed,
    NotUtf8,
    RandomSalt,
    RandomNonce,
    EncryptFailed,
}

impl BundleError {
    pub open spec fn kind(&self) -> BundleErrorKind {
        match self {
            BundleError::NotABundle => BundleErrorKind::NotABundle,
            BundleError::BadEncoding(_) => BundleErrorKind::BadEncoding,
            BundleError::Corrupted => BundleErrorKind::Corrupted,
            BundleError::KeyDerivation(_) => BundleErrorKind::KeyDerivation,
            BundleError::DecryptFailed => BundleErrorKind::DecryptFailed,
            BundleError::NotUtf8(_) => BundleErrorKind::NotUtf8,
            BundleError::RandomSalt(_) => BundleErrorKind::RandomSalt,
            BundleError::RandomNonce(_) => BundleErrorKind::RandomNonce,
            BundleError::EncryptFailed(_) => BundleErrorKind::EncryptFailed,
        }
    }

    pub open spec fn message_spec(&self) -> Seq<char> {
        match self {
            BundleError::NotABundle => "不是有效的加密配置"@,
            BundleError::BadEncoding(e) => "密文格式错误: "@ + e@,
            BundleError::Corrupted => "加密配置已损坏"@,
            BundleError::KeyDerivation(e) => "密钥派生失败: "@ + e@,
            BundleError::DecryptFailed => "解密失败：口令错误或文件已损坏"@,
            BundleError::NotUtf8(e) => "明文不是合法 UTF-8: "@ + e@,
            BundleError::RandomSalt(e) => "生成盐失败: "@ + e@,
            BundleError::RandomNonce(e) => "生成 nonce 失败: "@ + e@,
            BundleError::EncryptFailed(e) => "加密失败: "@ + e@,
        }
    }

    /// The message shown to the user.
    pub fn message(&self) -> (m: String)
        ensures
            m@ == self.message_spec(),
    {
        match self {
            BundleError::NotABundle => String::from_str("不是有效的加密配置"),
            BundleError::BadEncoding(e) => String::from_str("密文格式错误: ").concat(e.as_str()),
            BundleError::Corrupted => String::from_str("加密配置已损坏"),
            BundleError::KeyDerivation(e) => String::from_str("密钥派生失败: ").concat(e.as_str()),
            BundleError::DecryptFailed => String::from_str("解密失败：口令错误或文件已损坏"),
            BundleError::NotUtf8(e) => String::from_str("明文不是合法 UTF-8: ").concat(e.as_str()),
            BundleError::RandomSalt(e) => String::from_str("生成盐失败: ").concat(e.as_str()),
            BundleError::RandomNonce(e) => String::from_str("生成 nonce 失败: ").concat(e.as_str()),
            BundleError::EncryptFailed(e) => String::from_str("加密失败: ").concat(e.as_str()),
        }
    }
}

/// What opening a bundle gives, by kind.
pub enum BundleOutcome {
    Plain(Seq<char>),
    Failed(BundleErrorKind),
}

pub open spec fn outcome_of(r: Result<String, BundleError>) -> BundleOutcome {
    match r {
        Ok(s) => BundleOutcome::Plain(s@),
        Err(e) => BundleOutcome::Failed(e.kind()),
    }
}

/// The key derived from `passphrase` (its UTF-8 bytes) and `salt`.
pub open spec fn bundle_key(passphrase: Seq<char>, salt: Seq<u8>) -> Seq<u8> {
    argon2id_key(encode_utf8(passphrase), salt)
}

/// Whether a passphrase is short enough for Argon2 (at most `u32::MAX` bytes).
pub open spec fn passphrase_fits(passphrase: Seq<char>) -> bool {
    encode_utf8(passphrase).len() <= 0xFFFF_FFFF
}

/// What `decrypt_bundle` makes of `token` with `passphrase`.
pub open spec fn open_bundle(token: Seq<char>, passphrase: Seq<char>) -> BundleOutcome {
    let t = trim_spec(token);
    if !has_prefix(t, bundle_magic()) {
        BundleOutcome::Failed(BundleErrorKind::NotABundle)
    } else {
        let b64 = t.subrange(bundle_magic().len() as int, t.len() as int);
        if !(exists|x: Seq<u8>| b64 == base64_encode(x)) {
            BundleOutcome::Failed(BundleErrorKind::BadEncoding)
        } else {
            let blob = choose|x: Seq<u8>| b64 == base64_encode(x);
            if blob.len() <= SALT_LEN + NONCE_LEN {
                BundleOutcome::Failed(BundleErrorKind::Corrupted)
            } else if !passphrase_fits(passphrase) {
                BundleOutcome::Failed(BundleErrorKind::KeyDerivation)
            } else {
                let salt = blob.subrange(0, SALT_LEN as int);
                let nonce = blob.subrange(SALT_LEN as int, (SALT_LEN + NONCE_LEN) as int);
                let ct = blob.subrange((SALT_LEN + NONCE_LEN) as int, blob.len() as int);
                match aes256gcm_open(bundle_key(passphrase, salt), nonce, ct) {
                    None => BundleOutcome::Failed(BundleErrorKind::DecryptFailed),
                    Some(p) => if valid_utf8(p) {
                        BundleOutcome::Plain(decode_utf8(p))
                    } else {
                        BundleOutcome::Failed(BundleErrorKind::NotUtf8)
                    },
                }
            }
        }
    }
}

/// `token` is a bundle sealing `plaintext` under `passphrase`: the magic prefix, then
/// Base64 of a 16-byte salt, a 12-byte nonce and a ciphertext that authenticates
/// and decrypts to the plaintext's UTF-8 bytes under the derived key.
pub open spec fn seals(token: Seq<char>, plaintext: Seq<char>, passphrase: Seq<char>) -> bool {
    exists|salt: Seq<u8>, nonce: Seq<u8>, ct: Seq<u8>|
        {
            &&& salt.len() == SALT_LEN
            &&& nonce.len() == NONCE_LEN
            &&& ct.len() == encode_utf8(plaintext).len() + 16
            &&& token == bundle_magic() + base64_encode(salt + nonce + ct)
            &&& aes256gcm_open(bundle_key(passphrase, salt), nonce, ct) == Some(encode_utf8(plaintext))
        }
}

/// Derives the 32-byte AES key from the passphrase and salt (Argon2id, default parameters).
pub fn derive_key(passphrase: &str, salt: &[u8]) -> (r: Result<Vec<u8>, BundleError>)
    ensures
        match r {
            Ok(k) => k@ == bundle_key(passphrase@, salt@) && k@.len() == 32,
            Err(e) => e is KeyDerivation,
        },
        r is Ok <==> (8 <= salt@.len() <= 0xFFFF_FFFF && passphrase_fits(passphrase@)),
{
    match argon2_derive(passphrase.as_bytes(), salt) {
        Ok(k) => Ok(k),
        Err(e) => Err(BundleError::KeyDerivation(e)),
    }
}

/// Whether `text` is an encrypted bundle: after leading whitespace it starts with the magic prefix.
pub fn is_encrypted_bundle(text: &str) -> (r: bool)
    ensures
        r == has_prefix(trim_start_spec(text@), bundle_magic()),
{
    starts_with(trim_start(text), "CVSSH1.")
}

fn copy_range(src: &Vec<u8>, from: usize, to: usize) -> (r: Vec<u8>)
    requires
        from <= to <= src@.len(),
    ensures
        r@ == src@.subrange(from as int, to as int),
{
    let mut r: Vec<u8> = Vec::new();
    let mut i = from;
    while i < to
        invariant
            from <= i <= to <= src@.len(),
            r@ == src@.subrange(from as int, i as int),
        decreases to - i,
    {
        r.push(src[i]);
        proof {
            assert(r@ =~= src@.subrange(from as int, i + 1));
        }
        i = i + 1;
    }
    r
}

fn append_bytes(dst: &mut Vec<u8>, src: &[u8])
    ensures
        final(dst)@ == old(dst)@ + src@,
{
    let mut i: usize = 0;
    while i < src.len()
        invariant
            i <= src@.len(),
            dst@ == old(dst)@ + src@.subrange(0, i as int),
        decreases src.len() - i,
    {
        dst.push(src[i]);
        proof {
            assert(dst@ =~= old(dst)@ + src@.subrange(0, i + 1));
        }
        i = i + 1;
    }
    proof {
        assert(src@.subrange(0, src@.len() as int) =~= src@);
    }
}

/// The token that sealing `plaintext` under `passphrase` with `salt` and `nonce`
/// gives: the magic prefix, then Base64 of salt, nonce and the AES-256-GCM
/// ciphertext of the text's UTF-8 bytes under the derived key.
pub open spec fn sealed_token(plaintext: Seq<char>, passphrase: Seq<char>, salt: Seq<u8>, nonce: Seq<u8>) -> Seq<
    char,
> {
    bundle_magic() + base64_encode(
        salt + nonce + aes256gcm_seal(bundle_key(passphrase, salt), nonce, encode_utf8(plaintext)),
    )
}

/// Seals the plain YAML text under the passphrase with the given salt and nonce.
/// It succeeds exactly when the passphrase fits Argon2's limit and the text fits
/// AES-GCM's; the token is then `sealed_token` of its arguments.
pub fn seal_bundle(plaintext: &str, passphrase: &str, salt: &[u8], nonce: &[u8]) -> (r: Result<String, BundleError>)
    requires
        salt@.len() == SALT_LEN,
        nonce@.len() == NONCE_LEN,
    ensures
        r is Ok <==> passphrase_fits(passphrase@) && encode_utf8(plaintext@).len() <= AES_GCM_P_MAX,
        r matches Ok(t) ==> t@ == sealed_token(plaintext@, passphrase@, salt@, nonce@) && seals(
            t@,
            plaintext@,
            passphrase@,
        ),
        !passphrase_fits(passphrase@) ==> (r matches Err(e) && e is KeyDerivation),
        passphrase_fits(passphrase@) && encode_utf8(plaintext@).len() > AES_GCM_P_MAX ==> (r matches Err(e)
            && e is EncryptFailed),
{
    let key = derive_key(passphrase, salt)?;
    let pt = plaintext.as_bytes();
    let ciphertext = match aes256gcm_encrypt(key.as_slice(), nonce, pt) {
        Ok(c) => c,
        Err(e) => return Err(BundleError::EncryptFailed(e)),
    };
    let mut blob: Vec<u8> = Vec::new();
    append_bytes(&mut blob, salt);
    append_bytes(&mut blob, nonce);
    append_bytes(&mut blob, ciphertext.as_slice());
    let encoded = base64_encode_bytes(blob.as_slice());
    let token = String::from_str("CVSSH1.").concat(encoded.as_str());
    proof {
        assert(blob@ =~= salt@ + nonce@ + ciphertext@);
        assert(token@ == sealed_token(plaintext@, passphrase@, salt@, nonce@));
        assert(seals(token@, plaintext@, passphrase@)) by {
            assert(token@ == bundle_magic() + base64_encode(salt@ + nonce@ + ciphertext@));
        }
    }
    Ok(token)
}

/// Encrypts the plain YAML text into one opaque bundle token: draws a random
/// 16-byte salt and 12-byte nonce, then seals with them. Fails only when the
/// random source fails, or when `seal_bundle` does (the passphrase or the text is
/// too large for Argon2 or AES-GCM); on success the token is `sealed_token` of
/// the text, the passphrase and the drawn salt and nonce.
pub fn encrypt_bundle(plaintext: &str, passphrase: &str) -> (r: Result<String, BundleError>)
    ensures
        match r {
            Ok(t) => {
                &&& seals(t@, plaintext@, passphrase@)
                &&& passphrase_fits(passphrase@)
                &&& encode_utf8(plaintext@).len() <= AES_GCM_P_MAX
                &&& exists|salt: Seq<u8>, nonce: Seq<u8>|
                    salt.len() == SALT_LEN && nonce.len() == NONCE_LEN && t@ == #[trigger] sealed_token(
                        plaintext@,
                        passphrase@,
                        salt,
                        nonce,
                    )
            },
            Err(e) => {
                ||| e is RandomSalt
                ||| e is RandomNonce
                ||| (e is KeyDerivation && !passphrase_fits(passphrase@))
                ||| (e is EncryptFailed && passphrase_fits(passphrase@) && encode_utf8(plaintext@).len()
                    > AES_GCM_P_MAX)
            },
        },
{
    let salt = match random_bytes(SALT_LEN) {
        Ok(s) => s,
        Err(e) => return Err(BundleError::RandomSalt(e)),
    };
    let nonce = match random_bytes(NONCE_LEN) {
        Ok(n) => n,
        Err(e) => return Err(BundleError::RandomNonce(e)),
    };
    seal_bundle(plaintext, passphrase, salt.as_slice(), nonce.as_slice())
}

/// Decrypts a bundle token with the passphrase and gives back the plain YAML text.
pub fn decrypt_bundle(token: &str, passphrase: &str) -> (r: Result<String, BundleError>)
    ensures
        outcome_of(r) == open_bundle(token@, passphrase@),
{
    let trimmed = trim(token);
    let b64 = match strip_prefix(trimmed, "CVSSH1.") {
        Some(rest) => rest,
        None => return Err(BundleError::NotABundle),
    };
    let blob = match base64_decode_text(b64) {
        Ok(v) => v,
        Err(e) => return Err(BundleError::BadEncoding(e)),
    };
    proof {
        lemma_choose_decoded(b64@, blob@);
    }
    if blob.len() <= SALT_LEN + NONCE_LEN {
        return Err(BundleError::Corrupted);
    }
    let salt = copy_range(&blob, 0, SALT_LEN);
    let nonce = copy_range(&blob, SALT_LEN, SALT_LEN + NONCE_LEN);
    let ciphertext = copy_range(&blob, SALT_LEN + NONCE_LEN, blob.len());
    let key = derive_key(passphrase, salt.as_slice())?;
    let plain = match aes256gcm_decrypt(key.as_slice(), nonce.as_slice(), ciphertext.as_slice()) {
        Ok(p) => p,
        Err(_) => return Err(BundleError::DecryptFailed),
    };
    match string_from_utf8(plain) {
        Ok(s) => Ok(s),
        Err(e) => Err(BundleError::NotUtf8(e)),
    }
}

proof fn lemma_choose_decoded(b64: Seq<char>, blob: Seq<u8>)
    requires
        b64 == base64_encode(blob),
    ensures
        (choose|x: Seq<u8>| b64 == base64_encode(x)) == blob,
{
    let c = choose|x: Seq<u8>| b64 == base64_encode(x);
    lemma_base64_injective(c, blob);
}

// ---- laws ----------------------------------------------------------------

/// A bundle opens with the passphrase it was sealed with and gives back exactly
/// the text it sealed (the passphrase must fit Argon2's limit, which sealing
/// already required).
pub proof fn law_bundle_roundtrip(token: Seq<char>, plaintext: Seq<char>, passphrase: Seq<char>)
    requires
        seals(token, plaintext, passphrase),
        passphrase_fits(passphrase),
    ensures
        open_bundle(token, passphrase) == BundleOutcome::Plain(plaintext),
{
    let (salt, nonce, ct) = choose|salt: Seq<u8>, nonce: Seq<u8>, ct: Seq<u8>|
        {
            &&& salt.len() == SALT_LEN
            &&& nonce.len() == NONCE_LEN
            &&& ct.len() == encode_utf8(plaintext).len() + 16
            &&& token == bundle_magic() + base64_encode(salt + nonce + ct)
            &&& aes256gcm_open(bundle_key(passphrase, salt), nonce, ct) == Some(encode_utf8(plaintext))
        };
    let blob = salt + nonce + ct;
    let enc = base64_encode(blob);
    reveal_strlit("CVSSH1.");
    lemma_base64_printable(blob);
    lemma_token_untrimmed(token, enc);
    assert(token.subrange(bundle_magic().len() as int, token.len() as int) =~= enc);
    assert(token.subrange(0, bundle_magic().len() as int) =~= bundle_magic());
    lemma_choose_decoded(enc, blob);
    assert(blob.subrange(0, 16) =~= salt);
    assert(blob.subrange(16, 28) =~= nonce);
    assert(blob.subrange(28, blob.len() as int) =~= ct);
    encode_utf8_decode_utf8(plaintext);
    encode_utf8_valid_utf8(plaintext);
    assert(trim_spec(token) == token);
    assert(has_prefix(token, bundle_magic()));
    assert(exists|x: Seq<u8>| enc == base64_encode(x));
    assert(blob.len() > SALT_LEN + NONCE_LEN);
}

proof fn lemma_token_untrimmed(token: Seq<char>, enc: Seq<char>)
    requires
        token == bundle_magic() + enc,
        enc.len() > 0,
        forall|i: int| 0 <= i < enc.len() ==> 0x20 < ((#[trigger] enc[i]) as u32) < 0x7f,
    ensures
        trim_spec(token) == token,
{
    reveal_strlit("CVSSH1.");
    assert(token[0] == 'C');
    assert(!is_unicode_whitespace(token[0]));
    assert(trim_start_spec(token) == token);
    assert(token.last() == enc.last());
    assert(!is_unicode_whitespace(token.last()));
}

/// Every token that `encrypt_bundle` makes is recognised as an encrypted bundle.
pub proof fn law_sealed_bundle_is_recognised(token: Seq<char>, plaintext: Seq<char>, passphrase: Seq<char>)
    requires
        seals(token, plaintext, passphrase),
    ensures
        has_prefix(trim_start_spec(token), bundle_magic()),
{
    let (salt, nonce, ct) = choose|salt: Seq<u8>, nonce: Seq<u8>, ct: Seq<u8>|
        {
            &&& salt.len() == SALT_LEN
            &&& nonce.len() == NONCE_LEN
            &&& ct.len() == encode_utf8(plaintext).len() + 16
            &&& token == bundle_magic() + base64_encode(salt + nonce + ct)
            &&& aes256gcm_open(bundle_key(passphrase, salt), nonce, ct) == Some(encode_utf8(plaintext))
        };
    reveal_strlit("CVSSH1.");
    assert(token[0] == 'C');
    assert(trim_start_spec(token) == token);
    assert(token.subrange(0, bundle_magic().len() as int) =~= bundle_magic());
}

} // verus!
