//! The cryptographic and encoding primitives the export bundle is made of:
//! Base64 (standard alphabet, padded), Argon2id key derivation, AES-256-GCM,
//! the system random source and UTF-8 decoding. The outside calls stand
//! behind small wrappers whose contracts say what the crates document.
use vstd::prelude::*;
use vstd::utf8::{decode_utf8, valid_utf8};
use aes_gcm::aead::{Aead, KeyInit};
use base64::Engine;

verus! {

// ---- Base64 ----------------------------------------------------------------

/// The symbol of a 6-bit value in the standard Base64 alphabet (RFC 4648).
pub open spec fn b64_symbol(v: int) -> char {
    if v < 26 {
        (65 + v) as char
    } else if v < 52 {
        (97 + v - 26) as char
    } else if v < 62 {
        (48 + v - 52) as char
    } else if v == 62 {
        '+'
    } else {
        '/'
    }
}

/// Standard padded Base64 encoding of `data` (RFC 4648 §4).
pub open spec fn base64_encode(data: Seq<u8>) -> Seq<char>
    decreases data.len(),
{
    if data.len() == 0 {
        Seq::empty()
    } else if data.len() == 1 {
        let b0 = data[0] as int;
        seq![b64_symbol(b0 / 4), b64_symbol((b0 % 4) * 16), '=', '=']
    } else if data.len() == 2 {
        let b0 = data[0] as int;
        let b1 = data[1] as int;
        seq![b64_symbol(b0 / 4), b64_symbol((b0 % 4) * 16 + b1 / 16), b64_symbol((b1 % 16) * 4), '=']
    } else {
        let b0 = data[0] as int;
        let b1 = data[1] as int;
        let b2 = data[2] as int;
        seq![
            b64_symbol(b0 / 4),
            b64_symbol((b0 % 4) * 16 + b1 / 16),
            b64_symbol((b1 % 16) * 4 + b2 / 64),
            b64_symbol(b2 % 64),
        ] + base64_encode(data.subrange(3, data.len() as int))
    }
}

proof fn lemma_b64_symbol(v: int, w: int)
    requires
        0 <= v < 64,
        0 <= w < 64,
    ensures
        b64_symbol(v) != '=',
        b64_symbol(v) == b64_symbol(w) ==> v == w,
        0x20 < (b64_symbol(v) as u32) < 0x7f,
{
}

proof fn lemma_bytes_split(b: int, c: int, d: int, e: int)
    requires
        0 <= b < 256,
        0 <= c < 256,
        0 <= d < 256,
        0 <= e < 256,
    ensures
        0 <= b / 4 < 64,
        0 <= (b % 4) * 16 + c / 16 < 64,
        0 <= (c % 16) * 4 + d / 64 < 64,
        0 <= d % 64 < 64,
        0 <= (b % 4) * 16 < 64,
        0 <= (c % 16) * 4 < 64,
        b / 4 == e / 4 && b % 4 == e % 4 ==> b == e,
{
}

proof fn lemma_pairs(x: int, y: int, p: int, q: int, m: int, k: int)
    requires
        0 <= x < k,
        0 <= y < k,
        0 <= p < m,
        0 <= q < m,
        x * m + p == y * m + q,
        m > 0,
    ensures
        x == y,
        p == q,
    decreases k,
{
    if x < y {
        assert(x * m + m <= y * m) by (nonlinear_arith)
            requires
                x < y,
                m > 0,
        ;
    } else if y < x {
        assert(y * m + m <= x * m) by (nonlinear_arith)
            requires
                y < x,
                m > 0,
        ;
    }
}

/// Base64 encoding is injective: distinct byte strings have distinct encodings.
pub proof fn lemma_base64_injective(x: Seq<u8>, y: Seq<u8>)
    requires
        base64_encode(x) == base64_encode(y),
    ensures
        x == y,
    decreases x.len(),
{
    let ex = base64_encode(x);
    let ey = base64_encode(y);
    if x.len() == 0 {
        if y.len() > 0 {
            assert(ey.len() >= 4);
        }
        assert(x =~= y);
        return;
    }
    if y.len() == 0 {
        assert(ex.len() >= 4);
        return;
    }
    let x0 = x[0] as int;
    let y0 = y[0] as int;
    let x1 = if x.len() > 1 { x[1] as int } else { 0 };
    let y1 = if y.len() > 1 { y[1] as int } else { 0 };
    let x2 = if x.len() > 2 { x[2] as int } else { 0 };
    let y2 = if y.len() > 2 { y[2] as int } else { 0 };
    lemma_bytes_split(x0, x1, x2, y0);
    lemma_bytes_split(y0, y1, y2, x0);
    lemma_bytes_split(x1, x2, x0, y1);
    lemma_bytes_split(y1, y2, y0, x1);
    // position 3 tells whether three bytes were encoded; position 2 whether two were
    if x.len() >= 3 {
        lemma_b64_symbol(x2 % 64, 0);
        if y.len() < 3 {
            assert(ey[3] == '=');
            assert(false);
        }
    } else if y.len() >= 3 {
        lemma_b64_symbol(y2 % 64, 0);
        assert(ex[3] == '=');
        assert(false);
    }
    if x.len() == 2 {
        lemma_b64_symbol((x1 % 16) * 4, 0);
        if y.len() == 1 {
            assert(ey[2] == '=');
            assert(false);
        }
    }
    if y.len() == 2 {
        lemma_b64_symbol((y1 % 16) * 4, 0);
        if x.len() == 1 {
            assert(ex[2] == '=');
            assert(false);
        }
    }
    // first symbol: the top six bits of the first byte
    assert(ex[0] == ey[0]);
    lemma_b64_symbol(x0 / 4, y0 / 4);
    if x.len() == 1 {
        assert(ex[1] == ey[1]);
        lemma_b64_symbol((x0 % 4) * 16, (y0 % 4) * 16);
        assert(x =~= y);
        return;
    }
    assert(ex[1] == ey[1]);
    lemma_b64_symbol((x0 % 4) * 16 + x1 / 16, (y0 % 4) * 16 + y1 / 16);
    lemma_pairs(x0 % 4, y0 % 4, x1 / 16, y1 / 16, 16, 4);
    if x.len() == 2 {
        assert(ex[2] == ey[2]);
        lemma_b64_symbol((x1 % 16) * 4, (y1 % 16) * 4);
        assert(x1 == 16 * (x1 / 16) + x1 % 16);
        assert(y1 == 16 * (y1 / 16) + y1 % 16);
        assert(x =~= y);
        return;
    }
    assert(ex[2] == ey[2]);
    lemma_b64_symbol((x1 % 16) * 4 + x2 / 64, (y1 % 16) * 4 + y2 / 64);
    lemma_pairs(x1 % 16, y1 % 16, x2 / 64, y2 / 64, 4, 16);
    assert(ex[3] == ey[3]);
    lemma_b64_symbol(x2 % 64, y2 % 64);
    assert(x1 == 16 * (x1 / 16) + x1 % 16);
    assert(y1 == 16 * (y1 / 16) + y1 % 16);
    assert(x2 == 64 * (x2 / 64) + x2 % 64);
    assert(y2 == 64 * (y2 / 64) + y2 % 64);
    let tx = x.subrange(3, x.len() as int);
    let ty = y.subrange(3, y.len() as int);
    assert(ex.subrange(4, ex.len() as int) =~= base64_encode(tx));
    assert(ey.subrange(4, ey.len() as int) =~= base64_encode(ty));
    lemma_base64_injective(tx, ty);
    assert(x =~= seq![x[0], x[1], x[2]] + tx);
    assert(y =~= seq![y[0], y[1], y[2]] + ty);
}

/// Every symbol of a Base64 encoding is printable: none is whitespace, and the
/// encoding is empty only for empty data.
pub proof fn lemma_base64_printable(data: Seq<u8>)
    ensures
        forall|i: int| 0 <= i < base64_encode(data).len() ==> 0x20 < ((#[trigger] base64_encode(data)[i]) as u32) < 0x7f,
        base64_encode(data).len() == 0 <==> data.len() == 0,
    decreases data.len(),
{
    let e = base64_encode(data);
    if data.len() == 0 {
        return;
    }
    let b0 = data[0] as int;
    let b1 = if data.len() > 1 { data[1] as int } else { 0 };
    let b2 = if data.len() > 2 { data[2] as int } else { 0 };
    lemma_bytes_split(b0, b1, b2, b0);
    lemma_b64_symbol(b0 / 4, 0);
    lemma_b64_symbol((b0 % 4) * 16, 0);
    lemma_b64_symbol((b0 % 4) * 16 + b1 / 16, 0);
    lemma_b64_symbol((b1 % 16) * 4, 0);
    lemma_b64_symbol((b1 % 16) * 4 + b2 / 64, 0);
    lemma_b64_symbol(b2 % 64, 0);
    if data.len() >= 3 {
        let rest = data.subrange(3, data.len() as int);
        lemma_base64_printable(rest);
        assert forall|i: int| 0 <= i < e.len() implies 0x20 < ((#[trigger] e[i]) as u32) < 0x7f by {
            if i >= 4 {
                assert(e[i] == base64_encode(rest)[i - 4]);
            }
        }
    }
}

/// Encodes `data` with the `base64` crate's `STANDARD` engine (standard alphabet,
/// with padding). The result is the RFC 4648 encoding `base64_encode`.
#[verifier::external_body]
pub(crate) fn base64_encode_bytes(data: &[u8]) -> (s: String)
    ensures
        s@ == base64_encode(data@),
{
    base64::engine::general_purpose::STANDARD.encode(data)
}

/// Decodes `text` with the `base64` crate's `STANDARD` engine. That engine requires
/// canonical padding and rejects non-zero trailing bits, so it accepts exactly the
/// padded encodings of byte strings and gives back the encoded bytes; on anything
/// else it fails. The error's wording is not stated.
#[verifier::external_body]
pub(crate) fn base64_decode_text(text: &str) -> (r: Result<Vec<u8>, String>)
    ensures
        match r {
            Ok(v) => text@ == base64_encode(v@),
            Err(_) => forall|x: Seq<u8>| text@ != base64_encode(x),
        },
{
    base64::engine::general_purpose::STANDARD.decode(text).map_err(|e| e.to_string())
}

// ---- Argon2id ----------------------------------------------------------------

/// The 32-byte key `Argon2::default()` (Argon2id, version 0x13, default
/// parameters) derives from `password` and `salt`.
pub uninterp spec fn argon2id_key(password: Seq<u8>, salt: Seq<u8>) -> Seq<u8>;

/// Derives a 32-byte key with `argon2::Argon2::default().hash_password_into`. The key
/// is named by `argon2id_key`. The crate's source refuses only a password or salt
/// longer than `u32::MAX` bytes, a salt shorter than 8 bytes, or an output length
/// outside 4..=`u32::MAX` (here it is 32): so it succeeds exactly on a valid
/// salt and password.
/// The error's wording is not stated.
#[verifier::external_body]
pub(crate) fn argon2_derive(password: &[u8], salt: &[u8]) -> (r: Result<Vec<u8>, String>)
    ensures
        r matches Ok(k) ==> k@ == argon2id_key(password@, salt@) && k@.len() == 32,
        r is Ok <==> (8 <= salt@.len() <= 0xFFFF_FFFF && password@.len() <= 0xFFFF_FFFF),
{
    let mut key = vec![0u8; 32];
    argon2::Argon2::default().hash_password_into(password, salt, &mut key).map(|_| key).map_err(
        |e| e.to_string(),
    )
}

// ---- AES-256-GCM -------------------------------------------------------------

/// The ciphertext (with its 16-byte tag appended) that AES-256-GCM makes of
/// `plaintext` under `key` and `nonce`, with no associated data.
pub uninterp spec fn aes256gcm_seal(key: Seq<u8>, nonce: Seq<u8>, plaintext: Seq<u8>) -> Seq<u8>;

/// What AES-256-GCM decryption of `ciphertext` under `key` and `nonce` gives:
/// the plaintext when the tag authenticates, `None` otherwise.
pub uninterp spec fn aes256gcm_open(key: Seq<u8>, nonce: Seq<u8>, ciphertext: Seq<u8>) -> Option<Seq<u8>>;

/// Largest plaintext AES-GCM accepts (`aes_gcm::P_MAX`, 2^36 bytes).
pub const AES_GCM_P_MAX: u64 = 0x10_0000_0000;

/// Encrypts with `aes_gcm::Aes256Gcm::encrypt`. The ciphertext is named by
/// `aes256gcm_seal`, is 16 bytes longer than the plaintext, and decrypts back to
/// the plaintext under the same key and nonce. The crate refuses only plaintexts
/// longer than `P_MAX`. The key and nonce must have the lengths AES-256-GCM takes
/// (`from_slice` panics otherwise). With no associated data it fails exactly when
/// the plaintext is longer than `P_MAX`.
#[verifier::external_body]
pub(crate) fn aes256gcm_encrypt(key: &[u8], nonce: &[u8], plaintext: &[u8]) -> (r: Result<Vec<u8>, String>)
    requires
        key@.len() == 32,
        nonce@.len() == 12,
    ensures
        r matches Ok(c) ==> {
            &&& c@ == aes256gcm_seal(key@, nonce@, plaintext@)
            &&& c@.len() == plaintext@.len() + 16
            &&& aes256gcm_open(key@, nonce@, c@) == Some(plaintext@)
        },
        r is Ok <==> plaintext@.len() <= AES_GCM_P_MAX,
{
    let cipher = aes_gcm::Aes256Gcm::new(aes_gcm::Key::<aes_gcm::Aes256Gcm>::from_slice(key));
    cipher.encrypt(aes_gcm::Nonce::from_slice(nonce), plaintext).map_err(|e| e.to_string())
}

/// Decrypts with `aes_gcm::Aes256Gcm::decrypt`: the result is named by
/// `aes256gcm_open`. The key and nonce must have the lengths AES-256-GCM takes.
#[verifier::external_body]
pub(crate) fn aes256gcm_decrypt(key: &[u8], nonce: &[u8], ciphertext: &[u8]) -> (r: Result<Vec<u8>, String>)
    requires
        key@.len() == 32,
        nonce@.len() == 12,
    ensures
        match r {
            Ok(p) => aes256gcm_open(key@, nonce@, ciphertext@) == Some(p@),
            Err(_) => aes256gcm_open(key@, nonce@, ciphertext@) is None,
        },
{
    let cipher = aes_gcm::Aes256Gcm::new(aes_gcm::Key::<aes_gcm::Aes256Gcm>::from_slice(key));
    cipher.decrypt(aes_gcm::Nonce::from_slice(nonce), ciphertext).map_err(|e| e.to_string())
}

// ---- randomness and UTF-8 ----------------------------------------------------

/// `n` bytes from the system random source (`getrandom::fill`). What the bytes are
/// is not stated (they are random); when it succeeds there are `n` of them.
#[verifier::external_body]
pub(crate) fn random_bytes(n: usize) -> (r: Result<Vec<u8>, String>)
    ensures
        r matches Ok(v) ==> v@.len() == n,
{
    let mut buf = vec![0u8; n];
    getrandom::fill(&mut buf).map(|_| buf).map_err(|e| e.to_string())
}

/// `String::from_utf8`: succeeds exactly on valid UTF-8 and then holds the decoded
/// characters. The error's wording is not stated.
#[verifier::external_body]
pub(crate) fn string_from_utf8(bytes: Vec<u8>) -> (r: Result<String, String>)
    ensures
        match r {
            Ok(s) => valid_utf8(bytes@) && s@ == decode_utf8(bytes@),
            Err(_) => !valid_utf8(bytes@),
        },
{
    String::from_utf8(bytes).map_err(|e| e.to_string())
}

} // verus!
