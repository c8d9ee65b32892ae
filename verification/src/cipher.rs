//! Sealed tokens: an identity, sealed with AES-128-GCM under the process key
//! and written as URL-safe base64 text without padding; and the process key
//! itself.

use aes_gcm::aead::rand_core::RngCore;
use aes_gcm::aead::{Aead, KeyInit, OsRng};
use aes_gcm::{AeadCore, Aes128Gcm, Nonce};
use base64::engine::general_purpose::{URL_SAFE, URL_SAFE_NO_PAD};
use base64::Engine;
use std::path::PathBuf;
use vstd::prelude::*;
use vstd::string::*;

use crate::access::{
    base_of, is_read, is_write, lemma_pair_members, lemma_pair_shares_base, lemma_roles_exclusive,
    read_of, write_of, AccessCheck, UserId,
};

verus! {

/// Length of the process key in bytes.
pub const KEY_LEN: usize = 16;

/// Length of the nonce that precedes the ciphertext in a token.
pub const NONCE_LEN: usize = 12;

/// Length of the authentication tag that ends the ciphertext.
pub const TAG_LEN: usize = 16;

/// Length of an identity in its sealed form, before encryption.
pub const ID_LEN: usize = 8;

/// Shortest decoded token on which decryption is attempted: a nonce and a tag.
pub const MIN_TOKEN_LEN: usize = 28;

/// Longest plaintext that AES-GCM seals.
pub const MAX_PLAINTEXT_LEN: u64 = 0x10_0000_0000;

/// Why a token was not opened.
#[derive(Clone, Copy, Debug, PartialEq, Eq, Structural)]
pub enum TokenError {
    /// The text is no base64, the decoded bytes are too few, or the payload
    /// is not eight bytes long.
    MalformedToken,
    /// The authentication tag does not match: wrong key or altered bytes.
    AuthenticationFailed,
}

/// The 128-bit process key.
#[derive(Clone, Copy, Debug)]
pub struct Key {
    pub bytes: [u8; 16],
}

impl View for Key {
    type V = Seq<u8>;

    open spec fn view(&self) -> Seq<u8> {
        self.bytes@
    }
}

/// A path in the file system, as std holds it. Nothing inside it is visible
/// here.
#[verifier::external_type_specification]
#[verifier::external_body]
pub struct ExPathBuf(PathBuf);

/// Paths of the certificate and the private key for encrypted transport.
#[derive(Debug)]
pub struct TlsCredentials {
    pub cert: PathBuf,
    pub key: PathBuf,
}

/// The ciphertext and tag that AES-128-GCM gives for `plain` under `key` and
/// `nonce` with no associated data, or `None` where it refuses the input.
pub uninterp spec fn aes128_gcm_seal(key: Seq<u8>, nonce: Seq<u8>, plain: Seq<u8>) -> Option<Seq<u8>>;

/// The plaintext that AES-128-GCM recovers from `sealed` under `key` and
/// `nonce` with no associated data, or `None` where the tag does not match.
pub uninterp spec fn aes128_gcm_open(key: Seq<u8>, nonce: Seq<u8>, sealed: Seq<u8>) -> Option<Seq<u8>>;

/// The URL-safe base64 text of `data`, without padding.
pub uninterp spec fn url_safe_no_pad_text(data: Seq<u8>) -> Seq<char>;

/// The bytes that `text` stands for in URL-safe base64 without padding, or
/// `None` where it is no such text.
pub uninterp spec fn url_safe_no_pad_bytes(text: Seq<char>) -> Option<Seq<u8>>;

/// The bytes that `text` stands for in URL-safe base64 with padding, or
/// `None` where it is no such text.
pub uninterp spec fn url_safe_bytes(text: Seq<char>) -> Option<Seq<u8>>;

/// `text` without its leading and trailing white space.
pub uninterp spec fn trimmed_text(text: Seq<char>) -> Seq<char>;

/// The view of an optional byte vector.
pub open spec fn bytes_view(v: Option<Vec<u8>>) -> Option<Seq<u8>> {
    match v {
        Some(b) => Some(b@),
        None => None,
    }
}

/// The eight bytes of `id`, most significant first.
pub open spec fn be_bytes(id: u64) -> Seq<u8> {
    seq![
        ((id / 0x100_0000_0000_0000) % 256) as u8,
        ((id / 0x1_0000_0000_0000) % 256) as u8,
        ((id / 0x100_0000_0000) % 256) as u8,
        ((id / 0x1_0000_0000) % 256) as u8,
        ((id / 0x100_0000) % 256) as u8,
        ((id / 0x1_0000) % 256) as u8,
        ((id / 0x100) % 256) as u8,
        (id % 256) as u8,
    ]
}

/// The number that the first eight bytes of `b` spell, most significant
/// first.
pub open spec fn be_value(b: Seq<u8>) -> int {
    b[0] * 0x100_0000_0000_0000
        + b[1] * 0x1_0000_0000_0000
        + b[2] * 0x100_0000_0000
        + b[3] * 0x1_0000_0000
        + b[4] * 0x100_0000
        + b[5] * 0x1_0000
        + b[6] * 0x100
        + b[7]
}

/// What a decrypted payload says: an identity if it is eight bytes long.
pub open spec fn identity_of_plaintext(plain: Seq<u8>) -> Result<u64, TokenError> {
    if plain.len() == ID_LEN {
        Ok(be_value(plain) as u64)
    } else {
        Err(TokenError::MalformedToken)
    }
}

/// What the decoded bytes of a token say under `key`.
pub open spec fn opened_bytes(data: Seq<u8>, key: Seq<u8>) -> Result<u64, TokenError> {
    if data.len() < MIN_TOKEN_LEN {
        Err(TokenError::MalformedToken)
    } else {
        match aes128_gcm_open(
            key,
            data.subrange(0, NONCE_LEN as int),
            data.subrange(NONCE_LEN as int, data.len() as int),
        ) {
            None => Err(TokenError::AuthenticationFailed),
            Some(plain) => identity_of_plaintext(plain),
        }
    }
}

/// What a token says under `key`.
pub open spec fn opened(token: Seq<char>, key: Seq<u8>) -> Result<u64, TokenError> {
    match url_safe_no_pad_bytes(token) {
        None => Err(TokenError::MalformedToken),
        Some(data) => opened_bytes(data, key),
    }
}

/// Whether `token` is `id` sealed under `key` with `nonce`: the text of the
/// nonce followed by the sealed identity, which is the identity's eight
/// bytes and a tag, decodes to those bytes, and the sealed part opens under
/// the same key and nonce to the identity's bytes.
pub open spec fn is_sealed(token: Seq<char>, key: Seq<u8>, nonce: Seq<u8>, id: u64) -> bool {
    &&& nonce.len() == NONCE_LEN
    &&& aes128_gcm_seal(key, nonce, be_bytes(id)) matches Some(sealed)
    &&& sealed.len() == ID_LEN + TAG_LEN
    &&& aes128_gcm_open(key, nonce, sealed) == Some(be_bytes(id))
    &&& token == url_safe_no_pad_text(nonce + sealed)
    &&& url_safe_no_pad_bytes(token) == Some(nonce + sealed)
}

/// The key that a stored text holds: its base64 bytes, cut to the key's
/// length, if there are enough of them.
pub open spec fn stored_key(text: Seq<char>) -> Option<Seq<u8>> {
    match url_safe_bytes(trimmed_text(text)) {
        Some(bytes) if bytes.len() >= KEY_LEN => Some(bytes.subrange(0, KEY_LEN as int)),
        _ => None,
    }
}

/// Reading back the big-endian bytes of a number gives the number.
pub proof fn lemma_be_round_trip(id: u64)
    ensures
        be_bytes(id).len() == ID_LEN,
        be_value(be_bytes(id)) == id,
        identity_of_plaintext(be_bytes(id)) == Ok::<u64, TokenError>(id),
{
    assert(((id / 0x100_0000_0000_0000) % 256) * 0x100_0000_0000_0000 + ((id / 0x1_0000_0000_0000)
        % 256) * 0x1_0000_0000_0000 + ((id / 0x100_0000_0000) % 256) * 0x100_0000_0000 + ((id
        / 0x1_0000_0000) % 256) * 0x1_0000_0000 + ((id / 0x100_0000) % 256) * 0x100_0000 + ((id
        / 0x1_0000) % 256) * 0x1_0000 + ((id / 0x100) % 256) * 0x100 + (id % 256) == id)
        by (bit_vector);
}

/// A sealed token opens under its key to the identity that was sealed.
pub proof fn lemma_sealed_opens(token: Seq<char>, key: Seq<u8>, nonce: Seq<u8>, id: u64)
    requires
        is_sealed(token, key, nonce, id),
    ensures
        opened(token, key) == Ok::<u64, TokenError>(id),
{
    let sealed = aes128_gcm_seal(key, nonce, be_bytes(id)).unwrap();
    let data = nonce + sealed;
    lemma_be_round_trip(id);
    assert(data.subrange(0, NONCE_LEN as int) =~= nonce);
    assert(data.subrange(NONCE_LEN as int, data.len() as int) =~= sealed);
}

/// Tokens sealed with different nonces differ, whatever was sealed and
/// under whatever keys: a token decodes to bytes that begin with its nonce.
pub proof fn lemma_distinct_nonces_distinct_tokens(
    first: Seq<char>,
    second: Seq<char>,
    first_key: Seq<u8>,
    second_key: Seq<u8>,
    first_nonce: Seq<u8>,
    second_nonce: Seq<u8>,
    first_id: u64,
    second_id: u64,
)
    requires
        is_sealed(first, first_key, first_nonce, first_id),
        is_sealed(second, second_key, second_nonce, second_id),
        first_nonce != second_nonce,
    ensures
        first != second,
{
    if first == second {
        let a = aes128_gcm_seal(first_key, first_nonce, be_bytes(first_id)).unwrap();
        let b = aes128_gcm_seal(second_key, second_nonce, be_bytes(second_id)).unwrap();
        assert(first_nonce + a == second_nonce + b);
        assert((first_nonce + a).subrange(0, NONCE_LEN as int) =~= first_nonce);
        assert((second_nonce + b).subrange(0, NONCE_LEN as int) =~= second_nonce);
        assert(false);
    }
}

/// `OsRng::next_u64`: a number from the operating system's random source.
/// Nothing is claimed of it. Where the source fails the process ends.
#[verifier::external_body]
fn random_u64() -> u64 {
    OsRng.next_u64()
}

/// `Aes128Gcm::generate_nonce` on `OsRng`: a random nonce of twelve bytes.
/// Only its length is claimed. Where the random source fails the process
/// ends.
#[verifier::external_body]
fn random_nonce() -> (r: Vec<u8>)
    ensures
        r@.len() == NONCE_LEN,
{
    Aes128Gcm::generate_nonce(&mut OsRng).to_vec()
}

/// `Aes128Gcm::generate_key` on `OsRng`: a random key. Nothing is claimed of
/// its bytes. Where the random source fails the process ends.
#[verifier::external_body]
fn random_key() -> Key {
    Key { bytes: Aes128Gcm::generate_key(&mut OsRng).into() }
}

/// `Aead::encrypt` of `Aes128Gcm`, made with `KeyInit::new` from the key. The
/// result depends on key, nonce and plaintext alone. It is given for every
/// plaintext up to the scheme's limit, is the plaintext's length plus a tag,
/// and decrypts under the same key and nonce to the plaintext. The nonce
/// must be twelve bytes long, and the sealed bytes must fit in a vector.
#[verifier::external_body]
fn aead_encrypt(key: &Key, nonce: &Vec<u8>, plain: &Vec<u8>) -> (r: Option<Vec<u8>>)
    requires
        nonce@.len() == NONCE_LEN,
        plain@.len() + TAG_LEN <= isize::MAX,
    ensures
        bytes_view(r) == aes128_gcm_seal(key@, nonce@, plain@),
        plain@.len() <= MAX_PLAINTEXT_LEN ==> r is Some,
        r matches Some(sealed) ==> sealed@.len() == plain@.len() + TAG_LEN && aes128_gcm_open(
            key@,
            nonce@,
            sealed@,
        ) == Some(plain@),
{
    let cipher = Aes128Gcm::new(&aes_gcm::Key::<Aes128Gcm>::from(key.bytes));
    cipher.encrypt(Nonce::from_slice(nonce.as_slice()), plain.as_slice()).ok()
}

/// `Aead::decrypt` of `Aes128Gcm`, made with `KeyInit::new` from the key. The
/// result depends on key, nonce and sealed bytes alone. The nonce must be
/// twelve bytes long.
#[verifier::external_body]
fn aead_decrypt(key: &Key, nonce: &Vec<u8>, sealed: &Vec<u8>) -> (r: Option<Vec<u8>>)
    requires
        nonce@.len() == NONCE_LEN,
    ensures
        bytes_view(r) == aes128_gcm_open(key@, nonce@, sealed@),
{
    let cipher = Aes128Gcm::new(&aes_gcm::Key::<Aes128Gcm>::from(key.bytes));
    cipher.decrypt(Nonce::from_slice(nonce.as_slice()), sealed.as_slice()).ok()
}

/// `Engine::encode` of `URL_SAFE_NO_PAD`. The text depends on the bytes
/// alone, and decodes to them. The length of the text must fit in `usize`.
#[verifier::external_body]
fn base64_encode(data: &Vec<u8>) -> (r: String)
    requires
        data@.len() <= usize::MAX / 2,
    ensures
        r@ == url_safe_no_pad_text(data@),
        url_safe_no_pad_bytes(r@) == Some(data@),
{
    URL_SAFE_NO_PAD.encode(data)
}

/// `Engine::decode` of `URL_SAFE_NO_PAD`. The bytes depend on the text alone.
#[verifier::external_body]
fn base64_decode(text: &str) -> (r: Option<Vec<u8>>)
    ensures
        bytes_view(r) == url_safe_no_pad_bytes(text@),
{
    URL_SAFE_NO_PAD.decode(text).ok()
}

/// `Engine::decode` of `URL_SAFE`. The bytes depend on the text alone.
#[verifier::external_body]
fn base64_decode_padded(text: &str) -> (r: Option<Vec<u8>>)
    ensures
        bytes_view(r) == url_safe_bytes(text@),
{
    URL_SAFE.decode(text).ok()
}

/// `str::trim`. The result depends on the text alone.
#[verifier::external_body]
fn trim(text: &str) -> (r: String)
    ensures
        r@ == trimmed_text(text@),
{
    text.trim().to_string()
}

/// The eight bytes of an identity, most significant first.
pub fn id_to_bytes(id: UserId) -> (r: Vec<u8>)
    ensures
        r@ == be_bytes(id),
{
    let mut r: Vec<u8> = Vec::with_capacity(8);
    r.push(((id / 0x100_0000_0000_0000) % 256) as u8);
    r.push(((id / 0x1_0000_0000_0000) % 256) as u8);
    r.push(((id / 0x100_0000_0000) % 256) as u8);
    r.push(((id / 0x1_0000_0000) % 256) as u8);
    r.push(((id / 0x100_0000) % 256) as u8);
    r.push(((id / 0x1_0000) % 256) as u8);
    r.push(((id / 0x100) % 256) as u8);
    r.push((id % 256) as u8);
    assert(r@ =~= be_bytes(id));
    r
}

/// Reads a decrypted payload: exactly eight bytes spell an identity, most
/// significant byte first; any other length is malformed.
pub fn identity_from_plaintext(plain: &Vec<u8>) -> (r: Result<UserId, TokenError>)
    ensures
        r == identity_of_plaintext(plain@),
{
    if plain.len() != ID_LEN {
        return Err(TokenError::MalformedToken);
    }
    let id: u64 = (plain[0] as u64) * 0x100_0000_0000_0000
        + (plain[1] as u64) * 0x1_0000_0000_0000
        + (plain[2] as u64) * 0x100_0000_0000
        + (plain[3] as u64) * 0x1_0000_0000
        + (plain[4] as u64) * 0x100_0000
        + (plain[5] as u64) * 0x1_0000
        + (plain[6] as u64) * 0x100
        + (plain[7] as u64);
    Ok(id)
}

/// Frames a token: the nonce, then the sealed bytes.
pub fn frame_token(nonce: &Vec<u8>, sealed: &Vec<u8>) -> (r: Vec<u8>)
    requires
        nonce@.len() + sealed@.len() <= usize::MAX,
    ensures
        r@ == nonce@ + sealed@,
{
    let mut r: Vec<u8> = Vec::with_capacity(nonce.len() + sealed.len());
    let mut i: usize = 0;
    while i < nonce.len()
        invariant
            i <= nonce@.len(),
            r@ == nonce@.subrange(0, i as int),
        decreases nonce@.len() - i,
    {
        r.push(nonce[i]);
        i += 1;
        assert(r@ =~= nonce@.subrange(0, i as int));
    }
    assert(r@ =~= nonce@);
    let mut j: usize = 0;
    while j < sealed.len()
        invariant
            j <= sealed@.len(),
            r@ == nonce@ + sealed@.subrange(0, j as int),
        decreases sealed@.len() - j,
    {
        r.push(sealed[j]);
        j += 1;
        assert(r@ =~= nonce@ + sealed@.subrange(0, j as int));
    }
    assert(r@ =~= nonce@ + sealed@);
    r
}

/// Copies `data[from..to]`.
fn copy_range(data: &Vec<u8>, from: usize, to: usize) -> (r: Vec<u8>)
    requires
        from <= to <= data@.len(),
    ensures
        r@ == data@.subrange(from as int, to as int),
{
    let mut r: Vec<u8> = Vec::with_capacity(to - from);
    let mut i: usize = from;
    while i < to
        invariant
            from <= i <= to <= data@.len(),
            r@ == data@.subrange(from as int, i as int),
        decreases to - i,
    {
        r.push(data[i]);
        i += 1;
        assert(r@ =~= data@.subrange(from as int, i as int));
    }
    r
}

/// Seals `user_id` under `key` with the given nonce. The token is the
/// base64 text of the nonce followed by the sealed identity, and it opens
/// under the same key to `user_id`.
pub fn seal_with_nonce(key: &Key, nonce: &Vec<u8>, user_id: UserId) -> (r: String)
    requires
        nonce@.len() == NONCE_LEN,
    ensures
        is_sealed(r@, key@, nonce@, user_id),
        opened(r@, key@) == Ok::<u64, TokenError>(user_id),
{
    let plain = id_to_bytes(user_id);
    let sealed = match aead_encrypt(key, nonce, &plain) {
        Some(sealed) => sealed,
        None => {
            proof {
                assert(false);
            }
            vstd::pervasive::unreached()
        },
    };
    let framed = frame_token(nonce, &sealed);
    let token = base64_encode(&framed);
    proof {
        lemma_sealed_opens(token@, key@, nonce@, user_id);
    }
    token
}

/// Seals `user_id` under `key` with a fresh random nonce. Whatever nonce
/// was drawn, the token opens under the same key to `user_id`.
pub fn id_to_encrypted_string(key: &Key, user_id: UserId) -> (r: String)
    ensures
        exists|nonce: Seq<u8>| is_sealed(r@, key@, nonce, user_id),
        opened(r@, key@) == Ok::<u64, TokenError>(user_id),
{
    let nonce = random_nonce();
    let token = seal_with_nonce(key, &nonce, user_id);
    assert(is_sealed(token@, key@, nonce@, user_id));
    token
}

/// Seals both members of the pair of `id`, the read member first, each with
/// its own nonce.
pub fn seal_pair(key: &Key, id: UserId, read_nonce: &Vec<u8>, write_nonce: &Vec<u8>) -> (r: [String; 2])
    requires
        read_nonce@.len() == NONCE_LEN,
        write_nonce@.len() == NONCE_LEN,
    ensures
        is_sealed(r[0]@, key@, read_nonce@, read_of(id)),
        is_sealed(r[1]@, key@, write_nonce@, write_of(id)),
        opened(r[0]@, key@) == Ok::<u64, TokenError>(read_of(id)),
        opened(r[1]@, key@) == Ok::<u64, TokenError>(write_of(id)),
{
    let read = seal_with_nonce(key, read_nonce, id.as_read_only());
    let write = seal_with_nonce(key, write_nonce, id.as_write_only());
    [read, write]
}

/// Mints a pair: draws a random identity and seals its read member and its
/// write member, in that order, each with a fresh nonce. Both tokens open
/// under `key`, the first to a read identity, the second to a write
/// identity, and the two share their base id.
pub fn create_keys(key: Key) -> (r: [String; 2])
    ensures
        opened(r[0]@, key@) matches Ok(read) && opened(r[1]@, key@) matches Ok(write) && is_read(
            read,
        ) && is_write(write) && base_of(read) == base_of(write) && read == write + 1,
{
    let id = random_u64();
    let read_nonce = random_nonce();
    let write_nonce = random_nonce();
    proof {
        lemma_roles_exclusive(id);
        lemma_pair_shares_base(id);
        lemma_pair_members(id);
    }
    seal_pair(&key, id, &read_nonce, &write_nonce)
}

/// Opens the decoded bytes of a token: fewer than a nonce and a tag are
/// malformed; then the first twelve bytes are the nonce and the rest is
/// decrypted; a tag that does not match is an authentication failure; and
/// the plaintext must be an identity.
pub fn open_bytes(data: &Vec<u8>, key: &Key) -> (r: Result<UserId, TokenError>)
    ensures
        r == opened_bytes(data@, key@),
{
    if data.len() < MIN_TOKEN_LEN {
        return Err(TokenError::MalformedToken);
    }
    let nonce = copy_range(data, 0, NONCE_LEN);
    let sealed = copy_range(data, NONCE_LEN, data.len());
    match aead_decrypt(key, &nonce, &sealed) {
        None => Err(TokenError::AuthenticationFailed),
        Some(plain) => identity_from_plaintext(&plain),
    }
}

/// Opens a token under `key` and returns the identity it holds, role flag
/// included.
pub fn decrypt_id(user_id: String, key: Key) -> (r: Result<UserId, TokenError>)
    ensures
        r == opened(user_id@, key@),
{
    match base64_decode(user_id.as_str()) {
        None => Err(TokenError::MalformedToken),
        Some(data) => open_bytes(&data, &key),
    }
}

/// The key made of the first sixteen bytes, if there are that many.
pub fn key_from_bytes(bytes: &Vec<u8>) -> (r: Option<Key>)
    ensures
        bytes@.len() < KEY_LEN ==> r is None,
        bytes@.len() >= KEY_LEN ==> r is Some && r.unwrap()@ == bytes@.subrange(0, KEY_LEN as int),
{
    if bytes.len() >= KEY_LEN {
        let key = Key {
            bytes: [
                bytes[0],
                bytes[1],
                bytes[2],
                bytes[3],
                bytes[4],
                bytes[5],
                bytes[6],
                bytes[7],
                bytes[8],
                bytes[9],
                bytes[10],
                bytes[11],
                bytes[12],
                bytes[13],
                bytes[14],
                bytes[15],
            ],
        };
        assert(key@ =~= bytes@.subrange(0, KEY_LEN as int));
        Some(key)
    } else {
        None
    }
}

/// Reads a stored key: the text is trimmed and decoded as padded URL-safe
/// base64; sixteen bytes or more give a key, their first sixteen.
pub fn key_from_text(text: &str) -> (r: Option<Key>)
    ensures
        match stored_key(text@) {
            Some(bytes) => r is Some && r.unwrap()@ == bytes,
            None => r is None,
        },
{
    let clean = trim(text);
    match base64_decode_padded(clean.as_str()) {
        Some(bytes) => key_from_bytes(&bytes),
        None => None,
    }
}

/// A fresh random key.
pub fn create_key() -> Key {
    random_key()
}

/// The process key: the stored one where a text was found and holds a key,
/// else a fresh random one. The flag says whether the key is fresh.
pub fn load_or_create_key(stored: Option<String>) -> (r: (Key, bool))
    ensures
        match stored {
            Some(text) => match stored_key(text@) {
                Some(bytes) => r.0@ == bytes && !r.1,
                None => r.1,
            },
            None => r.1,
        },
{
    let loaded = match stored {
        Some(text) => key_from_text(text.as_str()),
        None => None,
    };
    match loaded {
        Some(key) => (key, false),
        None => (create_key(), true),
    }
}

/// Encrypted transport is used exactly when both files are there.
pub fn tls_credentials(cert: PathBuf, key: PathBuf, cert_found: bool, key_found: bool) -> (r: Option<
    TlsCredentials,
>)
    ensures
        cert_found && key_found ==> (r matches Some(found) && found.cert == cert && found.key
            == key),
        !(cert_found && key_found) ==> r is None,
{
    if cert_found && key_found {
        Some(TlsCredentials { cert, key })
    } else {
        None
    }
}

/// The port to listen on: 8443 with encrypted transport, 8080 without.
pub fn listen_port(encrypted: bool) -> (r: u16)
    ensures
        r == (if encrypted {
            8443u16
        } else {
            8080u16
        }),
{
    if encrypted {
        8443
    } else {
        8080
    }
}

} // verus!
