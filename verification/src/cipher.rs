//! Key derivation, field encryption and transport encoding.
//!
//! The hash, the block cipher, the random source and the base64 encoder
//! come from outside crates; each is reached through one wrapper whose
//! contract states what that crate's source shows, and everything around
//! the wrappers is verified.

use base64::Engine;
use crypto::buffer::{BufferResult, ReadBuffer, WriteBuffer};
use crypto::{aes, blockmodes};
use crypto::digest::Digest;
use rand::Rng;
use vstd::prelude::*;
use vstd::string::StringExecFns;
use vstd::utf8::encode_utf8;

verus! {

/// The SHA-1 digest of a piece of text: named rather than written out, and
/// tied to what `crypto::sha1::Sha1` computes by the wrapper below.
pub uninterp spec fn sha1_of(text: Seq<char>) -> Seq<u8>;

/// The AES-128-CBC ciphertext (PKCS padding) of a plaintext under a key and
/// IV: named rather than written out, and tied to what
/// `crypto::aes::cbc_encryptor` computes by the wrapper below.
pub uninterp spec fn aes128_cbc_of(key: Seq<u8>, iv: Seq<u8>, plaintext: Seq<char>) -> Seq<u8>;

/// The padded URL-safe base64 encoding of a byte sequence: named rather
/// than written out, and tied to base64's `URL_SAFE` engine by the wrapper
/// below.
pub uninterp spec fn base64url_of(bytes: Seq<u8>) -> Seq<char>;

/// How many ciphertext bytes a plaintext of `n` bytes becomes: PKCS
/// padding rounds a non-empty input up to the next full 16-byte block,
/// while an empty input stays empty — the engine emits no padding block
/// for it.
pub open spec fn padded_len(n: nat) -> nat {
    if n == 0 {
        0
    } else {
        16 * (n / 16 + 1)
    }
}

/// crypto's cipher-layer error. It is carried outward but never inspected.
#[verifier::external_type_specification]
#[verifier::external_body]
pub struct ExSymmetricCipherError(crypto::symmetriccipher::SymmetricCipherError);

/// Relies on `crypto::sha1::Sha1` through `crypto::digest::Digest`: a
/// single-pass hash whose 20-byte digest depends on the input text alone.
#[verifier::external_body]
fn sha1_digest(text: &str) -> (r: Vec<u8>)
    ensures
        r@ == sha1_of(text@),
        r@.len() == 20,
{
    let mut hasher = crypto::sha1::Sha1::new();
    hasher.input_str(text);
    let mut digest = [0u8; 20];
    hasher.result(&mut digest);
    digest.to_vec()
}

/// Relies on `rand::rngs::OsRng` through `rand::Rng::fill`: 16 bytes from
/// the operating system's secure random source. Nothing is assumed of
/// their values, only of their number.
#[verifier::external_body]
pub(crate) fn random_iv() -> (r: Vec<u8>)
    ensures
        r@.len() == 16,
{
    let mut iv = [0u8; 16];
    rand::rngs::OsRng.fill(&mut iv[..]);
    iv.to_vec()
}

/// Relies on `crypto::aes::cbc_encryptor` with `KeySize128` and
/// `PkcsPadding`: the ciphertext depends on the key, the IV and the
/// plaintext bytes alone. PKCS padding takes a non-empty plaintext's
/// UTF-8 bytes to the next full 16-byte block; a zero-length plaintext
/// passes straight through to a zero-length ciphertext, with no padding
/// block — a quirk of this engine's state machine, stated as its source
/// shows it. Both lengths are required at 16: the underlying key setup
/// panics on any other key length. On such a key and IV the encrypt path
/// cannot fail — the encryptor's error states are reachable only when
/// decrypting — so the call returns `Ok`.
#[verifier::external_body]
fn aes128_cbc_encrypt(key: &Vec<u8>, iv: &Vec<u8>, plaintext: &str) -> (r: Result<
    Vec<u8>,
    crypto::symmetriccipher::SymmetricCipherError,
>)
    requires
        key@.len() == 16,
        iv@.len() == 16,
    ensures
        r is Ok,
        r matches Ok(c) ==> c@ == aes128_cbc_of(key@, iv@, plaintext@),
        r matches Ok(c) ==> c@.len() == padded_len(encode_utf8(plaintext@).len()),
{
    let mut enc = aes::cbc_encryptor(aes::KeySize::KeySize128, key, iv, blockmodes::PkcsPadding);
    let mut out = Vec::<u8>::new();
    let mut read_buffer = crypto::buffer::RefReadBuffer::new(plaintext.as_bytes());
    let mut buffer = [0u8; 4096];
    let mut write_buffer = crypto::buffer::RefWriteBuffer::new(&mut buffer);
    loop {
        let result = enc.encrypt(&mut read_buffer, &mut write_buffer, true)?;
        out.extend(write_buffer.take_read_buffer().take_remaining().iter().copied());
        if let BufferResult::BufferUnderflow = result {
            return Ok(out);
        }
    }
}

/// Relies on base64's `URL_SAFE` engine: padded base64 over the URL-safe
/// alphabet, a function of the input bytes alone, spending four characters
/// (padding retained) on every started group of three bytes.
#[verifier::external_body]
fn base64url_encode(bytes: &Vec<u8>) -> (r: String)
    ensures
        r@ == base64url_of(bytes@),
        r@.len() == 4 * ((bytes@.len() + 2) / 3),
{
    base64::engine::general_purpose::URL_SAFE.encode(bytes)
}

/// The symmetric key a password and salt derive: the first 16 bytes of the
/// SHA-1 digest of `password || salt`, concatenated in that order with no
/// separator. This is a bare hash, not a password-based KDF; it is kept as
/// it stands for compatibility with keys already deployed.
pub open spec fn derived_key_of(password: Seq<char>, salt: Seq<char>) -> Seq<u8> {
    sha1_of(password + salt).take(16)
}

/// Derive the AES-128 key for a password and salt: hash the concatenation
/// and keep the first 16 bytes; the trailing bytes of the digest are a side
/// effect of the hash's fixed output size and are discarded.
pub fn derive_key(password: &str, salt: &str) -> (r: Vec<u8>)
    ensures
        r@ == derived_key_of(password@, salt@),
        r@.len() == 16,
{
    let joined = String::from_str(password).concat(salt);
    let mut digest = sha1_digest(joined.as_str());
    digest.truncate(16);
    proof {
        assert(digest@ =~= derived_key_of(password@, salt@));
    }
    digest
}

/// The length of one encrypted, encoded field: the PKCS-padded ciphertext
/// length of the plaintext's UTF-8 bytes, with padded base64 spending four
/// characters on every started group of three bytes.
pub open spec fn encoded_field_len(plaintext: Seq<char>) -> nat {
    4 * ((padded_len(encode_utf8(plaintext).len()) + 2) / 3)
}

/// Encrypt one plaintext field under the message's key and IV and encode
/// the ciphertext for transport. Whole plaintext in, whole ciphertext
/// string out; on a 16-byte key and IV this never fails.
pub fn encrypt_field(key: &Vec<u8>, iv: &Vec<u8>, plaintext: &str) -> (r: Result<
    String,
    crypto::symmetriccipher::SymmetricCipherError,
>)
    requires
        key@.len() == 16,
        iv@.len() == 16,
    ensures
        r is Ok,
        r matches Ok(s) ==> s@ == base64url_of(aes128_cbc_of(key@, iv@, plaintext@)),
        r matches Ok(s) ==> s@.len() == encoded_field_len(plaintext@),
{
    match aes128_cbc_encrypt(key, iv, plaintext) {
        Ok(cipherbytes) => Ok(base64url_encode(&cipherbytes)),
        Err(e) => Err(e),
    }
}

/// Key derivation is deterministic: one (password, salt) pair yields one
/// key, for nothing besides the pair enters the derivation.
pub proof fn lemma_key_derivation_deterministic(
    password_a: Seq<char>,
    salt_a: Seq<char>,
    password_b: Seq<char>,
    salt_b: Seq<char>,
)
    requires
        password_a == password_b,
        salt_a == salt_b,
    ensures
        derived_key_of(password_a, salt_a) == derived_key_of(password_b, salt_b),
{
}

} // verus!
