//! The outbound payload and what it must hold.

use crate::cipher::{aes128_cbc_of, base64url_of, derived_key_of};
use crate::hex::hex_upper;
use crate::message::Message;
use vstd::prelude::*;

verus! {

/// SimplePush API payload. The caller serializes it under the field names
/// as written here; a field holding `None` must be left out of the
/// serialized form entirely, never written as null or as an empty string.
pub struct Payload {
    /// The simplepush.io key of the addressed device; always in the clear.
    pub key: String,
    /// Title of the message, absent when the message has none.
    pub title: Option<String>,
    /// Message body.
    pub msg: String,
    /// The event the message is associated with; always in the clear.
    pub event: Option<String>,
    /// Action labels, absent when the message has none.
    pub actions: Option<Vec<String>>,
    /// The string "true" when the sensitive fields are encrypted, absent
    /// otherwise.
    pub encrypted: Option<String>,
    /// The per-message IV as uppercase hex, absent in plaintext mode.
    pub iv: Option<String>,
}

/// Encryption failed in the cipher layer. The payload is abandoned whole:
/// no partially encrypted payload is ever produced.
#[derive(Debug)]
pub struct EncryptionFailed {
    /// The cipher-layer cause.
    pub cause: crypto::symmetriccipher::SymmetricCipherError,
}

/// The key under which an encrypting message's fields are enciphered:
/// derived from its password and salt.
pub open spec fn message_key(m: Message) -> Seq<u8>
    recommends
        m.password is Some,
        m.salt is Some,
{
    derived_key_of(m.password.unwrap()@, m.salt.unwrap()@)
}

/// How one encrypted field stands in the payload: the URL-safe base64
/// encoding of the AES-128-CBC ciphertext of the plaintext, under the
/// message's derived key and the given IV.
pub open spec fn field_encrypts_to(
    m: Message,
    iv: Seq<u8>,
    plaintext: Seq<char>,
    out: Seq<char>,
) -> bool {
    out == base64url_of(aes128_cbc_of(message_key(m), iv, plaintext))
}

/// The payload of a plaintext-mode message: `msg`, `title` and `actions`
/// pass through unchanged, `key` and `event` pass through, and the
/// encryption-only fields are absent.
pub open spec fn plaintext_payload_ok(m: Message, p: Payload) -> bool {
    &&& p.key@ == m.key@
    &&& p.msg@ == m.message@
    &&& p.title.deep_view() == m.title.deep_view()
    &&& p.event.deep_view() == m.event.deep_view()
    &&& p.actions.deep_view() == m.actions.deep_view()
    &&& p.encrypted is None
    &&& p.iv is None
}

/// The payload of an encrypted-mode message under the IV it was assembled
/// with: body, title and every action label are each encrypted as an
/// independent CBC stream under the one derived key and this one IV (a
/// known weakness of the scheme, kept for wire compatibility); `key` and
/// `event` pass through in the clear by design; `encrypted` holds the
/// string "true" and `iv` the uppercase hex encoding of the IV.
pub open spec fn encrypted_payload_ok(m: Message, iv: Seq<u8>, p: Payload) -> bool {
    &&& p.key@ == m.key@
    &&& p.event.deep_view() == m.event.deep_view()
    &&& field_encrypts_to(m, iv, m.message@, p.msg@)
    &&& match (m.title, p.title) {
        (Option::None, Option::None) => true,
        (Option::Some(t), Option::Some(c)) => field_encrypts_to(m, iv, t@, c@),
        _ => false,
    }
    &&& match (m.actions, p.actions) {
        (Option::None, Option::None) => true,
        (Option::Some(a), Option::Some(c)) => {
            &&& c@.len() == a@.len()
            &&& forall|i: int|
                0 <= i < a@.len() ==> field_encrypts_to(m, iv, a@[i]@, #[trigger] c@[i]@)
        },
        _ => false,
    }
    &&& p.encrypted matches Some(e) && e@ == "true"@
    &&& p.iv matches Some(h) && h@ == hex_upper(iv)
}

/// IV transport law: a 16-byte IV reaches the payload as exactly 32
/// characters, each an uppercase hexadecimal digit.
pub proof fn lemma_iv_transport_shape(m: Message, iv: Seq<u8>, p: Payload)
    requires
        encrypted_payload_ok(m, iv, p),
        iv.len() == 16,
    ensures
        p.iv matches Some(h) && h@.len() == 32 && forall|i: int|
            0 <= i < 32 ==> crate::hex::is_upper_hex_char(#[trigger] h@[i]),
{
    crate::hex::lemma_hex_upper_shape(iv);
}

/// Omitted-field law, plaintext mode: a field with no value in the message
/// has no value in the payload — it is absent, not empty — and the
/// encryption-only fields are always absent.
pub proof fn lemma_omitted_fields_plaintext(m: Message, p: Payload)
    requires
        plaintext_payload_ok(m, p),
    ensures
        p.title is None <==> m.title is None,
        p.event is None <==> m.event is None,
        p.actions is None <==> m.actions is None,
        p.encrypted is None,
        p.iv is None,
{
}

/// Omitted-field law, encrypted mode: `title` and `actions` stand in the
/// payload exactly when the message has them, `event` passes through, and
/// the encryption marker and the IV are always present.
pub proof fn lemma_omitted_fields_encrypted(m: Message, iv: Seq<u8>, p: Payload)
    requires
        encrypted_payload_ok(m, iv, p),
    ensures
        p.title is None <==> m.title is None,
        p.event is None <==> m.event is None,
        p.actions is None <==> m.actions is None,
        p.encrypted is Some,
        p.iv is Some,
{
}

} // verus!
