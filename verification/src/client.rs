//! Validation and payload assembly for the simplepush.io API.

use crate::cipher::{aes128_cbc_of, base64url_of, derive_key, encrypt_field, random_iv};
use crate::hex::{hex_digit, hex_upper, lemma_hex_upper_concat, lemma_hex_upper_shape, push_char};
use crate::message::Message;
use crate::payload::{
    encrypted_payload_ok, plaintext_payload_ok, EncryptionFailed, Payload,
};
use vstd::prelude::*;
use vstd::string::StringExecFns;

verus! {

/// A message without a key: rejected before anything else runs.
pub open spec fn key_missing(m: Message) -> bool {
    m.key@.len() == 0
}

/// A message with neither a title nor a body: nothing to deliver.
pub open spec fn content_missing(m: Message) -> bool {
    m.title is None && m.message@.len() == 0
}

/// A message whose encryption cannot proceed: encryption is asked for, but
/// the password is missing or empty. A password only matters when the
/// message encrypts.
pub open spec fn password_missing(m: Message) -> bool {
    m.encrypt && (m.password is None || (m.password matches Some(p) && p@.len() == 0))
}

/// A client for the simplepush.io API
pub struct SimplePush;

impl SimplePush {
    /// Encode bytes as uppercase hex, two digits per byte, in byte order.
    pub fn hexify(bytes: Vec<u8>) -> (r: String)
        ensures
            r@ == hex_upper(bytes@),
            r@.len() == 2 * bytes@.len(),
    {
        let mut out = String::new();
        let mut i: usize = 0;
        while i < bytes.len()
            invariant
                i <= bytes@.len(),
                out@ == hex_upper(bytes@.take(i as int)),
            decreases bytes@.len() - i,
        {
            let b = bytes[i];
            let hi: u8 = b / 16;
            let lo: u8 = b % 16;
            push_char(&mut out, if hi < 10 { (hi + 48) as char } else { (hi + 55) as char });
            push_char(&mut out, if lo < 10 { (lo + 48) as char } else { (lo + 55) as char });
            proof {
                let prefix = bytes@.take(i as int);
                let one = seq![bytes@[i as int]];
                assert(bytes@.take(i as int + 1) =~= prefix + one);
                lemma_hex_upper_concat(prefix, one);
                assert(one.drop_first() =~= Seq::<u8>::empty());
                assert(hex_upper(Seq::<u8>::empty()) =~= Seq::<char>::empty());
                assert(hex_upper(one) =~= seq![hex_digit(hi), hex_digit(lo)]);
                assert(out@ =~= hex_upper(bytes@.take(i as int + 1)));
            }
            i += 1;
        }
        proof {
            assert(bytes@.take(bytes@.len() as int) =~= bytes@);
            lemma_hex_upper_shape(bytes@);
        }
        out
    }

    /// Reject a message the API could not take: no key, no content, or
    /// encryption asked for with a missing or empty password. Exactly the
    /// first failing check, in this order, names the error.
    pub fn validate(message: &Message) -> (r: Result<(), String>)
        ensures
            r is Ok <==> !key_missing(*message) && !content_missing(*message)
                && !password_missing(*message),
            key_missing(*message) ==> (r matches Err(e) && e@ == "key is required"@),
            !key_missing(*message) && content_missing(*message) ==> (r matches Err(e) && e@
                == "a message or title is required"@),
            !key_missing(*message) && !content_missing(*message) && password_missing(*message)
                ==> (r matches Err(e) && e@ == "password is required for encryption"@),
    {
        if message.key.as_str().is_empty() {
            return Err(String::from_str("key is required"));
        }
        if message.title.is_none() && message.message.as_str().is_empty() {
            return Err(String::from_str("a message or title is required"));
        }
        let password_empty = match &message.password {
            Some(p) => p.as_str().is_empty(),
            None => false,
        };
        if message.encrypt && (message.password.is_none() || password_empty) {
            return Err(String::from_str("password is required for encryption"));
        }
        Ok(())
    }

    /// Turn a validated message into the outbound payload.
    ///
    /// In plaintext mode every field passes through unchanged and the
    /// encryption-only fields are absent. In encrypted mode the key is
    /// derived from the password and salt, one fresh 16-byte IV is drawn,
    /// and body, title and every action label are encrypted under that one
    /// key and IV. The error result is the typed channel for a
    /// cipher-layer failure, which would abandon the payload whole; on the
    /// 16-byte key and IV used here the encryptor cannot fail, so the
    /// payload is owed in both modes.
    pub fn process_message(message: &Message) -> (r: Result<Payload, EncryptionFailed>)
        requires
            message.encryption_inputs_present(),
        ensures
            !message.encrypt ==> (r matches Ok(p) && plaintext_payload_ok(*message, p)),
            message.encrypt ==> (r matches Ok(p) && exists|iv: Seq<u8>|
                iv.len() == 16 && #[trigger] encrypted_payload_ok(*message, iv, p)),
    {
        if message.encrypt {
            let password = message.password.as_ref().unwrap();
            let salt = message.salt.as_ref().unwrap();
            let key = derive_key(password.as_str(), salt.as_str());
            let iv = random_iv();
            let ghost iv_spec = iv@;
            let msg = match encrypt_field(&key, &iv, message.message.as_str()) {
                Ok(s) => s,
                Err(e) => return Err(EncryptionFailed { cause: e }),
            };
            let title = match &message.title {
                Some(t) => match encrypt_field(&key, &iv, t.as_str()) {
                    Ok(s) => Some(s),
                    Err(e) => return Err(EncryptionFailed { cause: e }),
                },
                None => None,
            };
            let actions = match &message.actions {
                Some(list) => {
                    let mut out: Vec<String> = Vec::new();
                    let mut i: usize = 0;
                    while i < list.len()
                        invariant
                            message.encrypt,
                            i <= list@.len(),
                            out@.len() == i,
                            key@.len() == 16,
                            iv@.len() == 16,
                            forall|j: int|
                                0 <= j < i as int ==> #[trigger] out@[j]@ == base64url_of(
                                    aes128_cbc_of(key@, iv@, list@[j]@),
                                ),
                        decreases list@.len() - i,
                    {
                        let ghost prev = out@;
                        match encrypt_field(&key, &iv, list[i].as_str()) {
                            Ok(s) => out.push(s),
                            Err(e) => return Err(EncryptionFailed { cause: e }),
                        }
                        proof {
                            assert forall|j: int|
                                0 <= j < i as int + 1 implies #[trigger] out@[j]@
                                == base64url_of(aes128_cbc_of(key@, iv@, list@[j]@)) by {
                                if j < i as int {
                                    assert(out@[j] == prev[j]);
                                }
                            }
                        }
                        i += 1;
                    }
                    Some(out)
                },
                None => None,
            };
            let p = Payload {
                key: message.key.clone(),
                title,
                msg,
                event: clone_opt_string(&message.event),
                actions,
                encrypted: Some(String::from_str("true")),
                iv: Some(Self::hexify(iv)),
            };
            proof {
                assert(encrypted_payload_ok(*message, iv_spec, p));
            }
            Ok(p)
        } else {
            Ok(
                Payload {
                    key: message.key.clone(),
                    title: clone_opt_string(&message.title),
                    msg: message.message.clone(),
                    event: clone_opt_string(&message.event),
                    actions: clone_opt_vec_string(&message.actions),
                    encrypted: None,
                    iv: None,
                },
            )
        }
    }
}

fn clone_opt_string(o: &Option<String>) -> (r: Option<String>)
    ensures
        r == *o,
{
    match o {
        Some(s) => Some(s.clone()),
        None => None,
    }
}

fn clone_opt_vec_string(o: &Option<Vec<String>>) -> (r: Option<Vec<String>>)
    ensures
        r.deep_view() == o.deep_view(),
{
    match o {
        Some(v) => {
            let mut out: Vec<String> = Vec::new();
            let mut i: usize = 0;
            while i < v.len()
                invariant
                    i <= v@.len(),
                    out@.len() == i,
                    forall|j: int| 0 <= j < i as int ==> #[trigger] out@[j]@ == v@[j]@,
                decreases v@.len() - i,
            {
                let ghost prev = out@;
                out.push(v[i].clone());
                proof {
                    assert forall|j: int|
                        0 <= j < i as int + 1 implies #[trigger] out@[j]@ == v@[j]@ by {
                        if j < i as int {
                            assert(out@[j] == prev[j]);
                        }
                    }
                }
                i += 1;
            }
            proof {
                assert(out.deep_view() =~~= v.deep_view());
            }
            Some(out)
        },
        None => None,
    }
}

} // verus!
