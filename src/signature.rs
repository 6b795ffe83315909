use base64::Engine;
use hmac::Mac;
use vstd::prelude::*;
use vstd::string::StringSliceAdditionalSpecFns;

verus! {

/// The HMAC-SHA256 tag of `msg` under `key`.
pub uninterp spec fn hmac_sha256_of(key: Seq<u8>, msg: Seq<u8>) -> Seq<u8>;

/// The padded, standard-alphabet base64 text of `bytes`.
pub uninterp spec fn base64_of(bytes: Seq<u8>) -> Seq<char>;

/// The bytes that `text` stands for as padded, standard-alphabet base64, if it is such text.
pub uninterp spec fn base64_decoded(text: Seq<char>) -> Option<Seq<u8>>;

/// Relies on hmac's `Hmac<Sha256>` (`new_from_slice`, `update`, `finalize`): the
/// 32-byte HMAC-SHA256 tag. `new_from_slice` accepts a key of any length.
#[verifier::external_body]
fn hmac_sha256(key: &[u8], msg: &[u8]) -> (r: Vec<u8>)
    ensures
        r@ == hmac_sha256_of(key@, msg@),
        r@.len() == 32,
{
    let mut mac = hmac::Hmac::<sha2::Sha256>::new_from_slice(key).expect("any key length");
    mac.update(msg);
    mac.finalize().into_bytes().to_vec()
}

/// Relies on hmac's `Mac::verify_slice`: a constant-time comparison that succeeds
/// exactly when `tag` equals the HMAC-SHA256 tag of `msg` under `key`.
#[verifier::external_body]
fn hmac_sha256_matches(key: &[u8], msg: &[u8], tag: &[u8]) -> (r: bool)
    ensures
        r == (tag@ == hmac_sha256_of(key@, msg@)),
{
    let mut mac = hmac::Hmac::<sha2::Sha256>::new_from_slice(key).expect("any key length");
    mac.update(msg);
    mac.verify_slice(tag).is_ok()
}

/// Relies on base64's `STANDARD.encode`: padded standard base64, which
/// `STANDARD.decode` turns back into the same bytes. The length bound keeps
/// the output size computation clear of its overflow panic.
#[verifier::external_body]
fn base64_encode(bytes: &[u8]) -> (r: String)
    requires
        bytes@.len() <= 1024,
    ensures
        r@ == base64_of(bytes@),
        base64_decoded(r@) == Some(bytes@),
{
    base64::engine::general_purpose::STANDARD.encode(bytes)
}

/// Relies on base64's `STANDARD.decode`: the bytes of padded standard base64
/// text, or an error for any other text.
#[verifier::external_body]
fn base64_decode(text: &str) -> (r: Option<Vec<u8>>)
    ensures
        match r {
            Some(v) => base64_decoded(text@) == Some(v@),
            None => base64_decoded(text@) is None,
        },
{
    base64::engine::general_purpose::STANDARD.decode(text).ok()
}

/// A signature is valid for a body when it is base64 text of the body's
/// HMAC-SHA256 tag under the secret's UTF-8 bytes.
pub open spec fn signature_valid(secret: Seq<u8>, signature: Seq<char>, body: Seq<u8>) -> bool {
    base64_decoded(signature) == Some(hmac_sha256_of(secret, body))
}

/// The signature that the platform sends with `body`: base64 of its HMAC-SHA256
/// tag under `secret`. Every signature made here verifies against the same
/// secret and body.
pub fn sign(secret: &str, body: &[u8]) -> (r: String)
    ensures
        r@ == base64_of(hmac_sha256_of(secret.spec_bytes(), body@)),
        signature_valid(secret.spec_bytes(), r@, body@),
{
    let tag = hmac_sha256(secret.as_bytes(), body);
    base64_encode(tag.as_slice())
}

/// Checks a signature header against the raw body. Text that is not base64
/// gives `false`; the tag comparison takes time independent of where it differs.
pub fn verify(secret: &str, signature: &str, body: &[u8]) -> (r: bool)
    ensures
        r == signature_valid(secret.spec_bytes(), signature@, body@),
{
    match base64_decode(signature) {
        Some(tag) => hmac_sha256_matches(secret.as_bytes(), body, tag.as_slice()),
        None => false,
    }
}

} // verus!
