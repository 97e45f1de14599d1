//! The key-derivation primitive: two domain-separated HMAC-SHA256 transforms
//! over a 32-byte chain secret. The tag `0x01` yields per-message key
//! material, the tag `0x02` yields the successor chain secret.

use vstd::prelude::*;

verus! {

/// Domain-separation tag under which per-message key material is derived.
pub const MESSAGE_KEY_TAG: u8 = 0x01;

/// Domain-separation tag under which the successor chain secret is derived.
pub const ADVANCEMENT_TAG: u8 = 0x02;

/// The HMAC-SHA256 of `data` keyed by `key`: a 32-byte value determined by
/// the key and the data alone.
pub uninterp spec fn hmac_sha256_of(key: Seq<u8>, data: Seq<u8>) -> Seq<u8>;

/// What `derive_message_material` returns for a given chain secret.
pub open spec fn message_material_of(secret: Seq<u8>) -> Seq<u8> {
    hmac_sha256_of(secret, seq![MESSAGE_KEY_TAG])
}

/// What `derive_next_secret` returns for a given chain secret.
pub open spec fn next_secret_of(secret: Seq<u8>) -> Seq<u8> {
    hmac_sha256_of(secret, seq![ADVANCEMENT_TAG])
}

/// Relies on `hmac::Hmac::<sha2::Sha256>` (`new_from_slice`, `update`,
/// `finalize`): computes HMAC-SHA256 of the one-byte message `[tag]` keyed by
/// `key`. The output is 32 bytes and depends on the key and the message
/// alone. An HMAC accepts keys of any length, so `new_from_slice` cannot fail
/// on a 32-byte key.
#[verifier::external_body]
fn hmac_sha256_tag(key: &[u8; 32], tag: u8) -> (out: [u8; 32])
    ensures
        out@ == hmac_sha256_of(key@, seq![tag]),
{
    let mut mac = <hmac::Hmac<sha2::Sha256> as hmac::Mac>::new_from_slice(key)
        .expect("an HMAC key of 32 bytes is always accepted");
    hmac::Mac::update(&mut mac, &[tag]);
    let digest = hmac::Mac::finalize(mac).into_bytes();
    let mut out = [0u8; 32];
    out.copy_from_slice(digest.as_slice());
    out
}

/// Derives the per-message key material for the current chain position:
/// the MAC of the secret under the message-key tag.
pub fn derive_message_material(secret: &[u8; 32]) -> (material: [u8; 32])
    ensures
        material@ == message_material_of(secret@),
{
    hmac_sha256_tag(secret, MESSAGE_KEY_TAG)
}

/// Derives the successor chain secret: the MAC of the secret under the
/// advancement tag.
pub fn derive_next_secret(secret: &[u8; 32]) -> (next: [u8; 32])
    ensures
        next@ == next_secret_of(secret@),
{
    hmac_sha256_tag(secret, ADVANCEMENT_TAG)
}

} // verus!
