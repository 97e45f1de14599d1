//! The values a chain ratchet consumes and produces: the sender's ratchet
//! public key, and the one-time message keys handed to the encryption layer.

use vstd::prelude::*;

verus! {

/// The sender's currently-active Diffie-Hellman ratchet public key, carried
/// as its 32-byte encoding. This layer never performs key agreement with it;
/// a sending chain only attaches a copy to each derived message key so the
/// session layer can tell which asymmetric ratchet epoch a message belongs
/// to.
#[derive(Clone, Copy)]
pub struct RatchetPublicKey {
    bytes: [u8; 32],
}

impl View for RatchetPublicKey {
    type V = Seq<u8>;

    closed spec fn view(&self) -> Seq<u8> {
        self.bytes@
    }
}

impl RatchetPublicKey {
    pub fn from_bytes(bytes: [u8; 32]) -> (key: Self)
        ensures
            key@ == bytes@,
    {
        Self { bytes }
    }

    pub fn to_bytes(&self) -> (bytes: [u8; 32])
        ensures
            bytes@ == self@,
    {
        self.bytes
    }
}

/// A one-time message key produced by a sending chain: 32 bytes of key
/// material, bound to the ratchet public key that was active when it was
/// derived, and stamped with the chain position it was derived at.
pub struct MessageKey {
    key: [u8; 32],
    ratchet_key: RatchetPublicKey,
    index: u64,
}

impl MessageKey {
    /// The 32 bytes of key material.
    pub closed spec fn spec_key_material(&self) -> Seq<u8> {
        self.key@
    }

    /// The ratchet public key the material is bound to.
    pub closed spec fn spec_ratchet_key(&self) -> RatchetPublicKey {
        self.ratchet_key
    }

    /// The chain position the material was derived at.
    pub closed spec fn spec_index(&self) -> u64 {
        self.index
    }

    pub fn new(key: [u8; 32], ratchet_key: RatchetPublicKey, index: u64) -> (message_key: Self)
        ensures
            message_key.spec_key_material() == key@,
            message_key.spec_ratchet_key() == ratchet_key,
            message_key.spec_index() == index,
    {
        Self { key, ratchet_key, index }
    }

    pub fn key_material(&self) -> (key: [u8; 32])
        ensures
            key@ == self.spec_key_material(),
    {
        self.key
    }

    pub fn ratchet_key(&self) -> (ratchet_key: RatchetPublicKey)
        ensures
            ratchet_key == self.spec_ratchet_key(),
    {
        self.ratchet_key
    }

    pub fn index(&self) -> (index: u64)
        ensures
            index == self.spec_index(),
    {
        self.index
    }
}

impl Drop for MessageKey {
    /// Relies on `zeroize::Zeroize::zeroize` for `[u8; N]`: erases the key
    /// material by overwriting it with zero when the message key goes out of
    /// use.
    #[verifier::external_body]
    fn drop(&mut self)
        opens_invariants none
        no_unwind
    {
        zeroize::Zeroize::zeroize(&mut self.key);
    }
}

/// A one-time message key produced by a receiving chain. It carries no
/// ratchet public key: on the receiving side that key is already known from
/// the inbound message header before derivation is invoked.
pub struct RemoteMessageKey {
    key: [u8; 32],
    index: u64,
}

impl RemoteMessageKey {
    /// The 32 bytes of key material.
    pub closed spec fn spec_key_material(&self) -> Seq<u8> {
        self.key@
    }

    /// The chain position the material was derived at.
    pub closed spec fn spec_index(&self) -> u64 {
        self.index
    }

    pub fn new(key: [u8; 32], index: u64) -> (message_key: Self)
        ensures
            message_key.spec_key_material() == key@,
            message_key.spec_index() == index,
    {
        Self { key, index }
    }

    pub fn key_material(&self) -> (key: [u8; 32])
        ensures
            key@ == self.spec_key_material(),
    {
        self.key
    }

    pub fn index(&self) -> (index: u64)
        ensures
            index == self.spec_index(),
    {
        self.index
    }
}

impl Drop for RemoteMessageKey {
    /// Relies on `zeroize::Zeroize::zeroize` for `[u8; N]`: erases the key
    /// material by overwriting it with zero when the message key goes out of
    /// use.
    #[verifier::external_body]
    fn drop(&mut self)
        opens_invariants none
        no_unwind
    {
        zeroize::Zeroize::zeroize(&mut self.key);
    }
}

} // verus!
