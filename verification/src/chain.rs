//! The chain ratchet itself: a live 32-byte secret and a monotonically
//! increasing position. Deriving a message key always also replaces the
//! secret with its successor, so the two are never observable apart, and a
//! later chain state never reveals an earlier message key.

use vstd::prelude::*;

use crate::kdf::{message_material_of, next_secret_of};
use crate::kdf::{derive_message_material, derive_next_secret};
use crate::keys::{MessageKey, RatchetPublicKey, RemoteMessageKey};

verus! {

/// The chain secret that a chain seeded with `seed` holds after `n`
/// advancements.
pub open spec fn secret_after(seed: Seq<u8>, n: nat) -> Seq<u8>
    decreases n,
{
    if n == 0 {
        seed
    } else {
        next_secret_of(secret_after(seed, (n - 1) as nat))
    }
}

/// The engine both chain roles share: the live secret, the chain position,
/// and a ghost record of the seed and position the chain was constructed
/// with, against which well-formedness is stated.
struct ChainState {
    key: [u8; 32],
    index: u64,
    origin_seed: Ghost<Seq<u8>>,
    origin_index: Ghost<u64>,
}

impl ChainState {
    spec fn wf(&self) -> bool {
        &&& self.origin_index@ <= self.index
        &&& self.key@ == secret_after(self.origin_seed@, (self.index - self.origin_index@) as nat)
    }

    fn new(bytes: [u8; 32], index: u64) -> (state: Self)
        ensures
            state.wf(),
            state.key@ == bytes@,
            state.index == index,
            state.origin_seed@ == bytes@,
            state.origin_index@ == index,
    {
        let state = Self {
            key: bytes,
            index,
            origin_seed: Ghost(bytes@),
            origin_index: Ghost(index),
        };
        proof {
            assert(secret_after(bytes@, 0) == bytes@);
        }
        state
    }

    fn advance(&mut self)
        requires
            old(self).index < u64::MAX,
        ensures
            final(self).key@ == next_secret_of(old(self).key@),
            final(self).index == old(self).index + 1,
            final(self).origin_seed@ == old(self).origin_seed@,
            final(self).origin_index@ == old(self).origin_index@,
            old(self).wf() ==> final(self).wf(),
    {
        let next = derive_next_secret(&self.key);
        self.key = next;
        self.index = self.index + 1;
        proof {
            if old(self).wf() {
                let seed = old(self).origin_seed@;
                let steps = (old(self).index - old(self).origin_index@) as nat;
                assert(secret_after(seed, steps + 1)
                    == next_secret_of(secret_after(seed, steps)));
                assert((self.index - self.origin_index@) as nat == steps + 1);
            }
        }
    }

    fn expand(&self) -> (material: [u8; 32])
        ensures
            material@ == message_material_of(self.key@),
    {
        derive_message_material(&self.key)
    }
}

impl Drop for ChainState {
    /// Relies on `zeroize::Zeroize::zeroize` for `[u8; N]`: erases the live
    /// secret by overwriting it with zero when the chain state goes out of
    /// use.
    #[verifier::external_body]
    fn drop(&mut self)
        opens_invariants none
        no_unwind
    {
        zeroize::Zeroize::zeroize(&mut self.key);
    }
}

/// A sending chain: owns the local chain secret and position, and on each
/// derivation binds the produced message key to the caller-supplied ratchet
/// public key.
pub struct ChainKey {
    state: ChainState,
}

impl ChainKey {
    /// The live chain secret.
    pub closed spec fn secret(&self) -> Seq<u8> {
        self.state.key@
    }

    /// The chain position: how many message keys the next derivation is
    /// preceded by.
    pub closed spec fn spec_index(&self) -> u64 {
        self.state.index
    }

    /// The seed this chain was constructed from.
    pub closed spec fn origin_seed(&self) -> Seq<u8> {
        self.state.origin_seed@
    }

    /// The position this chain was constructed at: 0 for `new`, the given
    /// index for `from_bytes_and_index`.
    pub closed spec fn origin_index(&self) -> u64 {
        self.state.origin_index@
    }

    /// Well-formed: the live secret is the construction seed advanced
    /// exactly as many times as the position has moved since construction,
    /// so it is a function of the seed and the position alone.
    pub open spec fn wf(&self) -> bool {
        &&& self.origin_index() <= self.spec_index()
        &&& self.secret() == secret_after(
            self.origin_seed(),
            (self.spec_index() - self.origin_index()) as nat,
        )
    }

    /// Starts a fresh chain at position 0 on the given seed. The seed comes
    /// from the session layer's Diffie-Hellman ratchet step; no validation
    /// beyond its fixed size applies.
    pub fn new(bytes: [u8; 32]) -> (chain: Self)
        ensures
            chain.wf(),
            chain.secret() == bytes@,
            chain.spec_index() == 0,
            chain.origin_seed() == bytes@,
            chain.origin_index() == 0,
    {
        Self { state: ChainState::new(bytes, 0) }
    }

    /// Reconstructs a mid-chain state for persistence or resume. The caller
    /// guarantees the pairing of secret and index came from a previously
    /// valid state; no cryptographic validation of that pairing is possible
    /// here.
    pub fn from_bytes_and_index(bytes: [u8; 32], index: u32) -> (chain: Self)
        ensures
            chain.wf(),
            chain.secret() == bytes@,
            chain.spec_index() == index as u64,
            chain.origin_seed() == bytes@,
            chain.origin_index() == index as u64,
    {
        Self { state: ChainState::new(bytes, index as u64) }
    }

    /// The current chain position.
    pub fn chain_index(&self) -> (index: u64)
        ensures
            index == self.spec_index(),
    {
        self.state.index
    }

    /// Replaces the live secret with its successor and moves the position
    /// forward by one. The old secret is gone: nothing recovers it from the
    /// new state.
    pub fn advance(&mut self)
        requires
            old(self).spec_index() < u64::MAX,
        ensures
            final(self).secret() == next_secret_of(old(self).secret()),
            final(self).spec_index() == old(self).spec_index() + 1,
            final(self).origin_seed() == old(self).origin_seed(),
            final(self).origin_index() == old(self).origin_index(),
            old(self).wf() ==> final(self).wf(),
    {
        self.state.advance();
    }

    /// Derives the message key for the current position, bound to the given
    /// ratchet public key and stamped with the position before advancement,
    /// then advances the chain. Derivation and advancement are one step: no
    /// caller observes a state where one has happened without the other.
    pub fn create_message_key(&mut self, ratchet_key: RatchetPublicKey) -> (message_key:
        MessageKey)
        requires
            old(self).spec_index() < u64::MAX,
        ensures
            message_key.spec_key_material() == message_material_of(old(self).secret()),
            message_key.spec_ratchet_key() == ratchet_key,
            message_key.spec_index() == old(self).spec_index(),
            final(self).secret() == next_secret_of(old(self).secret()),
            final(self).spec_index() == old(self).spec_index() + 1,
            final(self).origin_seed() == old(self).origin_seed(),
            final(self).origin_index() == old(self).origin_index(),
            old(self).wf() ==> final(self).wf(),
    {
        let key = self.state.expand();
        let message_key = MessageKey::new(key, ratchet_key, self.state.index);
        self.state.advance();
        message_key
    }

    /// The persistence view of this chain: the live secret and the position.
    /// This is the one sanctioned copy of the secret out of the chain; the
    /// caller owes the copy storage-level protection.
    pub fn to_parts(&self) -> (parts: ([u8; 32], u64))
        ensures
            parts.0@ == self.secret(),
            parts.1 == self.spec_index(),
    {
        (self.state.key, self.state.index)
    }
}

/// A receiving chain: the mirror of `ChainKey`, except that a derived
/// message key carries no ratchet public key, because on the receiving side
/// that key is already known from the inbound message header.
pub struct RemoteChainKey {
    state: ChainState,
}

impl RemoteChainKey {
    /// The live chain secret.
    pub closed spec fn secret(&self) -> Seq<u8> {
        self.state.key@
    }

    /// The chain position: how many message keys the next derivation is
    /// preceded by.
    pub closed spec fn spec_index(&self) -> u64 {
        self.state.index
    }

    /// The seed this chain was constructed from.
    pub closed spec fn origin_seed(&self) -> Seq<u8> {
        self.state.origin_seed@
    }

    /// The position this chain was constructed at: 0 for `new`, the given
    /// index for `from_bytes_and_index`.
    pub closed spec fn origin_index(&self) -> u64 {
        self.state.origin_index@
    }

    /// Well-formed: the live secret is the construction seed advanced
    /// exactly as many times as the position has moved since construction,
    /// so it is a function of the seed and the position alone.
    pub open spec fn wf(&self) -> bool {
        &&& self.origin_index() <= self.spec_index()
        &&& self.secret() == secret_after(
            self.origin_seed(),
            (self.spec_index() - self.origin_index()) as nat,
        )
    }

    /// Starts a fresh chain at position 0 on the given seed.
    pub fn new(bytes: [u8; 32]) -> (chain: Self)
        ensures
            chain.wf(),
            chain.secret() == bytes@,
            chain.spec_index() == 0,
            chain.origin_seed() == bytes@,
            chain.origin_index() == 0,
    {
        Self { state: ChainState::new(bytes, 0) }
    }

    /// The current chain position.
    pub fn chain_index(&self) -> (index: u64)
        ensures
            index == self.spec_index(),
    {
        self.state.index
    }

    /// Reconstructs a mid-chain state for persistence or resume. The caller
    /// guarantees the pairing of secret and index came from a previously
    /// valid state.
    pub fn from_bytes_and_index(bytes: [u8; 32], index: u32) -> (chain: Self)
        ensures
            chain.wf(),
            chain.secret() == bytes@,
            chain.spec_index() == index as u64,
            chain.origin_seed() == bytes@,
            chain.origin_index() == index as u64,
    {
        Self { state: ChainState::new(bytes, index as u64) }
    }

    /// Replaces the live secret with its successor and moves the position
    /// forward by one.
    pub fn advance(&mut self)
        requires
            old(self).spec_index() < u64::MAX,
        ensures
            final(self).secret() == next_secret_of(old(self).secret()),
            final(self).spec_index() == old(self).spec_index() + 1,
            final(self).origin_seed() == old(self).origin_seed(),
            final(self).origin_index() == old(self).origin_index(),
            old(self).wf() ==> final(self).wf(),
    {
        self.state.advance();
    }

    /// Derives the message key for the current position, stamped with the
    /// position before advancement, then advances the chain.
    pub fn create_message_key(&mut self) -> (message_key: RemoteMessageKey)
        requires
            old(self).spec_index() < u64::MAX,
        ensures
            message_key.spec_key_material() == message_material_of(old(self).secret()),
            message_key.spec_index() == old(self).spec_index(),
            final(self).secret() == next_secret_of(old(self).secret()),
            final(self).spec_index() == old(self).spec_index() + 1,
            final(self).origin_seed() == old(self).origin_seed(),
            final(self).origin_index() == old(self).origin_index(),
            old(self).wf() ==> final(self).wf(),
    {
        let key = self.state.expand();
        let message_key = RemoteMessageKey::new(key, self.state.index);
        self.state.advance();
        message_key
    }

    /// The persistence view of this chain: the live secret and the position.
    pub fn to_parts(&self) -> (parts: ([u8; 32], u64))
        ensures
            parts.0@ == self.secret(),
            parts.1 == self.spec_index(),
    {
        (self.state.key, self.state.index)
    }
}

/// Advancing a chain depends on nothing but the seed and the number of
/// advancements: a chain run for `m` steps and then `k` more holds the same
/// secret as one run for `m + k` steps from the start.
pub proof fn lemma_secret_after_compose(seed: Seq<u8>, m: nat, k: nat)
    ensures
        secret_after(secret_after(seed, m), k) == secret_after(seed, m + k),
    decreases k,
{
    if k != 0 {
        lemma_secret_after_compose(seed, m, (k - 1) as nat);
    }
}

/// Determinism: two sending chains constructed from the same seed at the
/// same starting position and standing at the same position hold the same
/// secret, and will derive the same message-key material next.
pub proof fn lemma_determinism(a: ChainKey, b: ChainKey)
    requires
        a.wf(),
        b.wf(),
        a.origin_seed() == b.origin_seed(),
        a.origin_index() == b.origin_index(),
        a.spec_index() == b.spec_index(),
    ensures
        a.secret() == b.secret(),
        message_material_of(a.secret()) == message_material_of(b.secret()),
{
}

/// The two chain roles agree: a receiving chain tracking the same seed
/// lineage at the same position as a sending chain holds the same secret,
/// and so derives exactly the key material the sender derived.
pub proof fn lemma_remote_matches_local(local: ChainKey, remote: RemoteChainKey)
    requires
        local.wf(),
        remote.wf(),
        local.origin_seed() == remote.origin_seed(),
        local.origin_index() == remote.origin_index(),
        local.spec_index() == remote.spec_index(),
    ensures
        local.secret() == remote.secret(),
        message_material_of(local.secret()) == message_material_of(remote.secret()),
{
}

/// Forward secrecy, stated over the state: the live secret of a well-formed
/// chain is a function of the construction seed and the number of
/// advancements alone; no message key derived along the way feeds back into
/// it.
pub proof fn lemma_forward_state(chain: ChainKey)
    requires
        chain.wf(),
    ensures
        chain.secret() == secret_after(
            chain.origin_seed(),
            (chain.spec_index() - chain.origin_index()) as nat,
        ),
{
}

/// Restore equivalence: a sending chain restored mid-lineage from the secret
/// a fresh chain held at the restore position behaves like the fresh chain
/// from there on — at equal positions the two hold equal secrets.
pub proof fn lemma_restore_equivalence(fresh: ChainKey, restored: ChainKey)
    requires
        fresh.wf(),
        restored.wf(),
        fresh.origin_index() == 0,
        restored.origin_seed() == secret_after(
            fresh.origin_seed(),
            restored.origin_index() as nat,
        ),
        fresh.spec_index() == restored.spec_index(),
    ensures
        fresh.secret() == restored.secret(),
{
    lemma_secret_after_compose(
        fresh.origin_seed(),
        restored.origin_index() as nat,
        (restored.spec_index() - restored.origin_index()) as nat,
    );
}

/// Restore equivalence for the receiving role, stated as for the sending
/// role.
pub proof fn lemma_remote_restore_equivalence(fresh: RemoteChainKey, restored: RemoteChainKey)
    requires
        fresh.wf(),
        restored.wf(),
        fresh.origin_index() == 0,
        restored.origin_seed() == secret_after(
            fresh.origin_seed(),
            restored.origin_index() as nat,
        ),
        fresh.spec_index() == restored.spec_index(),
    ensures
        fresh.secret() == restored.secret(),
{
    lemma_secret_after_compose(
        fresh.origin_seed(),
        restored.origin_index() as nat,
        (restored.spec_index() - restored.origin_index()) as nat,
    );
}

} // verus!
