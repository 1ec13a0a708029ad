//! The broadcaster: on every tick it seals one payload under a fresh nonce
//! and hands the identical sealed message to every node.

use crate::message::SealedMessage;
use crate::node::{handles_message, NodeAction};
use crate::nonce::{generate_nonce, nonce_layout, Nonce, NonceError, RANDOM_LEN};
use crate::session::{is_sealing, sealed_of, CipherSession, PLAINTEXT_LIMIT};
use vstd::prelude::*;

verus! {

/// The device identifier that the broadcaster puts in its own nonces.
pub const BROADCASTER_ID: u8 = 0xFF;

/// The single sender: a session over the shared key and the number of
/// nodes it sends to, fixed once it exists.
pub struct Broadcaster {
    session: CipherSession,
    node_count: usize,
}

impl Broadcaster {
    /// The key of the broadcaster's session.
    pub closed spec fn spec_key(&self) -> Seq<u8> {
        self.session@
    }

    /// The number of nodes.
    pub closed spec fn spec_node_count(&self) -> nat {
        self.node_count as nat
    }

    /// A broadcaster that seals with `session` for `node_count` nodes.
    pub fn new(session: CipherSession, node_count: usize) -> (r: Broadcaster)
        ensures
            r.spec_key() == session@,
            r.spec_node_count() == node_count,
    {
        Broadcaster { session, node_count }
    }

    /// The number of nodes.
    pub fn node_count(&self) -> (r: usize)
        ensures
            r == self.spec_node_count(),
    {
        self.node_count
    }

    /// Seals `payload` under `nonce`.
    pub fn seal_with(&self, nonce: Nonce, payload: &[u8]) -> (r: SealedMessage)
        requires
            payload@.len() < PLAINTEXT_LIMIT,
        ensures
            r.nonce == nonce,
            r.ciphertext@ == sealed_of(self.spec_key(), nonce@, payload@),
            is_sealing(self.spec_key(), nonce@, r.ciphertext@, payload@),
    {
        let ciphertext = self.session.seal(&nonce, payload);
        SealedMessage { nonce, ciphertext }
    }

    /// One tick's message: `payload` sealed under a fresh nonce carrying the
    /// broadcaster's identifier. Fails when no nonce can be made.
    pub fn tick(&self, payload: &[u8]) -> (r: Result<SealedMessage, NonceError>)
        requires
            payload@.len() < PLAINTEXT_LIMIT,
        ensures
            r matches Ok(m) ==> m.nonce@[0] == BROADCASTER_ID
                && m.ciphertext@ == sealed_of(self.spec_key(), m.nonce@, payload@)
                && is_sealing(self.spec_key(), m.nonce@, m.ciphertext@, payload@),
            r matches Ok(m) ==> exists|random: Seq<u8>, millis: nat|
                random.len() == RANDOM_LEN && m.nonce@ == nonce_layout(BROADCASTER_ID, random, millis),
    {
        let nonce = generate_nonce(BROADCASTER_ID)?;
        Ok(self.seal_with(nonce, payload))
    }

    /// One identical copy of `m` for each node, in node order.
    pub fn fan_out(&self, m: &SealedMessage) -> (r: Vec<SealedMessage>)
        ensures
            r@.len() == self.spec_node_count(),
            forall|i: int| 0 <= i < r@.len() ==> (#[trigger] r@[i])@ == m@,
    {
        let mut out: Vec<SealedMessage> = Vec::new();
        let mut i: usize = 0;
        while i < self.node_count
            invariant
                i <= self.node_count,
                out@.len() == i,
                forall|j: int| 0 <= j < i ==> (#[trigger] out@[j])@ == m@,
            decreases self.node_count - i,
        {
            out.push(m.duplicate());
            i = i + 1;
        }
        out
    }
}

/// Every node that holds the shared key and receives a copy of one tick's
/// message, `payload` sealed as `sealed`, delivers exactly the payload, under its own identifier: the
/// plaintext is the same for all nodes.
pub proof fn lemma_fan_out_delivers(
    key: Seq<u8>,
    nonce: Seq<u8>,
    payload: Seq<u8>,
    sealed: Seq<u8>,
    copies: Seq<SealedMessage>,
)
    requires
        is_sealing(key, nonce, sealed, payload),
        forall|i: int| 0 <= i < copies.len() ==> (#[trigger] copies[i])@ == (nonce, sealed),
    ensures
        forall|i: int, id: u8, a: NodeAction|
            0 <= i < copies.len() && #[trigger] handles_message(id, key, copies[i], a) ==> (a matches NodeAction::Deliver {
                node_id,
                plaintext,
            } && node_id == id && plaintext@ == payload),
{
    assert forall|i: int, id: u8, a: NodeAction|
        0 <= i < copies.len() && #[trigger] handles_message(id, key, copies[i], a) implies (a matches NodeAction::Deliver {
            node_id,
            plaintext,
        } && node_id == id && plaintext@ == payload) by {
        assert(is_sealing(key, copies[i].nonce@, copies[i].ciphertext@, payload));
    }
}

/// Corrupting the copy meant for one node can only affect that node: every
/// other node still delivers the payload, and the corrupted copy never
/// yields the payload.
pub proof fn lemma_isolation(
    key: Seq<u8>,
    nonce: Seq<u8>,
    payload: Seq<u8>,
    sealed: Seq<u8>,
    copies: Seq<SealedMessage>,
    corrupted: int,
)
    requires
        is_sealing(key, nonce, sealed, payload),
        0 <= corrupted < copies.len(),
        forall|i: int| 0 <= i < copies.len() && i != corrupted ==> (#[trigger] copies[i])@ == (nonce, sealed),
        copies[corrupted].nonce@ == nonce,
        copies[corrupted].ciphertext@ != sealed,
    ensures
        forall|i: int, id: u8, a: NodeAction|
            0 <= i < copies.len() && i != corrupted && #[trigger] handles_message(id, key, copies[i], a)
                ==> (a matches NodeAction::Deliver { node_id, plaintext } && node_id == id && plaintext@ == payload),
        forall|id: u8, a: NodeAction|
            #[trigger] handles_message(id, key, copies[corrupted], a) ==> !(a matches NodeAction::Deliver {
                plaintext,
                ..
            } && plaintext@ == payload),
{
    assert forall|i: int, id: u8, a: NodeAction|
        0 <= i < copies.len() && i != corrupted && #[trigger] handles_message(id, key, copies[i], a)
            implies (a matches NodeAction::Deliver { node_id, plaintext } && node_id == id && plaintext@ == payload) by {
        assert(is_sealing(key, copies[i].nonce@, copies[i].ciphertext@, payload));
    }
}

} // verus!
