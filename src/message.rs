//! Sealed messages, and their form on a wire: the nonce followed by the
//! ciphertext with its tag, with no length prefix.

use crate::nonce::{Nonce, NONCE_LEN};
use vstd::prelude::*;
use vstd::slice::{slice_subrange, slice_to_vec};

verus! {

/// A nonce and the ciphertext sealed under it, sent together.
#[derive(Debug)]
pub struct SealedMessage {
    pub nonce: Nonce,
    pub ciphertext: Vec<u8>,
}

impl View for SealedMessage {
    type V = (Seq<u8>, Seq<u8>);

    /// The nonce and the ciphertext.
    open spec fn view(&self) -> (Seq<u8>, Seq<u8>) {
        (self.nonce@, self.ciphertext@)
    }
}

/// The bytes that carry a message on a wire.
pub open spec fn wire_of(nonce: Seq<u8>, ciphertext: Seq<u8>) -> Seq<u8> {
    nonce + ciphertext
}

/// The nonce and ciphertext that `bytes` carry, if it is long enough to
/// hold a nonce.
pub open spec fn parse_wire(bytes: Seq<u8>) -> Option<(Seq<u8>, Seq<u8>)> {
    if bytes.len() >= NONCE_LEN {
        Some((bytes.subrange(0, NONCE_LEN as int), bytes.subrange(NONCE_LEN as int, bytes.len() as int)))
    } else {
        None
    }
}

impl SealedMessage {
    /// A message of `nonce` and `ciphertext`.
    pub fn new(nonce: Nonce, ciphertext: Vec<u8>) -> (r: SealedMessage)
        ensures
            r.nonce == nonce,
            r.ciphertext@ == ciphertext@,
    {
        SealedMessage { nonce, ciphertext }
    }

    /// An identical copy of this message.
    pub fn duplicate(&self) -> (r: SealedMessage)
        ensures
            r@ == self@,
            r.nonce == self.nonce,
    {
        SealedMessage { nonce: self.nonce, ciphertext: slice_to_vec(self.ciphertext.as_slice()) }
    }

    /// The wire form: the twelve nonce bytes, then the ciphertext.
    pub fn to_wire(&self) -> (r: Vec<u8>)
        ensures
            r@ == wire_of(self.nonce@, self.ciphertext@),
    {
        let mut out: Vec<u8> = Vec::new();
        let mut i: usize = 0;
        while i < NONCE_LEN
            invariant
                i <= NONCE_LEN,
                self.nonce@.len() == NONCE_LEN,
                out@ == self.nonce@.subrange(0, i as int),
            decreases NONCE_LEN - i,
        {
            out.push(self.nonce.bytes[i]);
            assert(out@ =~= self.nonce@.subrange(0, i + 1));
            i = i + 1;
        }
        let mut j: usize = 0;
        while j < self.ciphertext.len()
            invariant
                j <= self.ciphertext@.len(),
                self.nonce@.len() == NONCE_LEN,
                out@ == self.nonce@ + self.ciphertext@.subrange(0, j as int),
            decreases self.ciphertext@.len() - j,
        {
            out.push(self.ciphertext[j]);
            assert(out@ =~= self.nonce@ + self.ciphertext@.subrange(0, j + 1));
            j = j + 1;
        }
        assert(self.ciphertext@.subrange(0, self.ciphertext@.len() as int) =~= self.ciphertext@);
        out
    }

    /// Reads a message from its wire form. Fails exactly when `bytes` is
    /// shorter than a nonce.
    pub fn from_wire(bytes: &[u8]) -> (r: Option<SealedMessage>)
        ensures
            r is Some <==> parse_wire(bytes@) is Some,
            r is Some ==> Some(r->Some_0@) == parse_wire(bytes@),
    {
        if bytes.len() < NONCE_LEN {
            return None;
        }
        let mut arr: [u8; 12] = [0u8; 12];
        let mut i: usize = 0;
        while i < NONCE_LEN
            invariant
                i <= NONCE_LEN,
                bytes@.len() >= NONCE_LEN,
                arr@.len() == NONCE_LEN,
                forall|k: int| 0 <= k < i ==> arr@[k] == bytes@[k],
            decreases NONCE_LEN - i,
        {
            arr[i] = bytes[i];
            i = i + 1;
        }
        assert(arr@ =~= bytes@.subrange(0, NONCE_LEN as int));
        let rest = slice_subrange(bytes, NONCE_LEN, bytes.len());
        Some(SealedMessage { nonce: Nonce { bytes: arr }, ciphertext: slice_to_vec(rest) })
    }
}

/// Reading back the wire form of a message gives the same nonce and
/// ciphertext.
pub proof fn lemma_wire_round_trip(nonce: Seq<u8>, ciphertext: Seq<u8>)
    requires
        nonce.len() == NONCE_LEN,
    ensures
        parse_wire(wire_of(nonce, ciphertext)) == Some((nonce, ciphertext)),
{
    let w = wire_of(nonce, ciphertext);
    assert(w.subrange(0, NONCE_LEN as int) =~= nonce);
    assert(w.subrange(NONCE_LEN as int, w.len() as int) =~= ciphertext);
}

} // verus!
