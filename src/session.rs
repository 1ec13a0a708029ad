//! An AEAD session over a pre-shared 256-bit key (ChaCha20-Poly1305).

use crate::nonce::Nonce;
use chacha20poly1305::aead::generic_array::GenericArray;
use chacha20poly1305::aead::{Aead, Error as AeadError, KeyInit};
use chacha20poly1305::ChaCha20Poly1305;
use vstd::prelude::*;

verus! {

/// Length of a key in bytes.
pub const KEY_LEN: usize = 32;

/// Length of the authentication tag appended to every ciphertext.
pub const TAG_LEN: usize = 16;

/// Plaintexts must be shorter than this many bytes: the ChaCha20 keystream
/// left after the block that keys Poly1305 covers 64 * (2^32 - 2) bytes.
pub const PLAINTEXT_LIMIT: u64 = 274_877_906_817;

#[verifier::external_type_specification]
#[verifier::external_body]
pub struct ExAeadError(AeadError);

/// The ciphertext, tag appended, that ChaCha20-Poly1305 makes of
/// `plaintext` under `key` and `nonce`, with no associated data.
pub uninterp spec fn sealed_of(key: Seq<u8>, nonce: Seq<u8>, plaintext: Seq<u8>) -> Seq<u8>;

/// `ciphertext` is what sealing `plaintext` under `key` and `nonce` gives.
pub open spec fn is_sealing(key: Seq<u8>, nonce: Seq<u8>, ciphertext: Seq<u8>, plaintext: Seq<u8>) -> bool {
    &&& plaintext.len() < PLAINTEXT_LIMIT
    &&& ciphertext.len() == plaintext.len() + TAG_LEN
    &&& sealed_of(key, nonce, plaintext) == ciphertext
}

/// `ciphertext` is the sealing of some plaintext under `key` and `nonce`.
pub open spec fn is_authentic(key: Seq<u8>, nonce: Seq<u8>, ciphertext: Seq<u8>) -> bool {
    exists|p: Seq<u8>| is_sealing(key, nonce, ciphertext, p)
}

/// `r` is what opening `ciphertext` under `key` and `nonce` may give: the
/// plaintext of which the ciphertext is the sealing, or a failure when it is
/// the sealing of none.
pub open spec fn opens_to(
    key: Seq<u8>,
    nonce: Seq<u8>,
    ciphertext: Seq<u8>,
    r: Result<Vec<u8>, AuthenticationFailure>,
) -> bool {
    &&& (r is Ok <==> is_authentic(key, nonce, ciphertext))
    &&& (r is Ok ==> is_sealing(key, nonce, ciphertext, r->Ok_0@))
    &&& forall|p: Seq<u8>|
        #[trigger] is_sealing(key, nonce, ciphertext, p) ==> r is Ok && r->Ok_0@ == p
}

/// The key was not 32 bytes long.
#[derive(Clone, Copy, Debug, PartialEq, Eq)]
pub struct ConfigurationError;

/// The ciphertext did not authenticate under the session's key and the
/// given nonce.
#[derive(Clone, Copy, Debug, PartialEq, Eq)]
pub struct AuthenticationFailure;

/// Relies on `KeyInit::new_from_slice` for ChaCha20Poly1305: it accepts a
/// key of exactly 32 bytes and refuses any other length with
/// `InvalidLength`.
#[verifier::external_body]
fn key_accepted(key: &[u8]) -> (r: bool)
    ensures
        r <==> key@.len() == KEY_LEN,
{
    ChaCha20Poly1305::new_from_slice(key).is_ok()
}

/// An AEAD session over a key that never changes once the session exists.
pub struct CipherSession {
    key: [u8; 32],
}

impl View for CipherSession {
    type V = Seq<u8>;

    /// The key of the session.
    closed spec fn view(&self) -> Seq<u8> {
        self.key@
    }
}

impl CipherSession {
    /// Relies on `Aead::encrypt` of ChaCha20Poly1305, the cipher made by
    /// `KeyInit::new` from the session's key, with no associated data: below
    /// the keystream limit it succeeds and returns the ciphertext followed by
    /// a 16-byte tag.
    #[verifier::external_body]
    fn encrypt(&self, nonce: &[u8; 12], plaintext: &[u8]) -> (r: Result<Vec<u8>, AeadError>)
        requires
            plaintext@.len() < PLAINTEXT_LIMIT,
        ensures
            r is Ok,
            r->Ok_0@ == sealed_of(self@, nonce@, plaintext@),
            r->Ok_0@.len() == plaintext@.len() + TAG_LEN,
    {
        ChaCha20Poly1305::new(GenericArray::from_slice(&self.key)).encrypt(GenericArray::from_slice(nonce), plaintext)
    }

    /// Relies on `Aead::decrypt` of ChaCha20Poly1305, the cipher made by
    /// `KeyInit::new` from the session's key, with no associated data: it checks the tag and returns
    /// the plaintext exactly when the ciphertext is the encryption of that
    /// plaintext under the same key and nonce.
    #[verifier::external_body]
    fn decrypt(&self, nonce: &[u8; 12], ciphertext: &[u8]) -> (r: Result<Vec<u8>, AeadError>)
        requires
            ciphertext@.len() < PLAINTEXT_LIMIT + TAG_LEN,
        ensures
            r is Ok ==> is_sealing(self@, nonce@, ciphertext@, r->Ok_0@),
            forall|p: Seq<u8>|
                #[trigger] is_sealing(self@, nonce@, ciphertext@, p) ==> r is Ok && r->Ok_0@ == p,
    {
        ChaCha20Poly1305::new(GenericArray::from_slice(&self.key)).decrypt(GenericArray::from_slice(nonce), ciphertext)
    }

    /// A session over `key`, which must be exactly 32 bytes long.
    pub fn new(key: &[u8]) -> (r: Result<CipherSession, ConfigurationError>)
        ensures
            r is Ok <==> key@.len() == KEY_LEN,
            r is Ok ==> r->Ok_0@ == key@,
    {
        if key_accepted(key) {
            let mut bytes: [u8; 32] = [0u8; 32];
            let mut i: usize = 0;
            while i < KEY_LEN
                invariant
                    i <= KEY_LEN,
                    key@.len() == KEY_LEN,
                    bytes@.len() == KEY_LEN,
                    forall|j: int| 0 <= j < i ==> bytes@[j] == key@[j],
                decreases KEY_LEN - i,
            {
                bytes[i] = key[i];
                i = i + 1;
            }
            assert(bytes@ =~= key@);
            Ok(CipherSession { key: bytes })
        } else {
            Err(ConfigurationError)
        }
    }

    /// Seals `plaintext` under the session's key and `nonce`: the ciphertext
    /// with its tag appended. The same nonce must never be used twice under
    /// one key.
    pub fn seal(&self, nonce: &Nonce, plaintext: &[u8]) -> (r: Vec<u8>)
        requires
            plaintext@.len() < PLAINTEXT_LIMIT,
        ensures
            r@ == sealed_of(self@, nonce@, plaintext@),
            r@.len() == plaintext@.len() + TAG_LEN,
            is_sealing(self@, nonce@, r@, plaintext@),
    {
        match self.encrypt(&nonce.bytes, plaintext) {
            Ok(c) => c,
            Err(_) => {
                assert(false);
                Vec::new()
            },
        }
    }

    /// Opens `ciphertext` under the session's key and `nonce`. Succeeds
    /// exactly when the ciphertext is a sealing made under the same key and
    /// nonce, and then returns the plaintext that was sealed.
    pub fn open(&self, nonce: &Nonce, ciphertext: &[u8]) -> (r: Result<Vec<u8>, AuthenticationFailure>)
        ensures
            opens_to(self@, nonce@, ciphertext@, r),
    {
        if ciphertext.len() as u64 >= PLAINTEXT_LIMIT + TAG_LEN as u64 {
            return Err(AuthenticationFailure);
        }
        match self.decrypt(&nonce.bytes, ciphertext) {
            Ok(p) => Ok(p),
            Err(_) => Err(AuthenticationFailure),
        }
    }
}

/// Opening what was sealed gives back the plaintext: whatever `open`
/// returns for a sealing `c` of `p`, under the same key and nonce, is
/// `Ok(p)`.
pub proof fn lemma_round_trip(key: Seq<u8>, nonce: Seq<u8>, p: Seq<u8>, c: Seq<u8>)
    requires
        is_sealing(key, nonce, c, p),
    ensures
        forall|r: Result<Vec<u8>, AuthenticationFailure>|
            #[trigger] opens_to(key, nonce, c, r) ==> (r matches Ok(q) && q@ == p),
{
}

/// A ciphertext that differs from the sealing of `p` in any way, a single
/// flipped bit included, never opens to `p`: `open` either fails on it or
/// returns a plaintext of which it is the exact sealing.
pub proof fn lemma_tampered_never_opens_to_original(
    key: Seq<u8>,
    nonce: Seq<u8>,
    p: Seq<u8>,
    tampered: Seq<u8>,
)
    requires
        tampered != sealed_of(key, nonce, p),
    ensures
        forall|r: Result<Vec<u8>, AuthenticationFailure>|
            #[trigger] opens_to(key, nonce, tampered, r) ==> !(r matches Ok(q) && q@ == p),
        forall|r: Result<Vec<u8>, AuthenticationFailure>|
            #[trigger] opens_to(key, nonce, tampered, r) && r is Ok ==> sealed_of(key, nonce, r->Ok_0@) == tampered,
{
}

} // verus!
