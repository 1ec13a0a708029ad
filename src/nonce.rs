//! Nonces of twelve bytes: a device identifier, forty random bits and the
//! low 48 bits of a millisecond clock, little-endian.
//!
//! The random and clock parts make a repeated nonce for one device unlikely,
//! not impossible: nothing here rules out a repeat after the clock is set
//! back.

use crate::clock::{duration_millis, fill_random, since_unix_epoch, system_now};
use vstd::arithmetic::div_mod::{lemma_fundamental_div_mod, lemma_mod_breakdown, lemma_small_mod};
use vstd::prelude::*;

verus! {

/// Length of a nonce in bytes.
pub const NONCE_LEN: usize = 12;

/// Number of random bytes in a nonce.
pub const RANDOM_LEN: usize = 5;

/// Number of clock bytes in a nonce.
pub const TIMESTAMP_LEN: usize = 6;

/// 2^48: the clock field holds a millisecond count modulo this.
pub const TIMESTAMP_MODULUS: u128 = 0x1_0000_0000_0000;

/// 256 to the power `len`: the range of an unsigned integer of `len` bytes.
pub open spec fn byte_span(len: nat) -> nat
    decreases len,
{
    if len == 0 {
        1
    } else {
        256 * byte_span((len - 1) as nat)
    }
}

/// The `len` low bytes of `x`, least significant first.
pub open spec fn le_bytes(x: nat, len: nat) -> Seq<u8>
    decreases len,
{
    if len == 0 {
        Seq::empty()
    } else {
        seq![(x % 256) as u8] + le_bytes(x / 256, (len - 1) as nat)
    }
}

/// The unsigned integer whose little-endian bytes are `s`.
pub open spec fn le_value(s: Seq<u8>) -> nat
    decreases s.len(),
{
    if s.len() == 0 {
        0
    } else {
        s[0] as nat + 256 * le_value(s.drop_first())
    }
}

/// The nonce made of a device identifier, the random bytes and a
/// millisecond count.
pub open spec fn nonce_layout(device_id: u8, random: Seq<u8>, millis: nat) -> Seq<u8> {
    seq![device_id] + random + le_bytes(millis % (TIMESTAMP_MODULUS as nat), TIMESTAMP_LEN as nat)
}

/// The millisecond count held in the clock field of a nonce.
pub open spec fn timestamp_field(n: Seq<u8>) -> nat {
    le_value(n.subrange(6, 12))
}

/// A nonce of twelve bytes.
#[derive(Clone, Copy, Debug, PartialEq, Eq)]
pub struct Nonce {
    pub bytes: [u8; 12],
}

impl View for Nonce {
    type V = Seq<u8>;

    open spec fn view(&self) -> Seq<u8> {
        self.bytes@
    }
}

/// Why no nonce could be made.
#[derive(Clone, Copy, Debug, PartialEq, Eq)]
pub enum NonceError {
    /// The wall clock stands before the Unix epoch.
    ClockFailure,
    /// The secure random source is unavailable.
    EntropyFailure,
}

pub proof fn lemma_le_bytes_len(x: nat, len: nat)
    ensures
        le_bytes(x, len).len() == len,
    decreases len,
{
    if len > 0 {
        lemma_le_bytes_len(x / 256, (len - 1) as nat);
    }
}

pub proof fn lemma_byte_span_positive(len: nat)
    ensures
        byte_span(len) > 0,
    decreases len,
{
    if len > 0 {
        lemma_byte_span_positive((len - 1) as nat);
    }
}

/// Reading back `len` little-endian bytes of `x` gives `x` modulo
/// `256^len`.
pub proof fn lemma_le_value_of_bytes(x: nat, len: nat)
    ensures
        le_value(le_bytes(x, len)) == x % byte_span(len),
    decreases len,
{
    if len > 0 {
        let rest: nat = (len - 1) as nat;
        lemma_le_value_of_bytes(x / 256, rest);
        lemma_byte_span_positive(rest);
        let s = le_bytes(x, len);
        assert(s.drop_first() =~= le_bytes(x / 256, rest));
        lemma_mod_breakdown(x as int, 256, byte_span(rest) as int);
    }
}

impl Nonce {
    /// The nonce with the given bytes.
    pub fn from_array(bytes: [u8; 12]) -> (r: Nonce)
        ensures
            r@ == bytes@,
    {
        Nonce { bytes }
    }

    /// The byte at position `i`.
    pub fn byte(&self, i: usize) -> (r: u8)
        requires
            i < NONCE_LEN,
        ensures
            r == self@[i as int],
    {
        self.bytes[i]
    }

    /// The identifier of the device that made this nonce.
    pub fn device_id(&self) -> (r: u8)
        ensures
            r == self@[0],
    {
        self.bytes[0]
    }
}

/// Assembles a nonce from a device identifier, five random bytes and a
/// millisecond count, of which the low 48 bits are kept.
pub fn nonce_from_parts(device_id: u8, random: &[u8; 5], millis: u128) -> (r: Nonce)
    ensures
        r@ == nonce_layout(device_id, random@, millis as nat),
{
    let mut bytes: [u8; 12] = [0u8; 12];
    bytes[0] = device_id;
    let mut i: usize = 0;
    while i < RANDOM_LEN
        invariant
            i <= RANDOM_LEN,
            bytes@.len() == 12,
            random@.len() == 5,
            bytes@[0] == device_id,
            forall|j: int| 0 <= j < i ==> bytes@[1 + j] == random@[j],
        decreases RANDOM_LEN - i,
    {
        bytes[1 + i] = random[i];
        i = i + 1;
    }
    let stamp: u64 = (millis % TIMESTAMP_MODULUS) as u64;
    let mut rest: u64 = stamp;
    let mut k: usize = 0;
    while k < TIMESTAMP_LEN
        invariant
            k <= TIMESTAMP_LEN,
            bytes@.len() == 12,
            random@.len() == 5,
            bytes@[0] == device_id,
            forall|j: int| 0 <= j < 5 ==> bytes@[1 + j] == random@[j],
            le_bytes(stamp as nat, 6) == bytes@.subrange(6, 6 + k) + le_bytes(
                rest as nat,
                (6 - k) as nat,
            ),
        decreases TIMESTAMP_LEN - k,
    {
        let b: u8 = (rest % 256) as u8;
        let ghost before = bytes@.subrange(6, 6 + k as int);
        let ghost tail = le_bytes((rest / 256) as nat, (5 - k) as nat);
        assert(le_bytes(rest as nat, (6 - k) as nat) == seq![b] + tail);
        bytes[6 + k] = b;
        assert(bytes@.subrange(6, 6 + k + 1) =~= before.push(b));
        assert(before + (seq![b] + tail) =~= before.push(b) + tail);
        rest = rest / 256;
        k = k + 1;
    }
    assert(bytes@.subrange(6, 12) + le_bytes(rest as nat, 0) =~= bytes@.subrange(6, 12));
    proof {
        lemma_le_bytes_len(stamp as nat, 6);
    }
    assert(bytes@ =~= nonce_layout(device_id, random@, millis as nat));
    Nonce { bytes }
}

/// Makes a fresh nonce for `device_id` from the wall clock and the secure
/// random source. Fails, rather than fall back on a weaker nonce, when the
/// clock stands before the Unix epoch or the random source is unavailable.
pub fn generate_nonce(device_id: u8) -> (r: Result<Nonce, NonceError>)
    ensures
        r is Ok ==> r->Ok_0@[0] == device_id,
        r is Ok ==> exists|random: Seq<u8>, millis: nat|
            random.len() == RANDOM_LEN && r->Ok_0@ == nonce_layout(device_id, random, millis),
{
    let now = system_now();
    let elapsed = match since_unix_epoch(&now) {
        Ok(d) => d,
        Err(_) => {
            return Err(NonceError::ClockFailure);
        },
    };
    let millis: u128 = duration_millis(&elapsed);
    let mut random: [u8; 5] = [0u8; 5];
    match fill_random(&mut random) {
        Ok(()) => {},
        Err(_) => {
            return Err(NonceError::EntropyFailure);
        },
    }
    let n = nonce_from_parts(device_id, &random, millis);
    Ok(n)
}

/// The clock field of a nonce reads back the millisecond count it was made
/// from, modulo 2^48.
pub proof fn lemma_timestamp_round_trip(device_id: u8, random: Seq<u8>, millis: nat)
    requires
        random.len() == RANDOM_LEN,
    ensures
        nonce_layout(device_id, random, millis)[0] == device_id,
        timestamp_field(nonce_layout(device_id, random, millis)) == millis % (
        TIMESTAMP_MODULUS as nat),
{
    let stamp: nat = millis % (TIMESTAMP_MODULUS as nat);
    let n = nonce_layout(device_id, random, millis);
    lemma_le_bytes_len(stamp, 6);
    assert(n.subrange(6, 12) =~= le_bytes(stamp, 6));
    lemma_le_value_of_bytes(stamp, 6);
    reveal_with_fuel(byte_span, 7);
    assert(byte_span(6) == TIMESTAMP_MODULUS);
    lemma_small_mod(stamp, TIMESTAMP_MODULUS as nat);
}

/// Two nonces made at clock readings `t1 <= t2` within one 2^48-millisecond
/// window carry clock fields in the same order, whatever their devices and
/// random bytes.
pub proof fn lemma_timestamp_monotonic(
    id1: u8,
    random1: Seq<u8>,
    t1: nat,
    id2: u8,
    random2: Seq<u8>,
    t2: nat,
)
    requires
        random1.len() == RANDOM_LEN,
        random2.len() == RANDOM_LEN,
        t1 <= t2,
        t1 / (TIMESTAMP_MODULUS as nat) == t2 / (TIMESTAMP_MODULUS as nat),
    ensures
        timestamp_field(nonce_layout(id1, random1, t1)) <= timestamp_field(
            nonce_layout(id2, random2, t2),
        ),
{
    lemma_timestamp_round_trip(id1, random1, t1);
    lemma_timestamp_round_trip(id2, random2, t2);
    lemma_fundamental_div_mod(t1 as int, TIMESTAMP_MODULUS as int);
    lemma_fundamental_div_mod(t2 as int, TIMESTAMP_MODULUS as int);
}

} // verus!
