use vstd::prelude::*;

use rand_chacha::rand_core::{Rng, SeedableRng};
use rand_chacha::ChaCha20Rng;
use sha3::{Digest, Sha3_256};

use vstd::bytes::spec_u32_to_le_bytes;

use crate::codec::{push_bytes, push_u32_le};
use crate::constants::RESEED_COUNTER;

verus! {

#[verifier::external_type_specification]
#[verifier::external_body]
pub struct ExChaCha20Rng(ChaCha20Rng);

/// What SHA3-256 returns for an input: a 32-byte digest that is a pure
/// function of the input bytes.
pub uninterp spec fn sha3_256_of(data: Seq<u8>) -> Seq<u8>;

/// Relies on sha3's Sha3_256 (new, update, finalize): the 32-byte digest is
/// a pure function of the input.
#[verifier::external_body]
fn sha3_256(data: &Vec<u8>) -> (r: Vec<u8>)
    ensures
        r@ == sha3_256_of(data@),
        r@.len() == 32,
{
    let mut hasher = Sha3_256::new();
    hasher.update(data.as_slice());
    hasher.finalize().to_vec()
}

/// Relies on rand_chacha's ChaCha20Rng::from_seed, which builds the stream
/// cipher state from a 32-byte seed.
#[verifier::external_body]
fn chacha_from_seed(seed: &Vec<u8>) -> (r: ChaCha20Rng)
    requires
        seed@.len() == 32,
{
    let mut arr = [0u8; 32];
    arr.copy_from_slice(seed.as_slice());
    ChaCha20Rng::from_seed(arr)
}

/// Relies on rand_chacha's ChaCha20Rng::get_seed: the 32-byte seed the
/// generator was built from.
#[verifier::external_body]
fn chacha_get_seed(rng: &ChaCha20Rng) -> (r: Vec<u8>)
    ensures
        r@.len() == 32,
{
    rng.get_seed().to_vec()
}

/// Relies on rand_chacha's ChaCha20Rng next_u32 (via rand_core's Rng): one
/// word of the key stream. Nothing is assumed about its value.
#[verifier::external_body]
fn chacha_next_u32(rng: &mut ChaCha20Rng) -> (r: u32)
{
    rng.next_u32()
}

// ---------------------------------------------------------------------------
// Seeding
// ---------------------------------------------------------------------------

/// The bytes of the entropy samples, each a pair of one true-random word
/// and one timer reading, in little endian.
pub open spec fn spec_samples_bytes(samples: Seq<(u32, u32)>) -> Seq<u8>
    decreases samples.len(),
{
    if samples.len() == 0 {
        Seq::empty()
    } else {
        spec_samples_bytes(samples.drop_last()) + spec_u32_to_le_bytes(samples.last().0)
            + spec_u32_to_le_bytes(samples.last().1)
    }
}

/// The 32-byte seed that the given seed bytes and entropy samples produce:
/// the SHA3-256 digest of the seed followed by every sample.
pub open spec fn spec_seed_material(seed: Seq<u8>, samples: Seq<(u32, u32)>) -> Seq<u8> {
    sha3_256_of(seed + spec_samples_bytes(samples))
}

/// Absorbs the seed bytes and the entropy samples into a 256-bit digest.
pub fn seed_material(seed: &Vec<u8>, samples: &Vec<(u32, u32)>) -> (r: Vec<u8>)
    ensures
        r@ == spec_seed_material(seed@, samples@),
        r@.len() == 32,
{
    let mut buf: Vec<u8> = Vec::new();
    push_bytes(&mut buf, seed);
    let mut i: usize = 0;
    while i < samples.len()
        invariant
            i <= samples@.len(),
            buf@ == seed@ + spec_samples_bytes(samples@.subrange(0, i as int)),
        decreases samples@.len() - i,
    {
        let (t, c) = samples[i];
        push_u32_le(&mut buf, t);
        push_u32_le(&mut buf, c);
        proof {
            let prefix1 = samples@.subrange(0, i + 1);
            assert(prefix1.drop_last() =~= samples@.subrange(0, i as int));
            assert(buf@ =~= seed@ + spec_samples_bytes(prefix1));
        }
        i += 1;
    }
    assert(samples@.subrange(0, samples@.len() as int) =~= samples@);
    sha3_256(&buf)
}

/// Seeds a fresh stream cipher from the provisioned seed bytes and the
/// gathered entropy samples.
pub fn seed_rng(seed: &Vec<u8>, samples: &Vec<(u32, u32)>) -> (r: ChaCha20Rng)
{
    let material = seed_material(seed, samples);
    chacha_from_seed(&material)
}

// ---------------------------------------------------------------------------
// The reseeding generator
// ---------------------------------------------------------------------------

/// Rng which uses a reseeding process to gather fresh entropy occasionally:
/// every fixed number of emitted words it re-hashes its current seed with
/// the stored entropy samples.
pub struct CustomRng {
    pub rng: ChaCha20Rng,
    pub reseed_counter: u32,
    pub entropy: Vec<(u32, u32)>,
}

impl CustomRng {
    /// Create a new CustomRng, seeded from the provisioned seed bytes and
    /// the gathered entropy samples; the samples are kept for reseeding.
    pub fn new(seed: &Vec<u8>, samples: Vec<(u32, u32)>) -> (r: CustomRng)
        ensures
            r.reseed_counter == 0,
    {
        let rng = seed_rng(seed, &samples);
        CustomRng { rng, reseed_counter: 0, entropy: samples }
    }

    /// Re-hashes the current seed with the stored entropy samples.
    fn reseed(&mut self)
        ensures
            final(self).reseed_counter == old(self).reseed_counter,
            final(self).entropy == old(self).entropy,
    {
        let prev_seed = chacha_get_seed(&self.rng);
        self.rng = seed_rng(&prev_seed, &self.entropy);
    }

    /// Reseeds once the counter reaches the reseed period, then counts the
    /// upcoming emission.
    fn check_reseed(&mut self)
        ensures
            final(self).entropy == old(self).entropy,
            final(self).reseed_counter == (if old(self).reseed_counter >= RESEED_COUNTER {
                1u32
            } else {
                (old(self).reseed_counter + 1) as u32
            }),
    {
        if self.reseed_counter >= RESEED_COUNTER {
            self.reseed_counter = 0;
            self.reseed();
        }
        self.reseed_counter = self.reseed_counter + 1;
    }

    /// The next random word. Emitting it counts towards the reseed period.
    pub fn next_u32(&mut self) -> (r: u32)
        ensures
            final(self).reseed_counter == (if old(self).reseed_counter >= RESEED_COUNTER {
                1u32
            } else {
                (old(self).reseed_counter + 1) as u32
            }),
    {
        self.check_reseed();
        chacha_next_u32(&mut self.rng)
    }

    /// The next random double word, from two words of the stream.
    pub fn next_u64(&mut self) -> (r: u64)
    {
        let low = self.next_u32();
        let high = self.next_u32();
        ((high as u64) << 32u64) | (low as u64)
    }

    /// Fills a buffer of `len` fresh random bytes.
    pub fn fill_bytes(&mut self, len: usize) -> (r: Vec<u8>)
        ensures
            r@.len() == len,
    {
        let mut r: Vec<u8> = Vec::new();
        while r.len() < len
            invariant
                r@.len() <= len,
            decreases len - r@.len(),
        {
            let word = self.next_u32();
            r.push((word & 0xff) as u8);
            if r.len() < len {
                r.push(((word >> 8) & 0xff) as u8);
            }
            if r.len() < len {
                r.push(((word >> 16) & 0xff) as u8);
            }
            if r.len() < len {
                r.push(((word >> 24) & 0xff) as u8);
            }
        }
        r
    }
}

/// The jitter duration for the host-link hardening: a uniform draw in
/// `[start_us, end_us)` microseconds. The caller performs the delay.
pub fn delay_random_us(rng: &mut CustomRng, start_us: u32, end_us: u32) -> (r: u32)
    requires
        start_us < end_us,
    ensures
        start_us <= r < end_us,
{
    let random_diff = rng.next_u32() % (end_us - start_us);
    let random_delay = start_us + random_diff;
    random_delay
}

} // verus!
