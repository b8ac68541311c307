use vstd::prelude::*;

use tiny_keccak::{Hasher, Kmac};
use zeroize::Zeroize;

use vstd::bytes::{spec_u32_to_le_bytes, spec_u64_to_le_bytes, u32_to_le_bytes, u64_to_le_bytes};

use crate::codec::push_bytes;
use crate::types::{
    BaseChannelSecret, BaseSubscriptionSecret, ChannelSecret, PictureKey, SubscriptionKey,
};

verus! {

// ---------------------------------------------------------------------------
// KMAC primitives
// ---------------------------------------------------------------------------

pub uninterp spec fn kmac256_of(key: Seq<u8>, custom: Seq<u8>, input: Seq<u8>) -> Seq<u8>;

pub uninterp spec fn kmac128_of(key: Seq<u8>, custom: Seq<u8>, input: Seq<u8>) -> Seq<u8>;

/// Relies on tiny_keccak's Kmac::v256 (update, then finalize): the 32-byte
/// MAC is a pure function of the key, the customization string and the input.
#[verifier::external_body]
fn kmac256(key: &Vec<u8>, custom: &Vec<u8>, input: &Vec<u8>) -> (r: Vec<u8>)
    ensures
        r@ == kmac256_of(key@, custom@, input@),
        r@.len() == 32,
{
    let mut kmac = Kmac::v256(key.as_slice(), custom.as_slice());
    kmac.update(input.as_slice());
    let mut out = [0u8; 32];
    kmac.finalize(&mut out);
    out.to_vec()
}

/// Relies on tiny_keccak's Kmac::v128 (update, then finalize): the 16-byte
/// MAC is a pure function of the key, the customization string and the input.
#[verifier::external_body]
fn kmac128(key: &Vec<u8>, custom: &Vec<u8>, input: &Vec<u8>) -> (r: Vec<u8>)
    ensures
        r@ == kmac128_of(key@, custom@, input@),
        r@.len() == 16,
{
    let mut kmac = Kmac::v128(key.as_slice(), custom.as_slice());
    kmac.update(input.as_slice());
    let mut out = [0u8; 16];
    kmac.finalize(&mut out);
    out.to_vec()
}

// ---------------------------------------------------------------------------
// Zeroization
// ---------------------------------------------------------------------------

/// Relies on zeroize's Zeroize for byte slices: every byte is overwritten
/// with zero, in a way the compiler cannot elide.
#[verifier::external_body]
pub fn zeroize_bytes(buf: &mut Vec<u8>)
    ensures
        final(buf)@.len() == old(buf)@.len(),
        forall|i: int| 0 <= i < final(buf)@.len() ==> final(buf)@[i] == 0u8,
{
    buf.as_mut_slice().zeroize();
}

// ---------------------------------------------------------------------------
// Domain-separation strings
// ---------------------------------------------------------------------------

pub open spec fn spec_domain_channel_secret() -> Seq<u8> {
    seq![
        100u8, 101u8, 114u8, 105u8, 118u8, 101u8, 95u8, 99u8, 104u8, 97u8, 110u8, 110u8, 101u8,
        108u8, 95u8, 115u8, 101u8, 99u8, 114u8, 101u8, 116u8,
    ]
}

pub open spec fn spec_domain_subscription_key() -> Seq<u8> {
    seq![
        100u8, 101u8, 114u8, 105u8, 118u8, 101u8, 95u8, 115u8, 117u8, 98u8, 115u8, 99u8, 114u8,
        105u8, 112u8, 116u8, 105u8, 111u8, 110u8, 95u8, 107u8, 101u8, 121u8,
    ]
}

pub open spec fn spec_domain_picture_key() -> Seq<u8> {
    seq![
        100u8, 101u8, 114u8, 105u8, 118u8, 101u8, 95u8, 112u8, 105u8, 99u8, 116u8, 117u8, 114u8,
        101u8, 95u8, 107u8, 101u8, 121u8,
    ]
}

/// The ASCII bytes of the string naming the channel-secret derivation.
fn domain_channel_secret() -> (r: Vec<u8>)
    ensures
        r@ == spec_domain_channel_secret(),
{
    let mut r: Vec<u8> = Vec::new();
    r.push(100u8); r.push(101u8); r.push(114u8); r.push(105u8); r.push(118u8); r.push(101u8);
    r.push(95u8); r.push(99u8); r.push(104u8); r.push(97u8); r.push(110u8); r.push(110u8);
    r.push(101u8); r.push(108u8); r.push(95u8); r.push(115u8); r.push(101u8); r.push(99u8);
    r.push(114u8); r.push(101u8); r.push(116u8);
    assert(r@ =~= spec_domain_channel_secret());
    r
}

/// The ASCII bytes of the string naming the subscription-key derivation.
fn domain_subscription_key() -> (r: Vec<u8>)
    ensures
        r@ == spec_domain_subscription_key(),
{
    let mut r: Vec<u8> = Vec::new();
    r.push(100u8); r.push(101u8); r.push(114u8); r.push(105u8); r.push(118u8); r.push(101u8);
    r.push(95u8); r.push(115u8); r.push(117u8); r.push(98u8); r.push(115u8); r.push(99u8);
    r.push(114u8); r.push(105u8); r.push(112u8); r.push(116u8); r.push(105u8); r.push(111u8);
    r.push(110u8); r.push(95u8); r.push(107u8); r.push(101u8); r.push(121u8);
    assert(r@ =~= spec_domain_subscription_key());
    r
}

/// The ASCII bytes of the string naming the picture-key derivation.
fn domain_picture_key() -> (r: Vec<u8>)
    ensures
        r@ == spec_domain_picture_key(),
{
    let mut r: Vec<u8> = Vec::new();
    r.push(100u8); r.push(101u8); r.push(114u8); r.push(105u8); r.push(118u8); r.push(101u8);
    r.push(95u8); r.push(112u8); r.push(105u8); r.push(99u8); r.push(116u8); r.push(117u8);
    r.push(114u8); r.push(101u8); r.push(95u8); r.push(107u8); r.push(101u8); r.push(121u8);
    assert(r@ =~= spec_domain_picture_key());
    r
}

// ---------------------------------------------------------------------------
// Key derivation
// ---------------------------------------------------------------------------

/// The channel secret for a channel: KMAC256 of the channel id (little
/// endian) under the base channel secret, domain-separated.
pub open spec fn spec_derive_channel_secret(base: Seq<u8>, channel_id: u32) -> Seq<u8> {
    kmac256_of(base, spec_domain_channel_secret(), spec_u32_to_le_bytes(channel_id))
}

/// The per-decoder subscription key: KMAC128 of the decoder id (little
/// endian) under the base subscription secret, domain-separated.
pub open spec fn spec_derive_subscription_key(base: Seq<u8>, decoder_id: u32) -> Seq<u8> {
    kmac128_of(base, spec_domain_subscription_key(), spec_u32_to_le_bytes(decoder_id))
}

/// The per-frame picture key: KMAC128 of the timestamp followed by its
/// bitwise complement (both little endian) under the channel secret,
/// domain-separated.
pub open spec fn spec_derive_picture_key(channel_secret: Seq<u8>, timestamp: u64) -> Seq<u8> {
    kmac128_of(
        channel_secret,
        spec_domain_picture_key(),
        spec_u64_to_le_bytes(timestamp) + spec_u64_to_le_bytes(!timestamp),
    )
}

pub fn derive_channel_secret(base_channel_secret: &BaseChannelSecret, channel_id: u32) -> (r:
    ChannelSecret)
    ensures
        r.wf(),
        r.0@ == spec_derive_channel_secret(base_channel_secret.0@, channel_id),
{
    let domain = domain_channel_secret();
    let input = u32_to_le_bytes(channel_id);
    ChannelSecret(kmac256(&base_channel_secret.0, &domain, &input))
}

pub fn derive_subscription_key(
    base_subscription_secret: &BaseSubscriptionSecret,
    decoder_id: u32,
) -> (r: SubscriptionKey)
    ensures
        r.wf(),
        r.0@ == spec_derive_subscription_key(base_subscription_secret.0@, decoder_id),
{
    let domain = domain_subscription_key();
    let input = u32_to_le_bytes(decoder_id);
    SubscriptionKey(kmac128(&base_subscription_secret.0, &domain, &input))
}

pub fn derive_picture_key(channel_secret: &ChannelSecret, timestamp: u64) -> (r: PictureKey)
    ensures
        r.wf(),
        r.0@ == spec_derive_picture_key(channel_secret.0@, timestamp),
{
    let domain = domain_picture_key();
    let mut input = u64_to_le_bytes(timestamp);
    let complement = u64_to_le_bytes(!timestamp);
    push_bytes(&mut input, &complement);
    PictureKey(kmac128(&channel_secret.0, &domain, &input))
}

} // verus!
