use vstd::prelude::*;

verus! {

// An early, in-memory sketch of the subscription table: one optional
// subscription per standard channel, with a big-endian byte codec. The
// flash-backed store supersedes it; the types and their codec are kept for
// compatibility.

/// A channel subscription: the channel and its inclusive time window.
#[derive(Copy, Clone, PartialEq, Eq, Structural, Debug)]
pub struct Subscription {
    pub channel_id: u32,
    pub start: u64,
    pub end: u64,
}

/// The in-memory subscription table. Channel 0 does not need a subscription.
#[derive(PartialEq, Eq, Structural, Debug)]
pub struct Channels {
    pub channel_1: Option<Subscription>,
    pub channel_2: Option<Subscription>,
    pub channel_3: Option<Subscription>,
    pub channel_4: Option<Subscription>,
    pub channel_5: Option<Subscription>,
    pub channel_6: Option<Subscription>,
    pub channel_7: Option<Subscription>,
    pub channel_8: Option<Subscription>,
}

impl Default for Subscription {
    fn default() -> (r: Self)
        ensures
            r == (Subscription { channel_id: 0u32, start: 0u64, end: 0u64 }),
    {
        Subscription { channel_id: 0, start: 0, end: 0 }
    }
}

impl Channels {
    /// Stores the subscription under its channel id; channel 0 and ids
    /// beyond the table are dropped.
    pub fn update_subscriptions(&mut self, subscription: Subscription)
        ensures
            final(self).channel_1 == (if subscription.channel_id == 1 {
                Some(subscription)
            } else {
                old(self).channel_1
            }),
            final(self).channel_2 == (if subscription.channel_id == 2 {
                Some(subscription)
            } else {
                old(self).channel_2
            }),
            final(self).channel_3 == (if subscription.channel_id == 3 {
                Some(subscription)
            } else {
                old(self).channel_3
            }),
            final(self).channel_4 == (if subscription.channel_id == 4 {
                Some(subscription)
            } else {
                old(self).channel_4
            }),
            final(self).channel_5 == (if subscription.channel_id == 5 {
                Some(subscription)
            } else {
                old(self).channel_5
            }),
            final(self).channel_6 == (if subscription.channel_id == 6 {
                Some(subscription)
            } else {
                old(self).channel_6
            }),
            final(self).channel_7 == (if subscription.channel_id == 7 {
                Some(subscription)
            } else {
                old(self).channel_7
            }),
            final(self).channel_8 == (if subscription.channel_id == 8 {
                Some(subscription)
            } else {
                old(self).channel_8
            }),
    {
        match subscription.channel_id {
            0 => (),
            1 => self.channel_1 = Some(subscription),
            2 => self.channel_2 = Some(subscription),
            3 => self.channel_3 = Some(subscription),
            4 => self.channel_4 = Some(subscription),
            5 => self.channel_5 = Some(subscription),
            6 => self.channel_6 = Some(subscription),
            7 => self.channel_7 = Some(subscription),
            8 => self.channel_8 = Some(subscription),
            _ => (),
        }
    }
}

// ---------------------------------------------------------------------------
// Big-endian byte codec
// ---------------------------------------------------------------------------

pub open spec fn spec_u32_be(x: u32) -> Seq<u8> {
    seq![
        ((x >> 24) & 0xff) as u8,
        ((x >> 16) & 0xff) as u8,
        ((x >> 8) & 0xff) as u8,
        (x & 0xff) as u8,
    ]
}

pub open spec fn spec_u64_be(x: u64) -> Seq<u8> {
    seq![
        ((x >> 56) & 0xff) as u8,
        ((x >> 48) & 0xff) as u8,
        ((x >> 40) & 0xff) as u8,
        ((x >> 32) & 0xff) as u8,
        ((x >> 24) & 0xff) as u8,
        ((x >> 16) & 0xff) as u8,
        ((x >> 8) & 0xff) as u8,
        (x & 0xff) as u8,
    ]
}

pub open spec fn spec_u32_from_be(s: Seq<u8>) -> u32
    recommends
        s.len() == 4,
{
    ((s[0] as u32) << 24) | ((s[1] as u32) << 16) | ((s[2] as u32) << 8) | (s[3] as u32)
}

pub open spec fn spec_u64_from_be(s: Seq<u8>) -> u64
    recommends
        s.len() == 8,
{
    ((s[0] as u64) << 56) | ((s[1] as u64) << 48) | ((s[2] as u64) << 40) | ((s[3] as u64) << 32)
        | ((s[4] as u64) << 24) | ((s[5] as u64) << 16) | ((s[6] as u64) << 8) | (s[7] as u64)
}

pub proof fn lemma_u32_be_round_trip(x: u32)
    ensures
        spec_u32_from_be(spec_u32_be(x)) == x,
{
    let s = spec_u32_be(x);
    assert((((((x >> 24) & 0xff) as u8) as u32) << 24) | ((((x >> 16) & 0xff) as u8 as u32) << 16)
        | ((((x >> 8) & 0xff) as u8 as u32) << 8) | (((x & 0xff) as u8) as u32) == x)
        by (bit_vector);
}

pub proof fn lemma_u64_be_round_trip(x: u64)
    ensures
        spec_u64_from_be(spec_u64_be(x)) == x,
{
    let s = spec_u64_be(x);
    assert((((((x >> 56) & 0xff) as u8) as u64) << 56) | ((((x >> 48) & 0xff) as u8 as u64) << 48)
        | ((((x >> 40) & 0xff) as u8 as u64) << 40) | ((((x >> 32) & 0xff) as u8 as u64) << 32)
        | ((((x >> 24) & 0xff) as u8 as u64) << 24) | ((((x >> 16) & 0xff) as u8 as u64) << 16)
        | ((((x >> 8) & 0xff) as u8 as u64) << 8) | (((x & 0xff) as u8) as u64) == x)
        by (bit_vector);
}

/// A type with a fixed-size byte representation.
pub trait BytesSerializable<const L: usize> where Self: core::marker::Sized {
    fn to_bytes(&self) -> (r: Vec<u8>)
        ensures
            r@.len() == L,
    ;

    fn from_bytes(bytes: &Vec<u8>) -> (r: Self)
        requires
            bytes@.len() == L,
    ;
}

/// Follows the format:
/// \[32-bit channel ID]\[64-bit start timestamp]\[64-bit end timestamp]
/// or:
/// \[4 bytes]\[8 bytes]\[8 bytes]
/// with every integer big-endian.
impl BytesSerializable<20> for Subscription {
    fn to_bytes(&self) -> (r: Vec<u8>)
        ensures
            r@.len() == 20,
            r@ == spec_u32_be(self.channel_id) + spec_u64_be(self.start) + spec_u64_be(self.end),
    {
        let mut r: Vec<u8> = Vec::new();
        r.push(((self.channel_id >> 24) & 0xff) as u8);
        r.push(((self.channel_id >> 16) & 0xff) as u8);
        r.push(((self.channel_id >> 8) & 0xff) as u8);
        r.push((self.channel_id & 0xff) as u8);
        r.push(((self.start >> 56) & 0xff) as u8);
        r.push(((self.start >> 48) & 0xff) as u8);
        r.push(((self.start >> 40) & 0xff) as u8);
        r.push(((self.start >> 32) & 0xff) as u8);
        r.push(((self.start >> 24) & 0xff) as u8);
        r.push(((self.start >> 16) & 0xff) as u8);
        r.push(((self.start >> 8) & 0xff) as u8);
        r.push((self.start & 0xff) as u8);
        r.push(((self.end >> 56) & 0xff) as u8);
        r.push(((self.end >> 48) & 0xff) as u8);
        r.push(((self.end >> 40) & 0xff) as u8);
        r.push(((self.end >> 32) & 0xff) as u8);
        r.push(((self.end >> 24) & 0xff) as u8);
        r.push(((self.end >> 16) & 0xff) as u8);
        r.push(((self.end >> 8) & 0xff) as u8);
        r.push((self.end & 0xff) as u8);
        assert(r@ =~= spec_u32_be(self.channel_id) + spec_u64_be(self.start) + spec_u64_be(
            self.end,
        ));
        r
    }

    fn from_bytes(bytes: &Vec<u8>) -> (r: Self)
        ensures
            r.channel_id == spec_u32_from_be(bytes@.subrange(0, 4)),
            r.start == spec_u64_from_be(bytes@.subrange(4, 12)),
            r.end == spec_u64_from_be(bytes@.subrange(12, 20)),
    {
        let channel_id = ((bytes[0] as u32) << 24) | ((bytes[1] as u32) << 16) | ((bytes[2]
            as u32) << 8) | (bytes[3] as u32);
        let start = ((bytes[4] as u64) << 56) | ((bytes[5] as u64) << 48) | ((bytes[6] as u64)
            << 40) | ((bytes[7] as u64) << 32) | ((bytes[8] as u64) << 24) | ((bytes[9] as u64)
            << 16) | ((bytes[10] as u64) << 8) | (bytes[11] as u64);
        let end = ((bytes[12] as u64) << 56) | ((bytes[13] as u64) << 48) | ((bytes[14] as u64)
            << 40) | ((bytes[15] as u64) << 32) | ((bytes[16] as u64) << 24) | ((bytes[17]
            as u64) << 16) | ((bytes[18] as u64) << 8) | (bytes[19] as u64);
        Subscription { channel_id, start, end }
    }
}

/// The byte codec round-trips: parsing a serialized subscription gives back
/// the original value.
pub proof fn lemma_subscription_bytes_round_trip(sub: Subscription)
    ensures
        ({
            let b = spec_u32_be(sub.channel_id) + spec_u64_be(sub.start) + spec_u64_be(sub.end);
            &&& spec_u32_from_be(b.subrange(0, 4)) == sub.channel_id
            &&& spec_u64_from_be(b.subrange(4, 12)) == sub.start
            &&& spec_u64_from_be(b.subrange(12, 20)) == sub.end
        }),
{
    let b = spec_u32_be(sub.channel_id) + spec_u64_be(sub.start) + spec_u64_be(sub.end);
    assert(b.subrange(0, 4) =~= spec_u32_be(sub.channel_id));
    assert(b.subrange(4, 12) =~= spec_u64_be(sub.start));
    assert(b.subrange(12, 20) =~= spec_u64_be(sub.end));
    lemma_u32_be_round_trip(sub.channel_id);
    lemma_u64_be_round_trip(sub.start);
    lemma_u64_be_round_trip(sub.end);
}

} // verus!
