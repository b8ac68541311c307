use vstd::prelude::*;

use vstd::bytes::{
    lemma_auto_spec_u32_to_from_le_bytes, lemma_auto_spec_u64_to_from_le_bytes,
    spec_u32_from_le_bytes, spec_u32_to_le_bytes, spec_u64_from_le_bytes, spec_u64_to_le_bytes,
    u32_from_le_bytes, u32_to_le_bytes, u64_from_le_bytes, u64_to_le_bytes,
};
use vstd::slice::{slice_subrange, slice_to_vec};

use crate::constants::{LEN_STANDARD_CHANNELS, LEN_STORED_SUBSCRIPTION, MAX_LEN_PICTURE};
use crate::types::{ChannelSecret, DecryptedFrame, StoredSubscription, SubscriptionInfo};

verus! {

// ---------------------------------------------------------------------------
// Small byte-vector helpers
// ---------------------------------------------------------------------------

/// Appends a copy of `src` to `dst`.
pub fn push_bytes(dst: &mut Vec<u8>, src: &Vec<u8>)
    ensures
        final(dst)@ == old(dst)@ + src@,
{
    let mut i: usize = 0;
    while i < src.len()
        invariant
            i <= src@.len(),
            dst@ == old(dst)@ + src@.subrange(0, i as int),
        decreases src@.len() - i,
    {
        dst.push(src[i]);
        assert(dst@ =~= old(dst)@ + src@.subrange(0, i + 1));
        i += 1;
    }
    assert(src@.subrange(0, src@.len() as int) =~= src@);
}

/// Copies the byte range `[i, j)` of `b` into a fresh vector.
pub fn subvec(b: &Vec<u8>, i: usize, j: usize) -> (r: Vec<u8>)
    requires
        i <= j <= b@.len(),
    ensures
        r@ == b@.subrange(i as int, j as int),
{
    slice_to_vec(slice_subrange(b.as_slice(), i, j))
}

/// Reads a little-endian u32 at byte offset `off`.
pub fn read_u32_le(b: &Vec<u8>, off: usize) -> (r: u32)
    requires
        off + 4 <= b@.len(),
    ensures
        r == spec_u32_from_le_bytes(b@.subrange(off as int, off as int + 4)),
{
    let _len = b.len();
    u32_from_le_bytes(slice_subrange(b.as_slice(), off, off + 4))
}

/// Reads a little-endian u64 at byte offset `off`.
pub fn read_u64_le(b: &Vec<u8>, off: usize) -> (r: u64)
    requires
        off + 8 <= b@.len(),
    ensures
        r == spec_u64_from_le_bytes(b@.subrange(off as int, off as int + 8)),
{
    let _len = b.len();
    u64_from_le_bytes(slice_subrange(b.as_slice(), off, off + 8))
}

/// Appends the little-endian encoding of a u32.
pub fn push_u32_le(dst: &mut Vec<u8>, x: u32)
    ensures
        final(dst)@ == old(dst)@ + spec_u32_to_le_bytes(x),
{
    let le = u32_to_le_bytes(x);
    push_bytes(dst, &le);
}

/// Appends the little-endian encoding of a u64.
pub fn push_u64_le(dst: &mut Vec<u8>, x: u64)
    ensures
        final(dst)@ == old(dst)@ + spec_u64_to_le_bytes(x),
{
    let le = u64_to_le_bytes(x);
    push_bytes(dst, &le);
}

// ---------------------------------------------------------------------------
// Complement rows
// ---------------------------------------------------------------------------

/// The bitwise complement of a byte sequence.
pub open spec fn spec_complement(s: Seq<u8>) -> Seq<u8> {
    Seq::new(s.len(), |i: int| !s[i])
}

/// Returns true if the 16 bytes of `a` are the bitwise complement of `b`.
pub fn check_complement_16b(a: &Vec<u8>, b: &Vec<u8>) -> (r: bool)
    requires
        a@.len() == 16,
        b@.len() == 16,
    ensures
        r <==> a@ == spec_complement(b@),
{
    let mut i: usize = 0;
    while i < 16
        invariant
            i <= 16,
            a@.len() == 16,
            b@.len() == 16,
            forall|j: int| 0 <= j < i ==> a@[j] == !b@[j],
        decreases 16 - i,
    {
        if a[i] != !b[i] {
            assert(a@[i as int] != spec_complement(b@)[i as int]);
            return false;
        }
        i += 1;
    }
    assert(a@ =~= spec_complement(b@));
    true
}

/// Returns the bitwise complement of the given 16 bytes.
pub fn make_complement_16b(a: &Vec<u8>) -> (b: Vec<u8>)
    requires
        a@.len() == 16,
    ensures
        b@ == spec_complement(a@),
{
    let mut b: Vec<u8> = Vec::new();
    let mut i: usize = 0;
    while i < 16
        invariant
            i <= 16,
            a@.len() == 16,
            b@.len() == i,
            forall|j: int| 0 <= j < i ==> b@[j] == !a@[j],
        decreases 16 - i,
    {
        b.push(!a[i]);
        i += 1;
    }
    assert(b@ =~= spec_complement(a@));
    b
}

/// Complementing twice gives back the original sequence.
pub proof fn lemma_complement_involution(s: Seq<u8>)
    ensures
        spec_complement(spec_complement(s)) == s,
{
    assert forall|i: int| 0 <= i < s.len() implies spec_complement(spec_complement(s))[i]
        == s[i] by {
        let x = s[i];
        assert(!(!x) == x) by (bit_vector);
    }
    assert(spec_complement(spec_complement(s)) =~= s);
}

// ---------------------------------------------------------------------------
// Stored subscription <-> bytes
// ---------------------------------------------------------------------------

/// The fixed little-endian layout of a stored subscription:
/// channel_id(4) | start(8) | end(8) | channel_secret(32).
pub open spec fn spec_stored_sub_bytes(ch: u32, start: u64, end: u64, secret: Seq<u8>) -> Seq<u8> {
    spec_u32_to_le_bytes(ch) + spec_u64_to_le_bytes(start) + spec_u64_to_le_bytes(end) + secret
}

pub open spec fn spec_sub_bytes_channel(b: Seq<u8>) -> u32 {
    spec_u32_from_le_bytes(b.subrange(0, 4))
}

pub open spec fn spec_sub_bytes_start(b: Seq<u8>) -> u64 {
    spec_u64_from_le_bytes(b.subrange(4, 12))
}

pub open spec fn spec_sub_bytes_end(b: Seq<u8>) -> u64 {
    spec_u64_from_le_bytes(b.subrange(12, 20))
}

pub open spec fn spec_sub_bytes_secret(b: Seq<u8>) -> Seq<u8> {
    b.subrange(20, 52)
}

/// Encoding a stored subscription and reading the fields back gives the
/// original values.
pub proof fn lemma_stored_sub_round_trip(ch: u32, start: u64, end: u64, secret: Seq<u8>)
    requires
        secret.len() == 32,
    ensures
        spec_stored_sub_bytes(ch, start, end, secret).len() == 52,
        spec_sub_bytes_channel(spec_stored_sub_bytes(ch, start, end, secret)) == ch,
        spec_sub_bytes_start(spec_stored_sub_bytes(ch, start, end, secret)) == start,
        spec_sub_bytes_end(spec_stored_sub_bytes(ch, start, end, secret)) == end,
        spec_sub_bytes_secret(spec_stored_sub_bytes(ch, start, end, secret)) == secret,
{
    lemma_auto_spec_u32_to_from_le_bytes();
    lemma_auto_spec_u64_to_from_le_bytes();
    let b = spec_stored_sub_bytes(ch, start, end, secret);
    assert(b.subrange(0, 4) =~= spec_u32_to_le_bytes(ch));
    assert(b.subrange(4, 12) =~= spec_u64_to_le_bytes(start));
    assert(b.subrange(12, 20) =~= spec_u64_to_le_bytes(end));
    assert(b.subrange(20, 52) =~= secret);
}

/// Serializes a stored subscription into its 52-byte wire layout.
pub fn encode_stored_subscription(sub: &StoredSubscription) -> (r: Vec<u8>)
    requires
        sub.wf(),
    ensures
        r@ == spec_stored_sub_bytes(
            sub.info.channel_id,
            sub.info.start,
            sub.info.end,
            sub.channel_secret.0@,
        ),
        r@.len() == LEN_STORED_SUBSCRIPTION,
{
    proof {
        lemma_stored_sub_round_trip(
            sub.info.channel_id,
            sub.info.start,
            sub.info.end,
            sub.channel_secret.0@,
        );
    }
    let mut r: Vec<u8> = Vec::new();
    push_u32_le(&mut r, sub.info.channel_id);
    push_u64_le(&mut r, sub.info.start);
    push_u64_le(&mut r, sub.info.end);
    push_bytes(&mut r, &sub.channel_secret.0);
    r
}

/// Parses the 52-byte wire layout of a stored subscription.
pub fn parse_stored_subscription(b: &Vec<u8>) -> (sub: StoredSubscription)
    requires
        b@.len() == LEN_STORED_SUBSCRIPTION,
    ensures
        sub.wf(),
        sub.info.channel_id == spec_sub_bytes_channel(b@),
        sub.info.start == spec_sub_bytes_start(b@),
        sub.info.end == spec_sub_bytes_end(b@),
        sub.channel_secret.0@ == spec_sub_bytes_secret(b@),
{
    let channel_id = read_u32_le(b, 0);
    let start = read_u64_le(b, 4);
    let end = read_u64_le(b, 12);
    let secret = subvec(b, 20, 52);
    StoredSubscription {
        info: SubscriptionInfo { channel_id, start, end },
        channel_secret: ChannelSecret(secret),
    }
}

// ---------------------------------------------------------------------------
// Decrypted frame <-> bytes
// ---------------------------------------------------------------------------

/// The fixed little-endian layout of the decrypted outer frame:
/// channel_id(4) | timestamp(8) | picture_length(1) | encrypted_picture(96).
pub open spec fn spec_frame_bytes(ch: u32, ts: u64, pic_len: u8, inner: Seq<u8>) -> Seq<u8> {
    spec_u32_to_le_bytes(ch) + spec_u64_to_le_bytes(ts) + seq![pic_len] + inner
}

pub open spec fn spec_frame_bytes_channel(b: Seq<u8>) -> u32 {
    spec_u32_from_le_bytes(b.subrange(0, 4))
}

pub open spec fn spec_frame_bytes_timestamp(b: Seq<u8>) -> u64 {
    spec_u64_from_le_bytes(b.subrange(4, 12))
}

pub open spec fn spec_frame_bytes_pic_len(b: Seq<u8>) -> u8 {
    b[12]
}

pub open spec fn spec_frame_bytes_inner(b: Seq<u8>) -> Seq<u8> {
    b.subrange(13, 109)
}

/// Encoding a decrypted frame and reading the fields back gives the original
/// values.
pub proof fn lemma_frame_round_trip(ch: u32, ts: u64, pic_len: u8, inner: Seq<u8>)
    requires
        inner.len() == 96,
    ensures
        spec_frame_bytes(ch, ts, pic_len, inner).len() == 109,
        spec_frame_bytes_channel(spec_frame_bytes(ch, ts, pic_len, inner)) == ch,
        spec_frame_bytes_timestamp(spec_frame_bytes(ch, ts, pic_len, inner)) == ts,
        spec_frame_bytes_pic_len(spec_frame_bytes(ch, ts, pic_len, inner)) == pic_len,
        spec_frame_bytes_inner(spec_frame_bytes(ch, ts, pic_len, inner)) == inner,
{
    lemma_auto_spec_u32_to_from_le_bytes();
    lemma_auto_spec_u64_to_from_le_bytes();
    let b = spec_frame_bytes(ch, ts, pic_len, inner);
    assert(b.subrange(0, 4) =~= spec_u32_to_le_bytes(ch));
    assert(b.subrange(4, 12) =~= spec_u64_to_le_bytes(ts));
    assert(b[12] == pic_len);
    assert(b.subrange(13, 109) =~= inner);
}

/// Serializes a decrypted frame into its 109-byte layout.
pub fn encode_decrypted_frame(df: &DecryptedFrame) -> (r: Vec<u8>)
    requires
        df.wf(),
    ensures
        r@ == spec_frame_bytes(df.channel_id, df.timestamp, df.picture_length,
            df.encrypted_picture.0@),
        r@.len() == 109,
{
    proof {
        lemma_frame_round_trip(df.channel_id, df.timestamp, df.picture_length,
            df.encrypted_picture.0@);
    }
    let mut r: Vec<u8> = Vec::new();
    push_u32_le(&mut r, df.channel_id);
    push_u64_le(&mut r, df.timestamp);
    r.push(df.picture_length);
    assert(r@ =~= spec_u32_to_le_bytes(df.channel_id) + spec_u64_to_le_bytes(df.timestamp)
        + seq![df.picture_length]);
    push_bytes(&mut r, &df.encrypted_picture.0);
    assert(r@ =~= spec_frame_bytes(df.channel_id, df.timestamp, df.picture_length,
        df.encrypted_picture.0@));
    r
}

/// Parses the 109-byte layout of a decrypted frame. Performs no validation of
/// the metadata.
pub fn parse_decrypted_frame(b: &Vec<u8>) -> (df: DecryptedFrame)
    requires
        b@.len() == 109,
    ensures
        df.wf(),
        df.channel_id == spec_frame_bytes_channel(b@),
        df.timestamp == spec_frame_bytes_timestamp(b@),
        df.picture_length == spec_frame_bytes_pic_len(b@),
        df.encrypted_picture.0@ == spec_frame_bytes_inner(b@),
{
    let channel_id = read_u32_le(b, 0);
    let timestamp = read_u64_le(b, 4);
    let picture_length = b[12];
    let inner = subvec(b, 13, 109);
    DecryptedFrame {
        channel_id,
        timestamp,
        picture_length,
        encrypted_picture: crate::types::EncryptedPicture(inner),
    }
}

// ---------------------------------------------------------------------------
// Picture padding
// ---------------------------------------------------------------------------

/// A picture padded with zero bytes up to the fixed picture buffer size.
pub open spec fn spec_padded_picture(data: Seq<u8>) -> Seq<u8> {
    data + Seq::new((MAX_LEN_PICTURE - data.len()) as nat, |i: int| 0u8)
}

/// Pads picture data with zeros up to the fixed picture buffer size.
pub fn pad_picture(data: &Vec<u8>) -> (r: Vec<u8>)
    requires
        data@.len() <= MAX_LEN_PICTURE,
    ensures
        r@ == spec_padded_picture(data@),
        r@.len() == MAX_LEN_PICTURE,
        r@.subrange(0, data@.len() as int) == data@,
{
    let mut r: Vec<u8> = Vec::new();
    push_bytes(&mut r, data);
    while r.len() < MAX_LEN_PICTURE
        invariant
            data@.len() <= r@.len() <= MAX_LEN_PICTURE,
            r@.subrange(0, data@.len() as int) =~= data@,
            forall|i: int| data@.len() <= i < r@.len() ==> r@[i] == 0u8,
        decreases MAX_LEN_PICTURE - r@.len(),
    {
        r.push(0u8);
        assert(r@.subrange(0, data@.len() as int) =~= data@);
    }
    assert(r@ =~= spec_padded_picture(data@));
    r
}

} // verus!

verus! {

// ---------------------------------------------------------------------------
// Subscription info list <-> bytes
// ---------------------------------------------------------------------------

/// The 20-byte wire layout of one subscription info:
/// channel_id(4) | start(8) | end(8), all little endian.
pub open spec fn spec_info_bytes(info: SubscriptionInfo) -> Seq<u8> {
    spec_u32_to_le_bytes(info.channel_id) + spec_u64_to_le_bytes(info.start)
        + spec_u64_to_le_bytes(info.end)
}

/// The concatenated wire layout of a sequence of subscription infos.
pub open spec fn spec_infos_bytes(infos: Seq<SubscriptionInfo>) -> Seq<u8>
    decreases infos.len(),
{
    if infos.len() == 0 {
        Seq::empty()
    } else {
        spec_infos_bytes(infos.drop_last()) + spec_info_bytes(infos.last())
    }
}

pub proof fn lemma_infos_bytes_len(infos: Seq<SubscriptionInfo>)
    ensures
        spec_infos_bytes(infos).len() == 20 * infos.len(),
    decreases infos.len(),
{
    lemma_auto_spec_u32_to_from_le_bytes();
    lemma_auto_spec_u64_to_from_le_bytes();
    if infos.len() > 0 {
        lemma_infos_bytes_len(infos.drop_last());
    }
}

/// The subscription info encoded at position `k` of a list payload.
pub open spec fn spec_info_at(b: Seq<u8>, k: int) -> SubscriptionInfo {
    SubscriptionInfo {
        channel_id: spec_u32_from_le_bytes(b.subrange(4 + 20 * k, 8 + 20 * k)),
        start: spec_u64_from_le_bytes(b.subrange(8 + 20 * k, 16 + 20 * k)),
        end: spec_u64_from_le_bytes(b.subrange(16 + 20 * k, 24 + 20 * k)),
    }
}

/// Appends the 20-byte layout of one subscription info.
pub fn push_info(dst: &mut Vec<u8>, info: &SubscriptionInfo)
    ensures
        final(dst)@ == old(dst)@ + spec_info_bytes(*info),
{
    push_u32_le(dst, info.channel_id);
    push_u64_le(dst, info.start);
    push_u64_le(dst, info.end);
    assert(dst@ =~= old(dst)@ + spec_info_bytes(*info));
}

impl crate::types::SubscriptionInfoList {
    /// Serializes the list for the host: the number of installed channels,
    /// then that many info triples, all little endian.
    pub fn encode(&self) -> (r: Vec<u8>)
        requires
            self.wf(),
        ensures
            r@ == spec_u32_to_le_bytes(self.num_sub_channels) + spec_infos_bytes(
                self.subscriptions@.subrange(0, self.num_sub_channels as int),
            ),
            r@.len() == 4 + 20 * self.num_sub_channels,
    {
        proof {
            lemma_auto_spec_u32_to_from_le_bytes();
        }
        let mut r: Vec<u8> = Vec::new();
        push_u32_le(&mut r, self.num_sub_channels);
        let mut i: usize = 0;
        while i < self.num_sub_channels as usize
            invariant
                self.wf(),
                i <= self.num_sub_channels,
                r@ == spec_u32_to_le_bytes(self.num_sub_channels) + spec_infos_bytes(
                    self.subscriptions@.subrange(0, i as int),
                ),
            decreases self.num_sub_channels - i,
        {
            let ghost prefix = self.subscriptions@.subrange(0, i as int);
            push_info(&mut r, &self.subscriptions[i]);
            proof {
                let prefix1 = self.subscriptions@.subrange(0, i + 1);
                assert(prefix1.drop_last() =~= prefix);
                assert(prefix1.last() == self.subscriptions@[i as int]);
            }
            i += 1;
        }
        proof {
            lemma_infos_bytes_len(self.subscriptions@.subrange(0, self.num_sub_channels as int));
        }
        r
    }

    /// Parses a list payload from the host side. Fails unless the byte count
    /// matches the announced number of channels and that number is within
    /// the fixed list size.
    pub fn decode(bytes: &Vec<u8>) -> (r: Result<crate::types::SubscriptionInfoList, ()>)
        ensures
            ({
                let ok = bytes@.len() >= 4 && spec_u32_from_le_bytes(bytes@.subrange(0, 4))
                    <= LEN_STANDARD_CHANNELS && bytes@.len() == 4 + 20 * spec_u32_from_le_bytes(
                    bytes@.subrange(0, 4),
                );
                match r {
                    Ok(l) => {
                        &&& ok
                        &&& l.wf()
                        &&& l.num_sub_channels == spec_u32_from_le_bytes(bytes@.subrange(0, 4))
                        &&& forall|k: int|
                            0 <= k < l.num_sub_channels ==> l.subscriptions@[k] == spec_info_at(
                                bytes@,
                                k,
                            )
                    },
                    Err(_) => !ok,
                }
            }),
    {
        if bytes.len() < 4 {
            return Err(());
        }
        let num_sub_channels = read_u32_le(bytes, 0);
        if num_sub_channels > LEN_STANDARD_CHANNELS as u32 {
            return Err(());
        }
        if bytes.len() != 4 + 20 * (num_sub_channels as usize) {
            return Err(());
        }
        let mut subscriptions: Vec<SubscriptionInfo> = Vec::new();
        let mut k: usize = 0;
        while k < num_sub_channels as usize
            invariant
                bytes@.len() == 4 + 20 * num_sub_channels,
                k <= num_sub_channels <= LEN_STANDARD_CHANNELS,
                subscriptions@.len() == k,
                forall|j: int| 0 <= j < k ==> subscriptions@[j] == spec_info_at(bytes@, j),
            decreases num_sub_channels - k,
        {
            let channel_id = read_u32_le(bytes, 4 + 20 * k);
            let start = read_u64_le(bytes, 8 + 20 * k);
            let end = read_u64_le(bytes, 16 + 20 * k);
            subscriptions.push(SubscriptionInfo { channel_id, start, end });
            k += 1;
        }
        while subscriptions.len() < LEN_STANDARD_CHANNELS
            invariant
                num_sub_channels <= LEN_STANDARD_CHANNELS,
                num_sub_channels <= subscriptions@.len() <= LEN_STANDARD_CHANNELS,
                forall|j: int|
                    0 <= j < num_sub_channels ==> subscriptions@[j] == spec_info_at(bytes@, j),
            decreases LEN_STANDARD_CHANNELS - subscriptions@.len(),
        {
            subscriptions.push(SubscriptionInfo { channel_id: 0, start: 0, end: 0 });
        }
        Ok(crate::types::SubscriptionInfoList { num_sub_channels, subscriptions })
    }
}

} // verus!
