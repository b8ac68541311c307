use vstd::prelude::*;

use crate::ascon::{aead_open, decrypt_ascon};
use crate::codec::{
    spec_frame_bytes, spec_frame_bytes_channel, spec_frame_bytes_inner, spec_frame_bytes_pic_len,
    spec_frame_bytes_timestamp, spec_padded_picture,
};
use crate::constants::{LEN_DECRYPTED_FRAME, MAX_LEN_PICTURE};
use crate::crypto::{
    derive_picture_key, spec_derive_channel_secret, spec_derive_picture_key, zeroize_bytes,
};
use crate::subscription::{
    first_match, get_channel_subscription, slot_bytes, slot_end, slot_secret, slot_start, Flash,
};
use crate::types::{
    DecryptedFrame, EncryptedFrame, FrameKey, Picture, SizedPicture, Timestamp,
};

verus! {

// ---------------------------------------------------------------------------
// Outer decrypt
// ---------------------------------------------------------------------------

/// Decrypts the outer frame and returns a DecryptedFrame.
/// No metadata validation is performed beyond the picture-length bound.
pub fn decrypt_frame(frame_key: &FrameKey, enc_frame: &EncryptedFrame) -> (r: Result<
    DecryptedFrame,
    (),
>)
    requires
        frame_key.wf(),
        enc_frame.wf(),
    ensures
        match r {
            Ok(df) => {
                &&& aead_open(frame_key.0@, enc_frame.0@) is Some
                &&& df.wf()
                &&& df.channel_id == spec_frame_bytes_channel(
                    aead_open(frame_key.0@, enc_frame.0@)->Some_0,
                )
                &&& df.timestamp == spec_frame_bytes_timestamp(
                    aead_open(frame_key.0@, enc_frame.0@)->Some_0,
                )
                &&& df.picture_length == spec_frame_bytes_pic_len(
                    aead_open(frame_key.0@, enc_frame.0@)->Some_0,
                )
                &&& df.picture_length <= MAX_LEN_PICTURE
                &&& df.encrypted_picture.0@ == spec_frame_bytes_inner(
                    aead_open(frame_key.0@, enc_frame.0@)->Some_0,
                )
            },
            Err(_) => aead_open(frame_key.0@, enc_frame.0@) is None || spec_frame_bytes_pic_len(
                aead_open(frame_key.0@, enc_frame.0@)->Some_0,
            ) > MAX_LEN_PICTURE,
        },
{
    let dec_frame_bytes = match decrypt_ascon(&enc_frame.0, &frame_key.0) {
        Ok(p) => p,
        Err(_) => {
            return Err(());
        },
    };
    assert(dec_frame_bytes@.len() == LEN_DECRYPTED_FRAME);
    let dec_frame = crate::codec::parse_decrypted_frame(&dec_frame_bytes);
    if dec_frame.picture_length as usize > MAX_LEN_PICTURE {
        return Err(());
    }
    Ok(dec_frame)
}

// ---------------------------------------------------------------------------
// Validation and inner decrypt
// ---------------------------------------------------------------------------

/// Whether a frame for `channel_id` at timestamp `ts` passes all validity
/// checks against the store and the monotonic timestamp state: a
/// subscription for the channel is installed, `ts` lies inside its window,
/// and `ts` is strictly beyond the last accepted timestamp.
pub open spec fn spec_frame_accepted(flash: Seq<u8>, last_ts: u64, channel_id: u32, ts: u64)
    -> bool {
    &&& first_match(flash, channel_id) is Some
    &&& slot_start(slot_bytes(flash, first_match(flash, channel_id)->Some_0)) <= ts
    &&& ts <= slot_end(slot_bytes(flash, first_match(flash, channel_id)->Some_0))
    &&& ts > last_ts
}

/// Validates the metadata of the decrypted frame and decrypts the picture.
/// The window and monotonicity checks are each performed three times, as a
/// fault-injection countermeasure; the timestamp is committed only after
/// every check has passed, and before the inner decrypt.
pub fn validate_and_decrypt_picture(
    flash: &Flash,
    timestamp: &mut Timestamp,
    dec_frame: &DecryptedFrame,
) -> (r: Result<SizedPicture, ()>)
    requires
        flash.wf(),
        dec_frame.wf(),
        dec_frame.picture_length <= MAX_LEN_PICTURE,
    ensures
        ({
            let flashv = flash.bytes@;
            let ch = dec_frame.channel_id;
            let ts = dec_frame.timestamp;
            let accepted = spec_frame_accepted(flashv, old(timestamp).0, ch, ts);
            let secret = slot_secret(slot_bytes(flashv, first_match(flashv, ch)->Some_0));
            &&& match r {
                Ok(pic) => {
                    &&& accepted
                    &&& final(timestamp).0 == ts
                    &&& pic.wf()
                    &&& pic.picture_length == dec_frame.picture_length
                    &&& aead_open(
                        spec_derive_picture_key(secret, ts),
                        dec_frame.encrypted_picture.0@,
                    ) == Some(pic.picture.0@)
                },
                Err(_) => {
                    ||| (!accepted && final(timestamp).0 == old(timestamp).0)
                    ||| (accepted && final(timestamp).0 == ts && aead_open(
                        spec_derive_picture_key(secret, ts),
                        dec_frame.encrypted_picture.0@,
                    ) is None)
                },
            }
            &&& !accepted ==> r is Err && final(timestamp).0 == old(timestamp).0
        }),
{
    // Get the subscription for the channel.
    let mut subscription = match get_channel_subscription(flash, dec_frame.channel_id) {
        Ok(sub) => sub,
        Err(_) => {
            return Err(());
        },
    };
    // Repeat the window and monotonicity checks, so that a single skipped
    // branch cannot bypass them.
    let mut n: usize = 0;
    while n < 3
        invariant
            timestamp.0 == old(timestamp).0,
            first_match(flash.bytes@, dec_frame.channel_id) is Some,
            subscription.info == crate::subscription::slot_info(
                slot_bytes(flash.bytes@, first_match(flash.bytes@, dec_frame.channel_id)->Some_0),
            ),
            subscription.wf(),
            subscription.channel_secret.0@ == slot_secret(
                slot_bytes(flash.bytes@, first_match(flash.bytes@, dec_frame.channel_id)->Some_0),
            ),
            n >= 1 ==> {
                &&& subscription.info.start <= dec_frame.timestamp <= subscription.info.end
                &&& dec_frame.timestamp > timestamp.0
            },
        decreases 3 - n,
    {
        // Ensure the timestamp is within the subscription range.
        if dec_frame.timestamp < subscription.info.start || dec_frame.timestamp
            > subscription.info.end {
            return Err(());
        }
        // Ensure the timestamp is greater than the last seen timestamp.
        if dec_frame.timestamp <= timestamp.0 {
            return Err(());
        }
        n += 1;
    }
    // At this point all the metadata is validated: commit the timestamp.
    timestamp.0 = dec_frame.timestamp;
    // Derive the picture key and scrub the channel secret.
    let mut picture_key = derive_picture_key(&subscription.channel_secret, dec_frame.timestamp);
    zeroize_bytes(&mut subscription.channel_secret.0);
    // Decrypt the picture.
    let dec_picture = decrypt_ascon(&dec_frame.encrypted_picture.0, &picture_key.0);
    zeroize_bytes(&mut picture_key.0);
    match dec_picture {
        Ok(dec_picture_bytes) => {
            assert(dec_picture_bytes@.len() == MAX_LEN_PICTURE);
            Ok(
                SizedPicture {
                    picture_length: dec_frame.picture_length,
                    picture: Picture(dec_picture_bytes),
                },
            )
        },
        Err(_) => Err(()),
    }
}

// ---------------------------------------------------------------------------
// Laws of the decode pipeline
// ---------------------------------------------------------------------------

/// Monotonicity: once a frame at timestamp `t1` has been accepted, no frame
/// with a timestamp at or below `t1` passes validation, on any channel.
pub proof fn lemma_monotonicity(flash: Seq<u8>, t1: u64, channel_id: u32, t2: u64)
    requires
        t2 <= t1,
    ensures
        !spec_frame_accepted(flash, t1, channel_id, t2),
{
}

/// Window enforcement: a frame whose timestamp lies outside the window of
/// the channel's installed subscription does not pass validation, whatever
/// the monotonic state.
pub proof fn lemma_window(flash: Seq<u8>, last_ts: u64, channel_id: u32, ts: u64)
    requires
        first_match(flash, channel_id) is Some,
        ts < slot_start(slot_bytes(flash, first_match(flash, channel_id)->Some_0)) || ts
            > slot_end(slot_bytes(flash, first_match(flash, channel_id)->Some_0)),
    ensures
        !spec_frame_accepted(flash, last_ts, channel_id, ts),
{
}

/// Round trip: a frame encoded for `(channel_id, ts, picture)` under the
/// deployment secrets decodes back to `picture` on a decoder that has a
/// subscription for the channel derived from the same secrets, whose window
/// contains `ts`, and whose monotonic timestamp lies below `ts`. Under these
/// premises the frame passes validation, the outer layer parses to the
/// encoded metadata, and the inner layer opens to the zero-padded picture
/// under the picture key the pipeline derives.
pub proof fn lemma_decode_round_trip(
    base_channel_secret: Seq<u8>,
    frame_key: Seq<u8>,
    flash: Seq<u8>,
    last_ts: u64,
    channel_id: u32,
    ts: u64,
    picture: Seq<u8>,
    blob: Seq<u8>,
    inner: Seq<u8>,
)
    requires
        picture.len() <= MAX_LEN_PICTURE,
        inner.len() == 96,
        aead_open(frame_key, blob) == Some(
            spec_frame_bytes(channel_id, ts, picture.len() as u8, inner),
        ),
        aead_open(
            spec_derive_picture_key(spec_derive_channel_secret(base_channel_secret, channel_id), ts),
            inner,
        ) == Some(spec_padded_picture(picture)),
        first_match(flash, channel_id) is Some,
        slot_secret(slot_bytes(flash, first_match(flash, channel_id)->Some_0))
            == spec_derive_channel_secret(base_channel_secret, channel_id),
        slot_start(slot_bytes(flash, first_match(flash, channel_id)->Some_0)) <= ts,
        ts <= slot_end(slot_bytes(flash, first_match(flash, channel_id)->Some_0)),
        ts > last_ts,
    ensures
        spec_frame_accepted(flash, last_ts, channel_id, ts),
        ({
            let outer = aead_open(frame_key, blob)->Some_0;
            let secret = slot_secret(slot_bytes(flash, first_match(flash, channel_id)->Some_0));
            &&& spec_frame_bytes_channel(outer) == channel_id
            &&& spec_frame_bytes_timestamp(outer) == ts
            &&& spec_frame_bytes_pic_len(outer) == picture.len()
            &&& spec_frame_bytes_inner(outer) == inner
            &&& aead_open(spec_derive_picture_key(secret, ts), inner) == Some(
                spec_padded_picture(picture),
            )
            &&& spec_padded_picture(picture).subrange(0, picture.len() as int) == picture
        }),
{
    crate::codec::lemma_frame_round_trip(channel_id, ts, picture.len() as u8, inner);
    assert(spec_padded_picture(picture).subrange(0, picture.len() as int) =~= picture);
}

} // verus!
