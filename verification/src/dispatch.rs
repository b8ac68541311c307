use vstd::prelude::*;

use crate::ascon::aead_open;
use crate::codec::{
    spec_frame_bytes_channel, spec_frame_bytes_inner, spec_frame_bytes_pic_len,
    spec_frame_bytes_timestamp, spec_infos_bytes, spec_sub_bytes_channel, spec_sub_bytes_end,
    spec_sub_bytes_secret, spec_sub_bytes_start,
};
use crate::constants::{EMERGENCY_CHANNEL_ID, MAX_LEN_PICTURE, MAX_STANDARD_CHANNEL};
use crate::crypto::spec_derive_picture_key;
use crate::decode::{decrypt_frame, spec_frame_accepted, validate_and_decrypt_picture};
use crate::host_driver::Message;
use crate::subscription::{
    decrypt_subscription, first_match, list_subscriptions, slot_bytes, slot_secret,
    spec_slot_image, store_with_slot, update_subscription, update_target, valid_infos, Flash,
};
use crate::types::{
    FrameKey, MessageFromDecoder, MessageToDecoder, SubscriptionKey, Timestamp,
};

verus! {

/// The full state of a decoder: its provisioned keys, its flash-backed
/// subscription store, and the monotonic timestamp of the boot session.
pub struct Decoder {
    pub frame_key: FrameKey,
    pub subscription_key: SubscriptionKey,
    pub flash: Flash,
    pub timestamp: Timestamp,
}

impl Decoder {
    pub open spec fn wf(&self) -> bool {
        self.frame_key.wf() && self.subscription_key.wf() && self.flash.wf()
    }
}

/// Whether the payload carried by a host message has its fixed size.
pub open spec fn spec_message_wf(msg: MessageToDecoder) -> bool {
    match msg {
        MessageToDecoder::ListSubscriptions => true,
        MessageToDecoder::UpdateSubscription(enc) => enc.wf(),
        MessageToDecoder::DecodeFrame(enc) => enc.wf(),
    }
}

/// Routes one host message to the store, the update pipeline or the decode
/// pipeline, and produces the response. Every failure collapses to the
/// generic error response; the emergency slot and the provisioned keys are
/// never altered.
pub fn handle_message(dec: &mut Decoder, msg: MessageToDecoder) -> (r: MessageFromDecoder)
    requires
        old(dec).wf(),
        spec_message_wf(msg),
    ensures
        final(dec).wf(),
        final(dec).frame_key == old(dec).frame_key,
        final(dec).subscription_key == old(dec).subscription_key,
        slot_bytes(final(dec).flash.bytes@, 0) == slot_bytes(old(dec).flash.bytes@, 0),
        match msg {
            MessageToDecoder::ListSubscriptions => {
                &&& final(dec).flash.bytes@ == old(dec).flash.bytes@
                &&& final(dec).timestamp.0 == old(dec).timestamp.0
                &&& match r {
                    MessageFromDecoder::ListSubscriptions(l) => {
                        &&& l.wf()
                        &&& l.num_sub_channels == valid_infos(old(dec).flash.bytes@).len()
                        &&& l.subscriptions@.subrange(0, l.num_sub_channels as int) == valid_infos(
                            old(dec).flash.bytes@,
                        )
                    },
                    _ => false,
                }
            },
            MessageToDecoder::UpdateSubscription(enc) => {
                &&& final(dec).timestamp.0 == old(dec).timestamp.0
                &&& match aead_open(old(dec).subscription_key.0@, enc.0@) {
                    Some(b) => {
                        let ch = spec_sub_bytes_channel(b);
                        let start = spec_sub_bytes_start(b);
                        let end = spec_sub_bytes_end(b);
                        if ch == EMERGENCY_CHANNEL_ID || ch > MAX_STANDARD_CHANNEL || start
                            > end {
                            r is Error && final(dec).flash.bytes@ == old(dec).flash.bytes@
                        } else {
                            match update_target(old(dec).flash.bytes@, ch) {
                                Some(i) => r is UpdateSubscription && final(dec).flash.bytes@
                                    == store_with_slot(
                                    old(dec).flash.bytes@,
                                    i,
                                    spec_slot_image(ch, start, end, spec_sub_bytes_secret(b)),
                                ),
                                None => r is Error && final(dec).flash.bytes@ == old(
                                    dec,
                                ).flash.bytes@,
                            }
                        }
                    },
                    None => r is Error && final(dec).flash.bytes@ == old(dec).flash.bytes@,
                }
            },
            MessageToDecoder::DecodeFrame(enc) => {
                &&& final(dec).flash.bytes@ == old(dec).flash.bytes@
                &&& match aead_open(old(dec).frame_key.0@, enc.0@) {
                    Some(b) => {
                        let ch = spec_frame_bytes_channel(b);
                        let ts = spec_frame_bytes_timestamp(b);
                        let pl = spec_frame_bytes_pic_len(b);
                        let inner = spec_frame_bytes_inner(b);
                        let accepted = spec_frame_accepted(
                            old(dec).flash.bytes@,
                            old(dec).timestamp.0,
                            ch,
                            ts,
                        );
                        let secret = slot_secret(
                            slot_bytes(
                                old(dec).flash.bytes@,
                                first_match(old(dec).flash.bytes@, ch)->Some_0,
                            ),
                        );
                        if pl > MAX_LEN_PICTURE {
                            r is Error && final(dec).timestamp.0 == old(dec).timestamp.0
                        } else if !accepted {
                            r is Error && final(dec).timestamp.0 == old(dec).timestamp.0
                        } else {
                            &&& final(dec).timestamp.0 == ts
                            &&& match aead_open(spec_derive_picture_key(secret, ts), inner) {
                                Some(p) => match r {
                                    MessageFromDecoder::DecodeFrame(pic) => {
                                        &&& pic.wf()
                                        &&& pic.picture_length == pl
                                        &&& pic.picture.0@ == p
                                    },
                                    _ => false,
                                },
                                None => r is Error,
                            }
                        }
                    },
                    None => r is Error && final(dec).timestamp.0 == old(dec).timestamp.0,
                }
            },
        },
{
    match msg {
        MessageToDecoder::ListSubscriptions => {
            let sub_list = list_subscriptions(&dec.flash);
            MessageFromDecoder::ListSubscriptions(sub_list)
        },
        MessageToDecoder::UpdateSubscription(enc_subscription) => {
            match decrypt_subscription(&dec.subscription_key, &enc_subscription) {
                Ok(new_sub) => {
                    if new_sub.info.channel_id == EMERGENCY_CHANNEL_ID
                        || new_sub.info.channel_id > MAX_STANDARD_CHANNEL
                        || new_sub.info.start > new_sub.info.end {
                        MessageFromDecoder::Error
                    } else {
                        match update_subscription(&mut dec.flash, new_sub) {
                            Ok(_) => MessageFromDecoder::UpdateSubscription,
                            Err(_) => MessageFromDecoder::Error,
                        }
                    }
                },
                Err(_) => MessageFromDecoder::Error,
            }
        },
        MessageToDecoder::DecodeFrame(enc_frame) => {
            match decrypt_frame(&dec.frame_key, &enc_frame) {
                Ok(dec_frame) => {
                    match validate_and_decrypt_picture(&dec.flash, &mut dec.timestamp, &dec_frame) {
                        Ok(pic) => MessageFromDecoder::DecodeFrame(pic),
                        Err(_) => MessageFromDecoder::Error,
                    }
                },
                Err(_) => MessageFromDecoder::Error,
            }
        },
    }
}

/// Whether a response value carries well-formed contents.
pub open spec fn spec_response_wf(resp: MessageFromDecoder) -> bool {
    match resp {
        MessageFromDecoder::ListSubscriptions(l) => l.wf(),
        MessageFromDecoder::DecodeFrame(pic) => pic.wf(),
        _ => true,
    }
}

/// Serializes a response into a host-link message: a list response carries
/// the encoded subscription list, a decode response the plaintext picture,
/// and everything else an empty payload.
pub fn encode_response(resp: &MessageFromDecoder) -> (m: Message)
    requires
        spec_response_wf(*resp),
    ensures
        m.wf(),
        match *resp {
            MessageFromDecoder::ListSubscriptions(l) => {
                &&& m.header.opcode is List
                &&& m.payload() == vstd::bytes::spec_u32_to_le_bytes(l.num_sub_channels)
                    + spec_infos_bytes(l.subscriptions@.subrange(0, l.num_sub_channels as int))
            },
            MessageFromDecoder::UpdateSubscription => m.header.opcode is Subscribe
                && m.payload() == Seq::<u8>::empty(),
            MessageFromDecoder::DecodeFrame(pic) => {
                &&& m.header.opcode is Decode
                &&& m.payload() == pic.picture.0@.subrange(0, pic.picture_length as int)
            },
            MessageFromDecoder::Error => m.header.opcode is Error && m.payload() == Seq::<
                u8,
            >::empty(),
            MessageFromDecoder::Debug => m.header.opcode is Debug && m.payload() == Seq::<
                u8,
            >::empty(),
        },
{
    match resp {
        MessageFromDecoder::ListSubscriptions(sub_list) => {
            let mut m = Message::list();
            let encoded = sub_list.encode();
            m.add_data(&encoded);
            assert(m.payload() =~= encoded@);
            m
        },
        MessageFromDecoder::UpdateSubscription => Message::subscribe(),
        MessageFromDecoder::DecodeFrame(pic) => {
            let mut m = Message::new();
            m.header.opcode = crate::host_driver::MessageType::Decode;
            m.add_data_bounded(&pic.picture.0, pic.picture_length as usize);
            assert(m.payload() =~= pic.picture.0@.subrange(0, pic.picture_length as int));
            m
        },
        MessageFromDecoder::Error => Message::error(),
        MessageFromDecoder::Debug => {
            let empty: Vec<u8> = Vec::new();
            let m = Message::debug(&empty);
            assert(m.payload() =~= Seq::<u8>::empty());
            m
        },
    }
}

} // verus!

verus! {

/// Round trip: what the off-device tools encrypt, a decoder provisioned
/// from the same deployment secrets decodes back.
///
/// The premises are exactly what the contracts of the tools promise: the
/// encrypted subscription opens under the decoder's subscription key to a
/// stored subscription for `channel_id` carrying the derived channel
/// secret, and the encrypted frame opens under the frame key to the frame
/// layout for `(channel_id, ts, picture)` whose inner layer opens, under
/// the derived picture key, to the zero-padded picture. If the update for
/// `channel_id` can be placed at all, then after it is placed the channel
/// lookup finds the installed subscription, a frame with `ts` inside the
/// subscribed window and beyond the monotonic timestamp passes validation,
/// and the decode pipeline's contracts force the emitted payload to be
/// `picture`.
pub proof fn lemma_subscription_frame_round_trip(
    base_channel_secret: Seq<u8>,
    frame_key: Seq<u8>,
    flash: Seq<u8>,
    last_ts: u64,
    channel_id: u32,
    start: u64,
    end: u64,
    ts: u64,
    picture: Seq<u8>,
    frame_blob: Seq<u8>,
    inner: Seq<u8>,
)
    requires
        flash.len() == crate::constants::LEN_FLASH,
        channel_id != EMERGENCY_CHANNEL_ID,
        start <= ts <= end,
        ts > last_ts,
        picture.len() <= MAX_LEN_PICTURE,
        inner.len() == 96,
        // the derivation emits a 32-byte channel secret
        crate::crypto::spec_derive_channel_secret(base_channel_secret, channel_id).len() == 32,
        // what Encoder::encode promises of the frame
        aead_open(frame_key, frame_blob) == Some(
            crate::codec::spec_frame_bytes(channel_id, ts, picture.len() as u8, inner),
        ),
        aead_open(
            spec_derive_picture_key(
                crate::crypto::spec_derive_channel_secret(base_channel_secret, channel_id),
                ts,
            ),
            inner,
        ) == Some(crate::codec::spec_padded_picture(picture)),
        // the update pipeline found a slot for the subscription
        update_target(flash, channel_id) is Some,
        // the emergency slot permanently holds the emergency channel
        !(crate::subscription::slot_valid(slot_bytes(flash, 0))
            && crate::subscription::slot_channel(slot_bytes(flash, 0)) == channel_id),
    ensures
        ({
            let i = update_target(flash, channel_id)->Some_0;
            let newf = store_with_slot(
                flash,
                i,
                spec_slot_image(
                    channel_id,
                    start,
                    end,
                    crate::crypto::spec_derive_channel_secret(base_channel_secret, channel_id),
                ),
            );
            let outer = aead_open(frame_key, frame_blob)->Some_0;
            let fm = first_match(newf, channel_id);
            &&& fm == Some(i)
            &&& crate::decode::spec_frame_accepted(newf, last_ts, channel_id, ts)
            &&& spec_frame_bytes_channel(outer) == channel_id
            &&& spec_frame_bytes_timestamp(outer) == ts
            &&& spec_frame_bytes_pic_len(outer) == picture.len()
            &&& aead_open(
                spec_derive_picture_key(slot_secret(slot_bytes(newf, i)), ts),
                spec_frame_bytes_inner(outer),
            ) == Some(crate::codec::spec_padded_picture(picture))
            &&& crate::codec::spec_padded_picture(picture).subrange(0, picture.len() as int)
                == picture
        }),
{
    let secret = crate::crypto::spec_derive_channel_secret(base_channel_secret, channel_id);
    crate::subscription::lemma_install_then_lookup(flash, channel_id, start, end, secret);
    let i = update_target(flash, channel_id)->Some_0;
    let newf = store_with_slot(flash, i, spec_slot_image(channel_id, start, end, secret));
    crate::decode::lemma_decode_round_trip(
        base_channel_secret,
        frame_key,
        newf,
        last_ts,
        channel_id,
        ts,
        picture,
        frame_blob,
        inner,
    );
}

} // verus!
