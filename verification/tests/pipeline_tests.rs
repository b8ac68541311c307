use decoder::builder::provision_emergency_slot;
use decoder::crypto::{derive_channel_secret, derive_subscription_key};
use decoder::dispatch::{encode_response, handle_message, Decoder};
use decoder::encoder::{gen_subscription, Encoder};
use decoder::subscription::Flash;
use decoder::types::{
    BaseChannelSecret, BaseSubscriptionSecret, DeploymentSecrets, EncryptedFrame,
    EncryptedSubscription, FrameKey, MessageFromDecoder, MessageToDecoder, Timestamp,
};

const DECODER_ID: u32 = 0xDEADBEEF;

fn deployment_secrets() -> DeploymentSecrets {
    DeploymentSecrets {
        frame_key: FrameKey(vec![0x11u8; 16]),
        base_channel_secret: BaseChannelSecret(vec![0x22u8; 32]),
        base_subscription_secret: BaseSubscriptionSecret(vec![0x33u8; 32]),
    }
}

/// A provisioned decoder, as the firmware builder leaves it: keys stamped,
/// emergency subscription in slot 0, everything else erased.
fn fresh_decoder() -> Decoder {
    let secrets = deployment_secrets();
    let mut flash = Flash::new_erased();
    provision_emergency_slot(&mut flash, derive_channel_secret(&secrets.base_channel_secret, 0));
    Decoder {
        frame_key: secrets.frame_key,
        subscription_key: derive_subscription_key(&secrets.base_subscription_secret, DECODER_ID),
        flash,
        timestamp: Timestamp(0),
    }
}

fn install(dec: &mut Decoder, channel: u32, start: u64, end: u64) -> MessageFromDecoder {
    let enc = gen_subscription(&deployment_secrets(), DECODER_ID, start, end, channel);
    handle_message(dec, MessageToDecoder::UpdateSubscription(EncryptedSubscription(enc)))
}

fn encode_frame(channel: u32, picture: &[u8], timestamp: u64) -> Vec<u8> {
    let encoder = Encoder::new(deployment_secrets());
    encoder.encode(channel, &picture.to_vec(), timestamp)
}

fn decode_frame_msg(dec: &mut Decoder, blob: Vec<u8>) -> MessageFromDecoder {
    handle_message(dec, MessageToDecoder::DecodeFrame(EncryptedFrame(blob)))
}

#[test]
fn fresh_device_list_is_empty() {
    let mut dec = fresh_decoder();
    let resp = handle_message(&mut dec, MessageToDecoder::ListSubscriptions);
    let m = encode_response(&resp);
    // header: '%', 'L', length 4 little endian; payload: zero channels
    assert_eq!(
        decoder::host_driver::write_header_bytes(&m.header),
        vec![b'%', b'L', 0x04, 0x00]
    );
    assert_eq!(&m.data[..4], &[0, 0, 0, 0]);
}

#[test]
fn install_then_list_shows_the_subscription() {
    let mut dec = fresh_decoder();
    let resp = install(&mut dec, 1, 100, 200);
    assert!(matches!(resp, MessageFromDecoder::UpdateSubscription));
    let resp = handle_message(&mut dec, MessageToDecoder::ListSubscriptions);
    match resp {
        MessageFromDecoder::ListSubscriptions(list) => {
            assert_eq!(list.num_sub_channels, 1);
            assert_eq!(list.subscriptions[0].channel_id, 1);
            assert_eq!(list.subscriptions[0].start, 100);
            assert_eq!(list.subscriptions[0].end, 200);
        }
        _ => panic!("expected a list response"),
    }
    // wire payload: count then one (channel, start, end) triple
    let m = encode_response(&handle_message(&mut dec, MessageToDecoder::ListSubscriptions));
    assert_eq!(m.header.length, 24);
    let mut expected: Vec<u8> = Vec::new();
    expected.extend_from_slice(&1u32.to_le_bytes());
    expected.extend_from_slice(&1u32.to_le_bytes());
    expected.extend_from_slice(&100u64.to_le_bytes());
    expected.extend_from_slice(&200u64.to_le_bytes());
    assert_eq!(&m.data[..24], expected.as_slice());
}

#[test]
fn decode_in_window_returns_picture() {
    let mut dec = fresh_decoder();
    install(&mut dec, 1, 100, 200);
    let resp = decode_frame_msg(&mut dec, encode_frame(1, b"HELLO", 150));
    match resp {
        MessageFromDecoder::DecodeFrame(pic) => {
            assert_eq!(pic.picture_length, 5);
            assert_eq!(&pic.picture.0[..5], b"HELLO");
        }
        _ => panic!("expected a decoded picture"),
    }
    let m = encode_response(&decode_frame_msg(
        &mut dec,
        encode_frame(1, b"WORLD", 151),
    ));
    assert_eq!(m.header.length, 5);
    assert_eq!(&m.data[..5], b"WORLD");
}

#[test]
fn decode_out_of_window_is_rejected_then_in_window_succeeds() {
    let mut dec = fresh_decoder();
    install(&mut dec, 1, 100, 200);
    let early = decode_frame_msg(&mut dec, encode_frame(1, b"HELLO", 50));
    assert!(matches!(early, MessageFromDecoder::Error));
    let late = decode_frame_msg(&mut dec, encode_frame(1, b"HELLO", 201));
    assert!(matches!(late, MessageFromDecoder::Error));
    // the rejections did not advance the monotonic timestamp
    let ok = decode_frame_msg(&mut dec, encode_frame(1, b"HELLO", 150));
    match ok {
        MessageFromDecoder::DecodeFrame(pic) => assert_eq!(&pic.picture.0[..5], b"HELLO"),
        _ => panic!("expected a decoded picture"),
    }
}

#[test]
fn replayed_frame_is_rejected() {
    let mut dec = fresh_decoder();
    install(&mut dec, 1, 100, 200);
    let blob = encode_frame(1, b"HELLO", 150);
    let first = decode_frame_msg(&mut dec, blob.clone());
    assert!(matches!(first, MessageFromDecoder::DecodeFrame(_)));
    let replay = decode_frame_msg(&mut dec, blob);
    assert!(matches!(replay, MessageFromDecoder::Error));
    // any earlier timestamp is rejected too, on any channel
    let older = decode_frame_msg(&mut dec, encode_frame(1, b"HELLO", 149));
    assert!(matches!(older, MessageFromDecoder::Error));
}

#[test]
fn emergency_channel_update_is_rejected() {
    let mut dec = fresh_decoder();
    let slot0_before = dec.flash.bytes[..128].to_vec();
    let resp = install(&mut dec, 0, 0, u64::MAX);
    assert!(matches!(resp, MessageFromDecoder::Error));
    // slot 0 survives untouched and channel 0 never appears in the list
    assert_eq!(&dec.flash.bytes[..128], slot0_before.as_slice());
    match handle_message(&mut dec, MessageToDecoder::ListSubscriptions) {
        MessageFromDecoder::ListSubscriptions(list) => assert_eq!(list.num_sub_channels, 0),
        _ => panic!("expected a list response"),
    }
    // the emergency subscription still decodes frames
    let resp = decode_frame_msg(&mut dec, encode_frame(0, b"SOS", 1));
    assert!(matches!(resp, MessageFromDecoder::DecodeFrame(_)));
}

#[test]
fn bad_subscription_ranges_are_rejected() {
    let mut dec = fresh_decoder();
    // start beyond end
    let resp = install(&mut dec, 1, 200, 100);
    assert!(matches!(resp, MessageFromDecoder::Error));
    // channel id beyond the standard range
    let resp = install(&mut dec, 9, 0, 10);
    assert!(matches!(resp, MessageFromDecoder::Error));
    match handle_message(&mut dec, MessageToDecoder::ListSubscriptions) {
        MessageFromDecoder::ListSubscriptions(list) => assert_eq!(list.num_sub_channels, 0),
        _ => panic!("expected a list response"),
    }
}

#[test]
fn tampered_frame_is_rejected_and_original_still_decodes() {
    let mut dec = fresh_decoder();
    install(&mut dec, 1, 100, 200);
    let blob = encode_frame(1, b"HELLO", 150);
    for i in [0usize, 17, 70, 140] {
        let mut tampered = blob.clone();
        tampered[i] ^= 0x01;
        let resp = decode_frame_msg(&mut dec, tampered);
        assert!(matches!(resp, MessageFromDecoder::Error), "flip at byte {} accepted", i);
    }
    // the un-tampered frame still decodes afterwards
    let resp = decode_frame_msg(&mut dec, blob);
    assert!(matches!(resp, MessageFromDecoder::DecodeFrame(_)));
}

#[test]
fn tampered_subscription_is_rejected() {
    let mut dec = fresh_decoder();
    let mut enc = gen_subscription(&deployment_secrets(), DECODER_ID, 100, 200, 1);
    enc[40] ^= 0x80;
    let resp =
        handle_message(&mut dec, MessageToDecoder::UpdateSubscription(EncryptedSubscription(enc)));
    assert!(matches!(resp, MessageFromDecoder::Error));
    // a subscription sealed for another decoder is rejected too
    let foreign = gen_subscription(&deployment_secrets(), DECODER_ID + 1, 100, 200, 1);
    let resp = handle_message(
        &mut dec,
        MessageToDecoder::UpdateSubscription(EncryptedSubscription(foreign)),
    );
    assert!(matches!(resp, MessageFromDecoder::Error));
}

#[test]
fn frame_for_unsubscribed_channel_is_rejected() {
    let mut dec = fresh_decoder();
    install(&mut dec, 1, 100, 200);
    let resp = decode_frame_msg(&mut dec, encode_frame(2, b"HELLO", 150));
    assert!(matches!(resp, MessageFromDecoder::Error));
}
