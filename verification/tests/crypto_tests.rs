use decoder::ascon::{decrypt_ascon, encrypt_ascon};
use decoder::builder::parse_number;
use decoder::crypto::{derive_channel_secret, derive_picture_key, derive_subscription_key};
use decoder::rng::{delay_random_us, CustomRng};
use decoder::types::{BaseChannelSecret, BaseSubscriptionSecret, ChannelSecret};

#[test]
fn channel_secret_derivation_is_deterministic_and_keyed() {
    let base = BaseChannelSecret(vec![0x22u8; 32]);
    let a = derive_channel_secret(&base, 1);
    let b = derive_channel_secret(&base, 1);
    let c = derive_channel_secret(&base, 2);
    assert_eq!(a.0.len(), 32);
    assert_eq!(a.0, b.0);
    assert_ne!(a.0, c.0);
    // the derivation is not the identity on its key
    assert_ne!(a.0, base.0);
}

#[test]
fn subscription_key_derivation_is_deterministic_and_keyed() {
    let base = BaseSubscriptionSecret(vec![0x33u8; 32]);
    let a = derive_subscription_key(&base, 0xDEADBEEF);
    let b = derive_subscription_key(&base, 0xDEADBEEF);
    let c = derive_subscription_key(&base, 0xDEADBEF0);
    assert_eq!(a.0.len(), 16);
    assert_eq!(a.0, b.0);
    assert_ne!(a.0, c.0);
}

#[test]
fn picture_key_depends_on_timestamp() {
    let secret = ChannelSecret(vec![0x44u8; 32]);
    let a = derive_picture_key(&secret, 150);
    let b = derive_picture_key(&secret, 150);
    let c = derive_picture_key(&secret, 151);
    assert_eq!(a.0.len(), 16);
    assert_eq!(a.0, b.0);
    assert_ne!(a.0, c.0);
}

#[test]
fn ascon_round_trip() {
    let key = vec![0x11u8; 16];
    let msg: Vec<u8> = b"attack at dawn".to_vec();
    let blob = encrypt_ascon(&msg, &key);
    assert_eq!(blob.len(), msg.len() + 32);
    let back = decrypt_ascon(&blob, &key).unwrap();
    assert_eq!(back, msg);
}

#[test]
fn ascon_rejects_any_tampered_byte() {
    let key = vec![0x11u8; 16];
    let msg: Vec<u8> = b"picture".to_vec();
    let blob = encrypt_ascon(&msg, &key);
    for i in 0..blob.len() {
        let mut tampered = blob.clone();
        tampered[i] ^= 0x01;
        assert!(decrypt_ascon(&tampered, &key).is_err(), "flip at byte {} accepted", i);
    }
    // the untampered blob still decrypts
    assert_eq!(decrypt_ascon(&blob, &key).unwrap(), msg);
}

#[test]
fn ascon_rejects_wrong_key() {
    let key = vec![0x11u8; 16];
    let other = vec![0x12u8; 16];
    let blob = encrypt_ascon(&b"x".to_vec(), &key);
    assert!(decrypt_ascon(&blob, &other).is_err());
}

#[test]
fn ascon_nonces_are_fresh() {
    let key = vec![0x11u8; 16];
    let msg = b"same message".to_vec();
    let one = encrypt_ascon(&msg, &key);
    let two = encrypt_ascon(&msg, &key);
    assert_ne!(one, two);
}

#[test]
fn custom_rng_is_deterministic_in_its_inputs() {
    let seed = vec![0xAAu8; 64];
    let samples: Vec<(u32, u32)> = (0..16).map(|i| (i as u32, 1000 + i as u32)).collect();
    let mut a = CustomRng::new(&seed, samples.clone());
    let mut b = CustomRng::new(&seed, samples.clone());
    for _ in 0..200 {
        assert_eq!(a.next_u32(), b.next_u32());
    }
    let mut c = CustomRng::new(&vec![0xABu8; 64], samples);
    assert_ne!(a.next_u32(), c.next_u32());
}

#[test]
fn custom_rng_fills_exact_lengths() {
    let mut rng = CustomRng::new(&vec![1u8; 64], vec![(1, 2)]);
    for len in [0usize, 1, 3, 4, 5, 16, 61] {
        assert_eq!(rng.fill_bytes(len).len(), len);
    }
}

#[test]
fn random_delays_stay_in_range() {
    let mut rng = CustomRng::new(&vec![9u8; 64], vec![(7, 8)]);
    for _ in 0..100 {
        let d = delay_random_us(&mut rng, 0, 1_000);
        assert!(d < 1_000);
    }
    for _ in 0..100 {
        let d = delay_random_us(&mut rng, 500, 600);
        assert!((500..600).contains(&d));
    }
}

#[test]
fn parse_number_accepts_decimal_and_hex() {
    assert_eq!(parse_number(&b"42".to_vec()), Some(42));
    assert_eq!(parse_number(&b"0".to_vec()), Some(0));
    assert_eq!(parse_number(&b"0x2A".to_vec()), Some(42));
    assert_eq!(parse_number(&b"0x2a".to_vec()), Some(42));
    assert_eq!(parse_number(&b"4294967295".to_vec()), Some(u32::MAX));
    assert_eq!(parse_number(&b"0xFFFFFFFF".to_vec()), Some(u32::MAX));
}

#[test]
fn parse_number_rejects_malformed_and_overflowing_input() {
    assert_eq!(parse_number(&b"".to_vec()), None);
    assert_eq!(parse_number(&b"0x".to_vec()), None);
    assert_eq!(parse_number(&b"12ab".to_vec()), None);
    assert_eq!(parse_number(&b"0xZZ".to_vec()), None);
    assert_eq!(parse_number(&b"4294967296".to_vec()), None);
    assert_eq!(parse_number(&b"0x100000000".to_vec()), None);
    assert_eq!(parse_number(&b"-1".to_vec()), None);
}
