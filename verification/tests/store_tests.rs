use decoder::builder::provision_emergency_slot;
use decoder::codec::make_complement_16b;
use decoder::subscription::{
    erase_page, get_channel_subscription, get_subscription_at_idx, list_subscriptions, read_16b,
    update_subscription, write_16b, Flash,
};
use decoder::types::{ChannelSecret, StoredSubscription, SubscriptionInfo};

fn secret(byte: u8) -> ChannelSecret {
    ChannelSecret(vec![byte; 32])
}

fn stored(channel_id: u32, start: u64, end: u64, secret_byte: u8) -> StoredSubscription {
    StoredSubscription {
        info: SubscriptionInfo { channel_id, start, end },
        channel_secret: secret(secret_byte),
    }
}

#[test]
fn fresh_flash_has_no_subscriptions() {
    let flash = Flash::new_erased();
    let list = list_subscriptions(&flash);
    assert_eq!(list.num_sub_channels, 0);
    for idx in 0..=8u32 {
        assert!(get_subscription_at_idx(&flash, idx).is_err());
    }
}

#[test]
fn emergency_slot_reads_back() {
    let mut flash = Flash::new_erased();
    provision_emergency_slot(&mut flash, secret(0x77));
    let sub = get_subscription_at_idx(&flash, 0).unwrap();
    assert_eq!(sub.info.channel_id, 0);
    assert_eq!(sub.info.start, 0);
    assert_eq!(sub.info.end, u64::MAX);
    assert_eq!(sub.channel_secret.0, vec![0x77u8; 32]);
    let found = get_channel_subscription(&flash, 0).unwrap();
    assert_eq!(found.info.channel_id, 0);
    // the emergency slot is not listed
    let list = list_subscriptions(&flash);
    assert_eq!(list.num_sub_channels, 0);
}

#[test]
fn update_then_list_shows_subscription() {
    let mut flash = Flash::new_erased();
    update_subscription(&mut flash, stored(1, 100, 200, 0x42)).unwrap();
    let list = list_subscriptions(&flash);
    assert_eq!(list.num_sub_channels, 1);
    assert_eq!(list.subscriptions[0], SubscriptionInfo { channel_id: 1, start: 100, end: 200 });
    let sub = get_channel_subscription(&flash, 1).unwrap();
    assert_eq!(sub.channel_secret.0, vec![0x42u8; 32]);
}

#[test]
fn update_replaces_matching_channel() {
    let mut flash = Flash::new_erased();
    update_subscription(&mut flash, stored(1, 100, 200, 0x42)).unwrap();
    update_subscription(&mut flash, stored(2, 10, 20, 0x43)).unwrap();
    update_subscription(&mut flash, stored(1, 300, 400, 0x44)).unwrap();
    let list = list_subscriptions(&flash);
    assert_eq!(list.num_sub_channels, 2);
    // slot order is kept: channel 1 still sits in the first slot
    assert_eq!(list.subscriptions[0], SubscriptionInfo { channel_id: 1, start: 300, end: 400 });
    assert_eq!(list.subscriptions[1], SubscriptionInfo { channel_id: 2, start: 10, end: 20 });
    let sub = get_channel_subscription(&flash, 1).unwrap();
    assert_eq!(sub.channel_secret.0, vec![0x44u8; 32]);
}

#[test]
fn store_full_reports_no_slots() {
    let mut flash = Flash::new_erased();
    for ch in 1..=8u32 {
        update_subscription(&mut flash, stored(ch, 0, 10, ch as u8)).unwrap();
    }
    assert!(update_subscription(&mut flash, stored(9, 0, 10, 0x99)).is_err());
    let list = list_subscriptions(&flash);
    assert_eq!(list.num_sub_channels, 8);
}

/// The eight 16-byte rows of a slot image, in their on-flash offsets.
fn slot_rows(sub: &StoredSubscription) -> Vec<(u32, Vec<u8>)> {
    let mut header = vec![0xA5u8; 16];
    header[4..8].copy_from_slice(&sub.info.channel_id.to_le_bytes());
    header[12..16].copy_from_slice(&sub.info.channel_id.to_le_bytes());
    let mut timestamps = Vec::new();
    timestamps.extend_from_slice(&sub.info.start.to_le_bytes());
    timestamps.extend_from_slice(&sub.info.end.to_le_bytes());
    let secret_1 = sub.channel_secret.0[0..16].to_vec();
    let secret_2 = sub.channel_secret.0[16..32].to_vec();
    vec![
        (32, timestamps.clone()),
        (48, make_complement_16b(&timestamps)),
        (64, secret_1.clone()),
        (80, make_complement_16b(&secret_1)),
        (96, secret_2.clone()),
        (112, make_complement_16b(&secret_2)),
        (16, make_complement_16b(&header)),
        (0, header),
    ]
}

#[test]
fn interrupted_write_reads_absent() {
    // Simulate power loss after the erase and after each of the first k row
    // writes: the slot must read as absent for every k short of completion.
    let sub = stored(3, 7, 9, 0x5A);
    let rows = slot_rows(&sub);
    let base = 3 * 128u32;
    for k in 0..rows.len() {
        let mut flash = Flash::new_erased();
        update_subscription(&mut flash, stored(3, 1, 2, 0x11)).unwrap();
        erase_page(&mut flash, base);
        for (off, row) in rows.iter().take(k) {
            write_16b(&mut flash, base + off, row);
        }
        assert!(
            get_subscription_at_idx(&flash, 3).is_err(),
            "slot read as present after {} of {} rows",
            k,
            rows.len()
        );
    }
    // and the complete write reads back
    let mut flash = Flash::new_erased();
    for (off, row) in rows.iter() {
        write_16b(&mut flash, base + off, row);
    }
    let back = get_subscription_at_idx(&flash, 3).unwrap();
    assert_eq!(back.info, sub.info);
    assert_eq!(back.channel_secret.0, sub.channel_secret.0);
}

#[test]
fn bit_flips_in_complement_rows_and_magic_are_detected() {
    let mut flash = Flash::new_erased();
    update_subscription(&mut flash, stored(2, 50, 60, 0x33)).unwrap();
    assert!(get_subscription_at_idx(&flash, 1).is_ok());
    let base = 1 * 128usize;
    let mut positions: Vec<usize> = Vec::new();
    positions.extend(0..4); // first MAGIC field
    positions.extend(8..12); // second MAGIC field
    positions.extend(16..32); // header complement row
    positions.extend(48..64); // timestamp complement row
    positions.extend(80..96); // first secret complement row
    positions.extend(112..128); // second secret complement row
    for pos in positions {
        for bit in 0..8 {
            let original = flash.bytes[base + pos];
            flash.bytes[base + pos] = original ^ (1 << bit);
            assert!(
                get_subscription_at_idx(&flash, 1).is_err(),
                "flip at byte {} bit {} not detected",
                pos,
                bit
            );
            flash.bytes[base + pos] = original;
        }
    }
    assert!(get_subscription_at_idx(&flash, 1).is_ok());
}

#[test]
fn read_16b_matches_written_row() {
    let mut flash = Flash::new_erased();
    let row: Vec<u8> = (0..16u8).collect();
    write_16b(&mut flash, 640, &row);
    assert_eq!(read_16b(&flash, 640), row);
    assert_eq!(read_16b(&flash, 656), vec![0xFFu8; 16]);
}
