use decoder::channels::{BytesSerializable, Channels, Subscription};

#[test]
fn test_subscription_to_bytes() {
    let sub = Subscription {
        channel_id: 1,
        start: 50,
        end: 500,
    };
    let sub_bytes: Vec<u8> = vec![
        0, 0, 0, 1,
        0, 0, 0, 0, 0, 0, 0, 50,
        0, 0, 0, 0, 0, 0, 1, 244,
    ];
    assert_eq!(sub.to_bytes(), sub_bytes);
}

#[test]
fn test_channels_to_bytes() {
    let sub1 = Subscription {
        channel_id: 1,
        start: 50,
        end: 500,
    };

    let sub2 = Subscription {
        channel_id: 2,
        start: 100,
        end: 1000,
    };

    let _channels = Channels {
        channel_1: Some(sub1),
        channel_2: Some(sub2),
        channel_3: None,
        channel_4: None,
        channel_5: None,
        channel_6: None,
        channel_7: None,
        channel_8: None,
    };
}

#[test]
fn subscription_bytes_round_trip() {
    let sub = Subscription {
        channel_id: 7,
        start: 123456789,
        end: 987654321012345,
    };
    let bytes = sub.to_bytes();
    assert_eq!(bytes.len(), 20);
    let back = Subscription::from_bytes(&bytes);
    assert_eq!(back, sub);
}

#[test]
fn subscription_default_is_blank() {
    let sub = Subscription::default();
    assert_eq!(sub, Subscription { channel_id: 0, start: 0, end: 0 });
}

#[test]
fn channels_update_subscriptions_routes_by_id() {
    let mut channels = Channels {
        channel_1: None,
        channel_2: None,
        channel_3: None,
        channel_4: None,
        channel_5: None,
        channel_6: None,
        channel_7: None,
        channel_8: None,
    };
    let sub = Subscription { channel_id: 3, start: 5, end: 10 };
    channels.update_subscriptions(sub);
    assert_eq!(channels.channel_3, Some(sub));
    assert_eq!(channels.channel_1, None);
    // channel 0 and out-of-range ids are dropped
    channels.update_subscriptions(Subscription { channel_id: 0, start: 1, end: 2 });
    channels.update_subscriptions(Subscription { channel_id: 9, start: 1, end: 2 });
    assert_eq!(channels.channel_3, Some(sub));
    assert_eq!(channels.channel_8, None);
}
