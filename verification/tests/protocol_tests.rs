use decoder::host_driver::{
    reader_ack_step, validate_header, write_header_bytes, write_message_events, HeaderParser,
    Message, MessageHeader, MessageType, UartError, UartState, WireEvent,
};
use decoder::types::{MessageToDecoder, SubscriptionInfoList, SubscriptionInfo};

#[test]
fn header_parser_scans_for_magic_and_reads_a_header() {
    let mut parser = HeaderParser::new();
    // noise before the magic byte is discarded
    assert!(parser.feed(0x00).is_none());
    assert!(parser.feed(0xFF).is_none());
    assert!(parser.feed(b'%').is_none());
    assert!(parser.feed(b'D').is_none());
    assert!(parser.feed(0x8D).is_none());
    let header = parser.feed(0x00).unwrap().unwrap();
    assert_eq!(header, MessageHeader { opcode: MessageType::Decode, length: 141 });
}

#[test]
fn header_parser_rejects_unknown_opcodes() {
    let mut parser = HeaderParser::new();
    assert!(parser.feed(b'%').is_none());
    let err = parser.feed(b'Q').unwrap();
    assert!(matches!(err, Err(UartError::InvalidOpcode)));
    // the parser recovers and scans for the next magic byte
    assert!(parser.feed(b'%').is_none());
    assert!(parser.feed(b'L').is_none());
    assert!(parser.feed(0).is_none());
    let header = parser.feed(0).unwrap().unwrap();
    assert_eq!(header, MessageHeader { opcode: MessageType::List, length: 0 });
}

#[test]
fn header_round_trips_through_its_wire_bytes() {
    for (opcode, byte) in [
        (MessageType::Decode, b'D'),
        (MessageType::Subscribe, b'S'),
        (MessageType::List, b'L'),
        (MessageType::Ack, b'A'),
        (MessageType::Error, b'E'),
        (MessageType::Debug, b'G'),
    ] {
        let header = MessageHeader { opcode, length: 0x1234 };
        let bytes = write_header_bytes(&header);
        assert_eq!(bytes, vec![b'%', byte, 0x34, 0x12]);
        let mut parser = HeaderParser::new();
        let mut out = None;
        for b in bytes {
            out = parser.feed(b);
        }
        assert_eq!(out.unwrap().unwrap(), header);
    }
}

#[test]
fn only_the_fixed_opcode_length_pairs_validate() {
    let ok = |opcode, length| {
        validate_header(&MessageHeader { opcode, length }).is_ok()
    };
    assert!(ok(MessageType::List, 0));
    assert!(ok(MessageType::Subscribe, 84));
    assert!(ok(MessageType::Decode, 141));
    assert!(!ok(MessageType::List, 1));
    assert!(!ok(MessageType::Subscribe, 141));
    assert!(!ok(MessageType::Decode, 84));
    assert!(!ok(MessageType::Ack, 0));
    assert!(!ok(MessageType::Error, 0));
    assert!(!ok(MessageType::Debug, 0));
}

#[test]
fn payloads_build_the_right_host_messages() {
    let header = MessageHeader { opcode: MessageType::Subscribe, length: 84 };
    let m = decoder::host_driver::build_message_to_decoder(&header, vec![7u8; 84]).unwrap();
    match m {
        MessageToDecoder::UpdateSubscription(enc) => assert_eq!(enc.0, vec![7u8; 84]),
        _ => panic!("expected a subscription update"),
    }
    let header = MessageHeader { opcode: MessageType::Decode, length: 141 };
    let m = decoder::host_driver::build_message_to_decoder(&header, vec![9u8; 141]).unwrap();
    match m {
        MessageToDecoder::DecodeFrame(enc) => assert_eq!(enc.0, vec![9u8; 141]),
        _ => panic!("expected a frame"),
    }
    let header = MessageHeader { opcode: MessageType::List, length: 0 };
    let m = decoder::host_driver::build_message_to_decoder(&header, Vec::new()).unwrap();
    assert!(matches!(m, MessageToDecoder::ListSubscriptions));
}

#[test]
fn should_ack_excludes_ack_and_debug() {
    let h = |opcode| MessageHeader { opcode, length: 0 };
    assert!(h(MessageType::Decode).should_ack());
    assert!(h(MessageType::Subscribe).should_ack());
    assert!(h(MessageType::List).should_ack());
    assert!(h(MessageType::Error).should_ack());
    assert!(!h(MessageType::Ack).should_ack());
    assert!(!h(MessageType::Debug).should_ack());
}

#[test]
fn reader_acknowledges_once_per_block() {
    // consume 141 payload bytes: exactly one acknowledgement, before the
    // first byte
    let mut state = UartState::NumBytesRead(0);
    let mut acks = 0;
    for _ in 0..141 {
        let (next, ack) = reader_ack_step(state);
        if ack {
            acks += 1;
        }
        state = next;
    }
    assert_eq!(acks, 1);
    // a full block later, the next acknowledgement falls due
    let mut state = UartState::NumBytesRead(0);
    let mut ack_positions = Vec::new();
    for i in 0..600 {
        let (next, ack) = reader_ack_step(state);
        if ack {
            ack_positions.push(i);
        }
        state = next;
    }
    assert_eq!(ack_positions, vec![0, 256, 512]);
}

#[test]
fn write_plan_pauses_for_acknowledgements() {
    // an Ack message: header only, no pause
    let events = write_message_events(&Message::ack());
    assert_eq!(
        events,
        vec![
            WireEvent::Byte(b'%'),
            WireEvent::Byte(b'A'),
            WireEvent::Byte(0),
            WireEvent::Byte(0),
        ]
    );
    // an empty acknowledged message: one pause after the header
    let events = write_message_events(&Message::subscribe());
    assert_eq!(events.len(), 5);
    assert_eq!(events[4], WireEvent::WaitAck);
    // a payload-bearing message: pauses after the header and after the block
    let m = Message::decode(&b"HELLO".to_vec());
    let events = write_message_events(&m);
    assert_eq!(events.len(), 4 + 1 + 5 + 1);
    assert_eq!(events[4], WireEvent::WaitAck);
    assert_eq!(events[5], WireEvent::Byte(b'H'));
    assert_eq!(events[10], WireEvent::WaitAck);
    // a debug message is never acknowledged
    let events = write_message_events(&Message::debug(&b"hi".to_vec()));
    assert_eq!(events.len(), 6);
    assert!(events.iter().all(|e| !matches!(e, WireEvent::WaitAck)));
}

#[test]
fn message_data_accumulates_and_truncates() {
    let mut m = Message::new();
    m.add_data(&b"abc".to_vec());
    assert_eq!(m.header.length, 3);
    m.add_data_bounded(&b"defgh".to_vec(), 2);
    assert_eq!(m.header.length, 5);
    assert_eq!(&m.data[..5], b"abcde");
    m.add_data(&vec![0x55u8; 300]);
    assert_eq!(m.header.length, 256);
    assert_eq!(m.data[255], 0x55);
}

#[test]
fn subscription_info_list_codec_round_trips() {
    let mut subscriptions = vec![
        SubscriptionInfo { channel_id: 1, start: 100, end: 200 },
        SubscriptionInfo { channel_id: 5, start: 7, end: 7 },
    ];
    subscriptions.resize(8, SubscriptionInfo { channel_id: 0, start: 0, end: 0 });
    let list = SubscriptionInfoList { num_sub_channels: 2, subscriptions };
    let bytes = list.encode();
    assert_eq!(bytes.len(), 4 + 2 * 20);
    let back = SubscriptionInfoList::decode(&bytes).unwrap();
    assert_eq!(back.num_sub_channels, 2);
    assert_eq!(back.subscriptions[0].channel_id, 1);
    assert_eq!(back.subscriptions[1].start, 7);
    // truncated and over-long payloads are rejected
    assert!(SubscriptionInfoList::decode(&bytes[..bytes.len() - 1].to_vec()).is_err());
    let mut long = bytes.clone();
    long.push(0);
    assert!(SubscriptionInfoList::decode(&long).is_err());
}

#[test]
fn counted_acknowledgements_match_the_discipline() {
    assert_eq!(decoder::host_driver::count_reader_acks(0), 0);
    assert_eq!(decoder::host_driver::count_reader_acks(84), 1);
    assert_eq!(decoder::host_driver::count_reader_acks(141), 1);
    assert_eq!(decoder::host_driver::count_reader_acks(256), 1);
    assert_eq!(decoder::host_driver::count_reader_acks(257), 2);
    assert_eq!(decoder::host_driver::count_reader_acks(600), 3);
}

#[test]
fn list_decode_rejects_an_oversized_count() {
    let mut bytes: Vec<u8> = Vec::new();
    bytes.extend_from_slice(&9u32.to_le_bytes());
    bytes.extend_from_slice(&[0u8; 180]);
    assert!(SubscriptionInfoList::decode(&bytes).is_err());
}
