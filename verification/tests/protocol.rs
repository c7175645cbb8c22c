use estufa::protocol::{
    ActCmd, Config, Connect, DecodeError, EncodeDecode, Header, Message, MessageType, Payload,
    SensorData, SensorQuery, SensorRes, MAGIC,
};

fn bits(v: f32) -> u32 {
    v.to_bits()
}

// the size that the constructor declares must match the real encoding
#[test]
fn encoded_len_matches_real_encode() {
    let cases: Vec<Payload> = vec![
        Payload::Connect(Connect { kind: 0, id: 1 }),
        Payload::SensorData(SensorData { sensor_id: 0, value: bits(1.5) }),
        Payload::ActCmd(ActCmd { command: 1 }),
        Payload::SensorQuery(SensorQuery { sensor_id: 2 }),
        Payload::SensorRes(SensorRes { sensor_id: 2, value: bits(9.9) }),
        Payload::Config(Config { key: 4, value: bits(80.0) }),
    ];
    for p in cases {
        let real = match &p {
            Payload::Connect(x) => x.encode().len(),
            Payload::SensorData(x) => x.encode().len(),
            Payload::ActCmd(x) => x.encode().len(),
            Payload::SensorQuery(x) => x.encode().len(),
            Payload::SensorRes(x) => x.encode().len(),
            Payload::Config(x) => x.encode().len(),
        };
        assert_eq!(p.encoded_len() as usize, real);
    }
}

// header alone: encode then decode keeps every field
#[test]
fn header_round_trip() {
    let h = Header {
        magic_number: u32::from_be_bytes(*b"PPPP"),
        version: 1,
        ack: true,
        reserved: 5,
        kind: MessageType::SensorRes,
        length: 5,
    };
    let bytes = h.encode();
    assert_eq!(bytes.len(), 8);
    let (_, dec) = Header::decode(&bytes).unwrap();
    assert_eq!(dec.magic_number, h.magic_number);
    assert_eq!(dec.version, 1);
    assert!(dec.ack);
    assert_eq!(dec.reserved, 5);
    assert!(matches!(dec.kind, MessageType::SensorRes));
    assert_eq!(dec.length, 5);
}

// a whole message with payload: the round trip keeps the payload's fields
#[test]
fn message_sensor_data_round_trip() {
    let msg = Message::new(
        MessageType::SensorData,
        Payload::SensorData(SensorData { sensor_id: 2, value: bits(42.25) }),
    );
    let bytes = msg.encode();
    let (dec, consumed) = Message::try_decode(&bytes).expect("devia decodar");
    assert_eq!(consumed, bytes.len());
    match dec.payload {
        Some(Payload::SensorData(sd)) => {
            assert_eq!(sd.sensor_id, 2);
            assert_eq!(f32::from_bits(sd.value), 42.25);
        }
        _ => panic!("payload errado"),
    }
}

// new fills the header in (magic, version, no ack, length)
#[test]
fn new_fills_header() {
    let msg = Message::new(MessageType::CONFIG, Payload::Config(Config { key: 0, value: bits(1.0) }));
    assert_eq!(msg.header.magic_number, u32::from_be_bytes(*b"PPPP"));
    assert_eq!(msg.header.version, 1);
    assert!(!msg.header.ack);
    assert_eq!(msg.header.length, 5);
}

// an ack has no payload and decodes as an ack without payload
#[test]
fn ack_has_no_payload() {
    let msg = Message::ack(MessageType::CONNECT);
    assert!(msg.header.ack);
    assert!(msg.payload.is_none());
    let bytes = msg.encode();
    let (dec, _) = Message::try_decode(&bytes).unwrap();
    assert!(dec.header.ack);
    assert!(dec.payload.is_none());
}

// a message cut short does not decode: None rather than a panic
#[test]
fn incomplete_message_returns_none() {
    let msg = Message::new(
        MessageType::SensorData,
        Payload::SensorData(SensorData { sensor_id: 0, value: bits(1.0) }),
    );
    let bytes = msg.encode();
    let cut = &bytes[..bytes.len() - 1];
    assert!(Message::try_decode(cut).is_none());
}

// two messages back to back: try_decode consumes only the first
#[test]
fn try_decode_consumes_one_at_a_time() {
    let m1 = Message::new(MessageType::ActCmd, Payload::ActCmd(ActCmd { command: 1 })).encode();
    let m2 = Message::new(MessageType::ActCmd, Payload::ActCmd(ActCmd { command: 0 })).encode();
    let mut buf = m1.clone();
    buf.extend_from_slice(&m2);
    let (_, consumed) = Message::try_decode(&buf).unwrap();
    assert_eq!(consumed, m1.len());
    let (_, c2) = Message::try_decode(&buf[consumed..]).unwrap();
    assert_eq!(c2, m2.len());
}

// a wrong magic number is refused by decode
#[test]
fn wrong_magic_fails() {
    let mut bytes = Message::new(MessageType::ActCmd, Payload::ActCmd(ActCmd { command: 1 })).encode();
    bytes[0] = b'X';
    assert!(Message::decode(&bytes).is_err());
}

#[test]
fn magic_is_pppp() {
    assert_eq!(MAGIC, u32::from_be_bytes(*b"PPPP"));
}

#[test]
fn header_wire_layout() {
    let h = Header {
        magic_number: MAGIC,
        version: 1,
        ack: true,
        reserved: 5,
        kind: MessageType::SensorRes,
        length: 0x0105,
    };
    assert_eq!(h.encode(), vec![b'P', b'P', b'P', b'P', 1, 0x80 | 0x50 | 4, 0x01, 0x05]);
}

#[test]
fn header_reserved_keeps_three_bits() {
    let h = Header { magic_number: MAGIC, version: 7, ack: false, reserved: 0xff, kind: MessageType::CONFIG, length: 0 };
    let bytes = h.encode();
    assert_eq!(bytes[5], 0x70 | 5);
    let (_, dec) = Header::decode(&bytes).unwrap();
    assert_eq!(dec.reserved, 7);
    assert!(!dec.ack);
}

#[test]
fn payload_encodings() {
    assert_eq!(Connect { kind: 1, id: 4 }.encode(), vec![1, 4]);
    assert_eq!(
        SensorData { sensor_id: 2, value: bits(42.25) }.encode(),
        [vec![2u8], 42.25f32.to_be_bytes().to_vec()].concat()
    );
    assert_eq!(ActCmd { command: 1 }.encode(), vec![1]);
    assert_eq!(SensorQuery { sensor_id: 2 }.encode(), vec![2]);
    assert_eq!(
        SensorRes { sensor_id: 1, value: 0x0102_0304 }.encode(),
        vec![1, 1, 2, 3, 4]
    );
    assert_eq!(Config { key: 8, value: bits(5.0) }.encode(), [vec![8u8], 5.0f32.to_be_bytes().to_vec()].concat());
}

#[test]
fn decode_returns_the_rest() {
    let bytes = [7u8, 9, 1, 2];
    let (rest, c) = Connect::decode(&bytes).unwrap();
    assert_eq!(c, Connect { kind: 7, id: 9 });
    assert_eq!(rest, &[1, 2]);
    assert_eq!(SensorRes::decode(&[1, 2, 3]), Err(DecodeError::NeedMoreData));
}

#[test]
fn unknown_kind_is_fatal() {
    let mut bytes = Message::ack(MessageType::CONFIG).encode();
    bytes[5] = (bytes[5] & 0xf0) | 9;
    assert_eq!(Message::decode(&bytes).err(), Some(DecodeError::UnknownKind));
}

#[test]
fn bad_magic_error() {
    let mut bytes = Message::ack(MessageType::CONFIG).encode();
    bytes[3] = b'Q';
    assert_eq!(Message::decode(&bytes).err(), Some(DecodeError::BadMagic));
}

#[test]
fn short_header_needs_more_data() {
    let bytes = Message::ack(MessageType::CONFIG).encode();
    for k in 0..8 {
        assert_eq!(Message::decode(&bytes[..k]).err(), Some(DecodeError::NeedMoreData));
        assert!(Message::try_decode(&bytes[..k]).is_none());
    }
}

#[test]
fn every_truncation_of_a_message_is_incomplete() {
    let msg = Message::new(MessageType::CONFIG, Payload::Config(Config { key: 3, value: bits(40.0) }));
    let bytes = msg.encode();
    assert_eq!(bytes.len(), 13);
    for k in 0..bytes.len() {
        assert!(Message::try_decode(&bytes[..k]).is_none());
    }
    assert_eq!(Message::try_decode(&bytes), Some((msg, 13)));
}

#[test]
fn ack_ignores_length_and_following_bytes() {
    let mut bytes = Message::ack(MessageType::SensorData).encode();
    bytes.extend_from_slice(&[1, 2, 3]);
    let (msg, consumed) = Message::try_decode(&bytes).unwrap();
    assert_eq!(consumed, 8);
    assert_eq!(msg, Message::ack(MessageType::SensorData));
}

#[test]
fn every_message_type_round_trips() {
    let cases = vec![
        (MessageType::CONNECT, Payload::Connect(Connect { kind: 0, id: 2 })),
        (MessageType::SensorData, Payload::SensorData(SensorData { sensor_id: 1, value: bits(-3.5) })),
        (MessageType::ActCmd, Payload::ActCmd(ActCmd { command: 0 })),
        (MessageType::SensorQuery, Payload::SensorQuery(SensorQuery { sensor_id: 0 })),
        (MessageType::SensorRes, Payload::SensorRes(SensorRes { sensor_id: 2, value: bits(400.0) })),
        (MessageType::CONFIG, Payload::Config(Config { key: 6, value: bits(300.0) })),
    ];
    for (kind, p) in cases {
        let msg = Message::new(kind, p);
        let bytes = msg.encode();
        assert_eq!(bytes.len(), 8 + p.encoded_len() as usize);
        assert_eq!(Message::try_decode(&bytes), Some((msg, bytes.len())));
    }
}

#[test]
fn decoding_then_encoding_gives_back_the_bytes() {
    let bytes = [b'P', b'P', b'P', b'P', 9, 0x75, 0x12, 0x34, 8, 0x40, 0xa0, 0, 0, 0xee];
    let (msg, consumed) = Message::try_decode(&bytes).unwrap();
    assert_eq!(consumed, 13);
    assert_eq!(msg.header.version, 9);
    assert_eq!(msg.header.reserved, 7);
    assert_eq!(msg.header.length, 0x1234);
    assert_eq!(msg.payload, Some(Payload::Config(Config { key: 8, value: 5.0f32.to_bits() })));
    assert_eq!(msg.encode(), bytes[..13].to_vec());
}

#[test]
fn appended_bytes_change_nothing() {
    let msg = Message::new(MessageType::SensorQuery, Payload::SensorQuery(SensorQuery { sensor_id: 1 }));
    let bytes = msg.encode();
    let mut longer = bytes.clone();
    longer.extend_from_slice(&[0xff, 0x00, 0x12]);
    let (rest, a) = Message::decode(&bytes).unwrap();
    let (rest2, b) = Message::decode(&longer).unwrap();
    assert_eq!(a, b);
    assert!(rest.is_empty());
    assert_eq!(rest2, &[0xff, 0x00, 0x12]);
}
