//! The greenhouse wire protocol.
//!
//! Every message starts with an 8-byte header laid out, most significant bit
//! first, as `[ magic:32 | version:8 | ack:1 | reserved:3 | kind:4 | length:16 ]`
//! (network byte order). Unless it is an acknowledgement, the header is
//! followed by the payload that its kind announces.
use vstd::prelude::*;

verus! {

/// The magic number of the protocol: the ASCII bytes `"PPPP"` read big-endian.
pub const MAGIC: u32 = 0x5050_5050;

/// Why a byte buffer does not hold a message.
#[derive(PartialEq, Eq, Structural, Clone, Copy, Debug)]
pub enum DecodeError {
    /// The buffer ends before the message does; more bytes may complete it.
    NeedMoreData,
    /// The header's kind field names no message type (a fatal error).
    UnknownKind,
    /// The header does not carry the protocol's magic number (a fatal error).
    BadMagic,
}

/// The type of a message, carried in the header's 4-bit kind field.
#[allow(non_camel_case_types)]
#[derive(PartialEq, Eq, Structural, Clone, Copy, Debug)]
pub enum MessageType {
    CONNECT,
    SensorData,
    ActCmd,
    SensorQuery,
    SensorRes,
    CONFIG,
}

/// The code of each message type in the header's kind field.
pub open spec fn kind_code(kind: MessageType) -> u8 {
    match kind {
        MessageType::CONNECT => 0,
        MessageType::SensorData => 1,
        MessageType::ActCmd => 2,
        MessageType::SensorQuery => 3,
        MessageType::SensorRes => 4,
        MessageType::CONFIG => 5,
    }
}

/// The message type that a kind code names, if any.
pub open spec fn kind_from_code(code: u8) -> Option<MessageType> {
    if code == 0 {
        Some(MessageType::CONNECT)
    } else if code == 1 {
        Some(MessageType::SensorData)
    } else if code == 2 {
        Some(MessageType::ActCmd)
    } else if code == 3 {
        Some(MessageType::SensorQuery)
    } else if code == 4 {
        Some(MessageType::SensorRes)
    } else if code == 5 {
        Some(MessageType::CONFIG)
    } else {
        None
    }
}

fn encode_kind(kind: MessageType) -> (code: u8)
    ensures
        code == kind_code(kind),
{
    match kind {
        MessageType::CONNECT => 0,
        MessageType::SensorData => 1,
        MessageType::ActCmd => 2,
        MessageType::SensorQuery => 3,
        MessageType::SensorRes => 4,
        MessageType::CONFIG => 5,
    }
}

fn decode_kind(code: u8) -> (kind: Option<MessageType>)
    ensures
        kind == kind_from_code(code),
{
    match code {
        0 => Some(MessageType::CONNECT),
        1 => Some(MessageType::SensorData),
        2 => Some(MessageType::ActCmd),
        3 => Some(MessageType::SensorQuery),
        4 => Some(MessageType::SensorRes),
        5 => Some(MessageType::CONFIG),
        _ => None,
    }
}

/// The message header.
#[derive(PartialEq, Eq, Structural, Clone, Copy, Debug)]
pub struct Header {
    pub magic_number: u32,
    pub version: u8,
    pub ack: bool,
    /// Only its low 3 bits travel on the wire.
    pub reserved: u8,
    pub kind: MessageType,
    pub length: u16,
}

/// Encoding and decoding of protocol values.
///
/// `decode` reads one value from the front of `input` and hands back the
/// bytes that follow it.
pub trait EncodeDecode: Sized {
    /// The bytes that encode `self`.
    spec fn spec_encode(&self) -> Seq<u8>;

    /// What decoding yields on `input`: the number of bytes read and the value,
    /// or the reason why there is no value.
    spec fn spec_decode(input: Seq<u8>) -> Result<(int, Self), DecodeError>;

    fn encode(&self) -> (out: Vec<u8>)
        ensures
            out@ == self.spec_encode(),
    ;

    fn decode(input: &[u8]) -> (res: Result<(&[u8], Self), DecodeError>)
        ensures
            decode_agrees(input@, res, Self::spec_decode(input@)),
    ;
}

/// An executable decode result agrees with its specification: the same value
/// and, as the remaining bytes, the input without the bytes that were read.
pub open spec fn decode_agrees<'a, T>(
    input: Seq<u8>,
    res: Result<(&'a [u8], T), DecodeError>,
    spec: Result<(int, T), DecodeError>,
) -> bool {
    match res {
        Ok((rest, v)) => match spec {
            Ok((n, w)) => v == w && 0 <= n <= input.len() && rest@ == input.skip(n),
            Err(_) => false,
        },
        Err(e) => spec == Err::<(int, T), DecodeError>(e),
    }
}

/// The flags byte of the header: `ack:1 | reserved:3 | kind:4`.
pub open spec fn flags_byte(ack: bool, reserved: u8, kind: MessageType) -> u8 {
    (if ack { 0x80u8 } else { 0u8 }) | ((reserved & 7u8) << 4u8) | kind_code(kind)
}

/// The four bytes of a `u32`, most significant first.
pub open spec fn be_u32(v: u32) -> Seq<u8> {
    seq![(v >> 24u32) as u8, (v >> 16u32) as u8, (v >> 8u32) as u8, v as u8]
}

/// The `u32` that four bytes encode, most significant first.
pub open spec fn u32_from_be(b0: u8, b1: u8, b2: u8, b3: u8) -> u32 {
    ((b0 as u32) << 24u32) | ((b1 as u32) << 16u32) | ((b2 as u32) << 8u32) | (b3 as u32)
}

fn push_be_u32(out: &mut Vec<u8>, v: u32)
    ensures
        final(out)@ == old(out)@ + be_u32(v),
{
    out.push((v >> 24u32) as u8);
    out.push((v >> 16u32) as u8);
    out.push((v >> 8u32) as u8);
    out.push(v as u8);
    assert(out@ =~= old(out)@ + be_u32(v));
}

fn read_be_u32(input: &[u8], at: usize) -> (v: u32)
    requires
        at + 4 <= input@.len(),
    ensures
        v == u32_from_be(input@[at as int], input@[at + 1], input@[at + 2], input@[at + 3]),
{
    ((input[at] as u32) << 24u32) | ((input[at + 1] as u32) << 16u32) | ((input[at + 2] as u32)
        << 8u32) | (input[at + 3] as u32)
}

impl EncodeDecode for Header {
    open spec fn spec_encode(&self) -> Seq<u8> {
        be_u32(self.magic_number) + seq![
            self.version,
            flags_byte(self.ack, self.reserved, self.kind),
            (self.length >> 8u16) as u8,
            self.length as u8,
        ]
    }

    /// The kind field is checked before the magic number.
    open spec fn spec_decode(input: Seq<u8>) -> Result<(int, Header), DecodeError> {
        if input.len() < 8 {
            Err(DecodeError::NeedMoreData)
        } else {
            let flags = input[5];
            match kind_from_code(flags & 0x0fu8) {
                None => Err(DecodeError::UnknownKind),
                Some(kind) => {
                    let magic = u32_from_be(input[0], input[1], input[2], input[3]);
                    if magic != MAGIC {
                        Err(DecodeError::BadMagic)
                    } else {
                        Ok(
                            (
                                8,
                                Header {
                                    magic_number: magic,
                                    version: input[4],
                                    ack: flags & 0x80u8 != 0,
                                    reserved: (flags >> 4u8) & 7u8,
                                    kind,
                                    length: ((input[6] as u16) << 8u16) | (input[7] as u16),
                                },
                            ),
                        )
                    }
                },
            }
        }
    }

    fn encode(&self) -> (out: Vec<u8>) {
        let ack_bit: u8 = if self.ack {
            0x80
        } else {
            0
        };
        let kind = encode_kind(self.kind);
        let mut out: Vec<u8> = Vec::new();
        push_be_u32(&mut out, self.magic_number);
        out.push(self.version);
        out.push(ack_bit | ((self.reserved & 7u8) << 4u8) | kind);
        out.push((self.length >> 8u16) as u8);
        out.push(self.length as u8);
        assert(out@ =~= self.spec_encode());
        out
    }

    fn decode(input: &[u8]) -> (res: Result<(&[u8], Header), DecodeError>) {
        if input.len() < 8 {
            return Err(DecodeError::NeedMoreData);
        }
        let flags = input[5];
        let kind = match decode_kind(flags & 0x0f) {
            Some(k) => k,
            None => {
                return Err(DecodeError::UnknownKind);
            },
        };
        let magic = read_be_u32(input, 0);
        if magic != MAGIC {
            return Err(DecodeError::BadMagic);
        }
        let header = Header {
            magic_number: magic,
            version: input[4],
            ack: flags & 0x80 != 0,
            reserved: (flags >> 4u8) & 7,
            kind,
            length: ((input[6] as u16) << 8u16) | (input[7] as u16),
        };
        let rest = &input[8..input.len()];
        Ok((rest, header))
    }
}

/// CONNECT payload: a device announces itself (`kind` 0 for a sensor, 1 for
/// an actuator).
#[derive(PartialEq, Eq, Structural, Clone, Copy, Debug)]
pub struct Connect {
    pub kind: u8,
    pub id: u8,
}

impl EncodeDecode for Connect {
    open spec fn spec_encode(&self) -> Seq<u8> {
        seq![self.kind, self.id]
    }

    open spec fn spec_decode(input: Seq<u8>) -> Result<(int, Connect), DecodeError> {
        if input.len() < 2 {
            Err(DecodeError::NeedMoreData)
        } else {
            Ok((2, Connect { kind: input[0], id: input[1] }))
        }
    }

    fn encode(&self) -> (out: Vec<u8>) {
        let mut out: Vec<u8> = Vec::new();
        out.push(self.kind);
        out.push(self.id);
        assert(out@ =~= self.spec_encode());
        out
    }

    fn decode(input: &[u8]) -> (res: Result<(&[u8], Connect), DecodeError>) {
        if input.len() < 2 {
            return Err(DecodeError::NeedMoreData);
        }
        Ok((&input[2..input.len()], Connect { kind: input[0], id: input[1] }))
    }
}

/// SENSOR_DATA payload: a reading sent by a sensor. `value` holds the bits of
/// the reading as an IEEE-754 single-precision number, as they travel.
#[derive(PartialEq, Eq, Structural, Clone, Copy, Debug)]
pub struct SensorData {
    pub sensor_id: u8,
    pub value: u32,
}

impl EncodeDecode for SensorData {
    open spec fn spec_encode(&self) -> Seq<u8> {
        seq![self.sensor_id] + be_u32(self.value)
    }

    open spec fn spec_decode(input: Seq<u8>) -> Result<(int, SensorData), DecodeError> {
        if input.len() < 5 {
            Err(DecodeError::NeedMoreData)
        } else {
            Ok(
                (
                    5,
                    SensorData {
                        sensor_id: input[0],
                        value: u32_from_be(input[1], input[2], input[3], input[4]),
                    },
                ),
            )
        }
    }

    fn encode(&self) -> (out: Vec<u8>) {
        let mut out: Vec<u8> = Vec::new();
        out.push(self.sensor_id);
        push_be_u32(&mut out, self.value);
        assert(out@ =~= self.spec_encode());
        out
    }

    fn decode(input: &[u8]) -> (res: Result<(&[u8], SensorData), DecodeError>) {
        if input.len() < 5 {
            return Err(DecodeError::NeedMoreData);
        }
        let value = read_be_u32(input, 1);
        Ok((&input[5..input.len()], SensorData { sensor_id: input[0], value }))
    }
}

/// ACT_CMD payload: the manager tells an actuator to switch on (1) or off.
#[derive(PartialEq, Eq, Structural, Clone, Copy, Debug)]
pub struct ActCmd {
    pub command: u8,
}

impl EncodeDecode for ActCmd {
    open spec fn spec_encode(&self) -> Seq<u8> {
        seq![self.command]
    }

    open spec fn spec_decode(input: Seq<u8>) -> Result<(int, ActCmd), DecodeError> {
        if input.len() < 1 {
            Err(DecodeError::NeedMoreData)
        } else {
            Ok((1, ActCmd { command: input[0] }))
        }
    }

    fn encode(&self) -> (out: Vec<u8>) {
        let mut out: Vec<u8> = Vec::new();
        out.push(self.command);
        assert(out@ =~= self.spec_encode());
        out
    }

    fn decode(input: &[u8]) -> (res: Result<(&[u8], ActCmd), DecodeError>) {
        if input.len() < 1 {
            return Err(DecodeError::NeedMoreData);
        }
        Ok((&input[1..input.len()], ActCmd { command: input[0] }))
    }
}

/// SENSOR_QUERY payload: the client asks for a sensor's latest reading.
#[derive(PartialEq, Eq, Structural, Clone, Copy, Debug)]
pub struct SensorQuery {
    pub sensor_id: u8,
}

impl EncodeDecode for SensorQuery {
    open spec fn spec_encode(&self) -> Seq<u8> {
        seq![self.sensor_id]
    }

    open spec fn spec_decode(input: Seq<u8>) -> Result<(int, SensorQuery), DecodeError> {
        if input.len() < 1 {
            Err(DecodeError::NeedMoreData)
        } else {
            Ok((1, SensorQuery { sensor_id: input[0] }))
        }
    }

    fn encode(&self) -> (out: Vec<u8>) {
        let mut out: Vec<u8> = Vec::new();
        out.push(self.sensor_id);
        assert(out@ =~= self.spec_encode());
        out
    }

    fn decode(input: &[u8]) -> (res: Result<(&[u8], SensorQuery), DecodeError>) {
        if input.len() < 1 {
            return Err(DecodeError::NeedMoreData);
        }
        Ok((&input[1..input.len()], SensorQuery { sensor_id: input[0] }))
    }
}

/// SENSOR_RES payload: the manager answers a query with the latest reading
/// (IEEE-754 single-precision bits in `value`).
#[derive(PartialEq, Eq, Structural, Clone, Copy, Debug)]
pub struct SensorRes {
    pub sensor_id: u8,
    pub value: u32,
}

impl EncodeDecode for SensorRes {
    open spec fn spec_encode(&self) -> Seq<u8> {
        seq![self.sensor_id] + be_u32(self.value)
    }

    open spec fn spec_decode(input: Seq<u8>) -> Result<(int, SensorRes), DecodeError> {
        if input.len() < 5 {
            Err(DecodeError::NeedMoreData)
        } else {
            Ok(
                (
                    5,
                    SensorRes {
                        sensor_id: input[0],
                        value: u32_from_be(input[1], input[2], input[3], input[4]),
                    },
                ),
            )
        }
    }

    fn encode(&self) -> (out: Vec<u8>) {
        let mut out: Vec<u8> = Vec::new();
        out.push(self.sensor_id);
        push_be_u32(&mut out, self.value);
        assert(out@ =~= self.spec_encode());
        out
    }

    fn decode(input: &[u8]) -> (res: Result<(&[u8], SensorRes), DecodeError>) {
        if input.len() < 5 {
            return Err(DecodeError::NeedMoreData);
        }
        let value = read_be_u32(input, 1);
        Ok((&input[5..input.len()], SensorRes { sensor_id: input[0], value }))
    }
}

/// CONFIG payload: the client sets one of the manager's parameters; `value`
/// holds IEEE-754 single-precision bits.
#[derive(PartialEq, Eq, Structural, Clone, Copy, Debug)]
pub struct Config {
    pub key: u8,
    pub value: u32,
}

impl EncodeDecode for Config {
    open spec fn spec_encode(&self) -> Seq<u8> {
        seq![self.key] + be_u32(self.value)
    }

    open spec fn spec_decode(input: Seq<u8>) -> Result<(int, Config), DecodeError> {
        if input.len() < 5 {
            Err(DecodeError::NeedMoreData)
        } else {
            Ok((5, Config { key: input[0], value: u32_from_be(input[1], input[2], input[3], input[4]) }))
        }
    }

    fn encode(&self) -> (out: Vec<u8>) {
        let mut out: Vec<u8> = Vec::new();
        out.push(self.key);
        push_be_u32(&mut out, self.value);
        assert(out@ =~= self.spec_encode());
        out
    }

    fn decode(input: &[u8]) -> (res: Result<(&[u8], Config), DecodeError>) {
        if input.len() < 5 {
            return Err(DecodeError::NeedMoreData);
        }
        let value = read_be_u32(input, 1);
        Ok((&input[5..input.len()], Config { key: input[0], value }))
    }
}

/// The payload of a message: one of the six message bodies of the protocol.
#[derive(PartialEq, Eq, Structural, Clone, Copy, Debug)]
pub enum Payload {
    Connect(Connect),
    SensorData(SensorData),
    ActCmd(ActCmd),
    SensorQuery(SensorQuery),
    SensorRes(SensorRes),
    Config(Config),
}

/// The size in bytes of the payload that a message type carries.
pub open spec fn payload_len(kind: MessageType) -> int {
    match kind {
        MessageType::CONNECT => 2,
        MessageType::SensorData => 5,
        MessageType::ActCmd => 1,
        MessageType::SensorQuery => 1,
        MessageType::SensorRes => 5,
        MessageType::CONFIG => 5,
    }
}

/// Decoding of the payload that a header of type `kind` announces.
pub open spec fn spec_decode_payload(kind: MessageType, input: Seq<u8>) -> Result<
    (int, Payload),
    DecodeError,
> {
    match kind {
        MessageType::CONNECT => match Connect::spec_decode(input) {
            Ok((n, p)) => Ok((n, Payload::Connect(p))),
            Err(e) => Err(e),
        },
        MessageType::SensorData => match SensorData::spec_decode(input) {
            Ok((n, p)) => Ok((n, Payload::SensorData(p))),
            Err(e) => Err(e),
        },
        MessageType::ActCmd => match ActCmd::spec_decode(input) {
            Ok((n, p)) => Ok((n, Payload::ActCmd(p))),
            Err(e) => Err(e),
        },
        MessageType::SensorQuery => match SensorQuery::spec_decode(input) {
            Ok((n, p)) => Ok((n, Payload::SensorQuery(p))),
            Err(e) => Err(e),
        },
        MessageType::SensorRes => match SensorRes::spec_decode(input) {
            Ok((n, p)) => Ok((n, Payload::SensorRes(p))),
            Err(e) => Err(e),
        },
        MessageType::CONFIG => match Config::spec_decode(input) {
            Ok((n, p)) => Ok((n, Payload::Config(p))),
            Err(e) => Err(e),
        },
    }
}

impl Payload {
    /// The bytes that encode the payload.
    pub open spec fn spec_bytes(&self) -> Seq<u8> {
        match self {
            Payload::Connect(p) => p.spec_encode(),
            Payload::SensorData(p) => p.spec_encode(),
            Payload::ActCmd(p) => p.spec_encode(),
            Payload::SensorQuery(p) => p.spec_encode(),
            Payload::SensorRes(p) => p.spec_encode(),
            Payload::Config(p) => p.spec_encode(),
        }
    }

    /// The message type whose body this payload is.
    pub open spec fn spec_kind(&self) -> MessageType {
        match self {
            Payload::Connect(_) => MessageType::CONNECT,
            Payload::SensorData(_) => MessageType::SensorData,
            Payload::ActCmd(_) => MessageType::ActCmd,
            Payload::SensorQuery(_) => MessageType::SensorQuery,
            Payload::SensorRes(_) => MessageType::SensorRes,
            Payload::Config(_) => MessageType::CONFIG,
        }
    }

    /// The size of the encoded payload, known without encoding it.
    pub fn encoded_len(&self) -> (n: u16)
        ensures
            n == self.spec_bytes().len(),
            n == payload_len(self.spec_kind()),
    {
        match self {
            Payload::Connect(_) => 2,
            Payload::SensorData(_) => 5,
            Payload::ActCmd(_) => 1,
            Payload::SensorQuery(_) => 1,
            Payload::SensorRes(_) => 5,
            Payload::Config(_) => 5,
        }
    }

    fn encode(&self) -> (out: Vec<u8>)
        ensures
            out@ == self.spec_bytes(),
    {
        match self {
            Payload::Connect(p) => p.encode(),
            Payload::SensorData(p) => p.encode(),
            Payload::ActCmd(p) => p.encode(),
            Payload::SensorQuery(p) => p.encode(),
            Payload::SensorRes(p) => p.encode(),
            Payload::Config(p) => p.encode(),
        }
    }
}

fn decode_payload(kind: MessageType, input: &[u8]) -> (res: Result<(&[u8], Payload), DecodeError>)
    ensures
        decode_agrees(input@, res, spec_decode_payload(kind, input@)),
{
    match kind {
        MessageType::CONNECT => match Connect::decode(input) {
            Ok((rest, p)) => Ok((rest, Payload::Connect(p))),
            Err(e) => Err(e),
        },
        MessageType::SensorData => match SensorData::decode(input) {
            Ok((rest, p)) => Ok((rest, Payload::SensorData(p))),
            Err(e) => Err(e),
        },
        MessageType::ActCmd => match ActCmd::decode(input) {
            Ok((rest, p)) => Ok((rest, Payload::ActCmd(p))),
            Err(e) => Err(e),
        },
        MessageType::SensorQuery => match SensorQuery::decode(input) {
            Ok((rest, p)) => Ok((rest, Payload::SensorQuery(p))),
            Err(e) => Err(e),
        },
        MessageType::SensorRes => match SensorRes::decode(input) {
            Ok((rest, p)) => Ok((rest, Payload::SensorRes(p))),
            Err(e) => Err(e),
        },
        MessageType::CONFIG => match Config::decode(input) {
            Ok((rest, p)) => Ok((rest, Payload::Config(p))),
            Err(e) => Err(e),
        },
    }
}

/// A message: a header and, unless it is an acknowledgement, a payload.
#[derive(PartialEq, Eq, Structural, Clone, Copy, Debug)]
pub struct Message {
    pub header: Header,
    pub payload: Option<Payload>,
}

/// The decoding error is one that no further bytes can repair.
pub open spec fn is_fatal(e: DecodeError) -> bool {
    e == DecodeError::UnknownKind || e == DecodeError::BadMagic
}

impl EncodeDecode for Message {
    /// The header's bytes followed by the payload's, if any. The header is
    /// taken as it is: its kind and length are not checked against the payload.
    open spec fn spec_encode(&self) -> Seq<u8> {
        self.header.spec_encode() + match self.payload {
            Some(p) => p.spec_bytes(),
            None => Seq::<u8>::empty(),
        }
    }

    /// An acknowledgement is read without a payload; otherwise the payload
    /// that the header's kind announces follows the header.
    open spec fn spec_decode(input: Seq<u8>) -> Result<(int, Message), DecodeError> {
        match Header::spec_decode(input) {
            Err(e) => Err(e),
            Ok((n, header)) => if header.ack {
                Ok((n, Message { header, payload: None }))
            } else {
                match spec_decode_payload(header.kind, input.skip(n)) {
                    Err(e) => Err(e),
                    Ok((m, payload)) => Ok((n + m, Message { header, payload: Some(payload) })),
                }
            },
        }
    }

    fn encode(&self) -> (out: Vec<u8>) {
        let mut out = self.header.encode();
        match &self.payload {
            Some(p) => {
                let mut bytes = p.encode();
                out.append(&mut bytes);
            },
            None => {},
        }
        assert(out@ =~= self.spec_encode());
        out
    }

    fn decode(input: &[u8]) -> (res: Result<(&[u8], Message), DecodeError>) {
        let (rest, header) = match Header::decode(input) {
            Ok(r) => r,
            Err(e) => {
                return Err(e);
            },
        };
        if header.ack {
            return Ok((rest, Message { header, payload: None }));
        }
        match decode_payload(header.kind, rest) {
            Ok((rest2, payload)) => {
                proof {
                    let m = spec_decode_payload(header.kind, input@.skip(8))->Ok_0.0;
                    assert(rest2@ =~= input@.skip(8 + m));
                }
                Ok((rest2, Message { header, payload: Some(payload) }))
            },
            Err(e) => Err(e),
        }
    }
}

impl Message {
    /// The message is one that its own encoding decodes back to: it carries the
    /// magic number, reserved bits that fit their 3-bit field, and exactly the
    /// payload its header announces (none for an acknowledgement).
    pub open spec fn well_formed(&self) -> bool {
        &&& self.header.magic_number == MAGIC
        &&& self.header.reserved < 8
        &&& if self.header.ack {
            self.payload is None
        } else {
            self.payload matches Some(p) && p.spec_kind() == self.header.kind
        }
    }

    /// The message of type `kind` that carries `payload`, with the header
    /// filled in: the magic number, version 1, no acknowledgement, reserved
    /// bits 0 and the payload's size as length.
    pub open spec fn spec_new(kind: MessageType, payload: Payload) -> Message {
        Message {
            header: Header {
                magic_number: MAGIC,
                version: 1,
                ack: false,
                reserved: 0,
                kind,
                length: payload.spec_bytes().len() as u16,
            },
            payload: Some(payload),
        }
    }

    /// The acknowledgement of a message of type `kind`: no payload, length 0.
    pub open spec fn spec_ack(kind: MessageType) -> Message {
        Message {
            header: Header {
                magic_number: MAGIC,
                version: 1,
                ack: true,
                reserved: 0,
                kind,
                length: 0,
            },
            payload: None,
        }
    }

    /// Builds a message of type `kind` that carries `payload`, its header
    /// filled in (see `spec_new`).
    pub fn new(kind: MessageType, payload: Payload) -> (m: Message)
        ensures
            m == Message::spec_new(kind, payload),
            kind == payload.spec_kind() ==> m.well_formed(),
    {
        let length = payload.encoded_len();
        Message {
            header: Header { magic_number: MAGIC, version: 1, ack: false, reserved: 0, kind, length },
            payload: Some(payload),
        }
    }

    /// Builds the acknowledgement of a message of type `kind`.
    pub fn ack(kind: MessageType) -> (m: Message)
        ensures
            m == Message::spec_ack(kind),
            m.well_formed(),
    {
        Message {
            header: Header { magic_number: MAGIC, version: 1, ack: true, reserved: 0, kind, length: 0 },
            payload: None,
        }
    }

    /// Reads one message from the front of a receive buffer: the message and
    /// the number of bytes it took, or `None` while the buffer does not yet
    /// hold a whole message. A buffer whose header is corrupt (unknown kind or
    /// wrong magic number) is excluded: no later bytes can make it a message.
    pub fn try_decode(input: &[u8]) -> (r: Option<(Message, usize)>)
        requires
            !(Message::spec_decode(input@) matches Err(e) && is_fatal(e)),
        ensures
            match Message::spec_decode(input@) {
                Ok((n, m)) => r == Some((m, n as usize)),
                Err(_) => r is None,
            },
    {
        match Message::decode(input) {
            Ok((rest, msg)) => {
                let consumed = input.len() - rest.len();
                Some((msg, consumed))
            },
            Err(_) => None,
        }
    }
}

proof fn lemma_be_u32_round_trip(v: u32)
    ensures
        u32_from_be((v >> 24u32) as u8, (v >> 16u32) as u8, (v >> 8u32) as u8, v as u8) == v,
{
    assert(((((v >> 24u32) as u8) as u32) << 24u32) | ((((v >> 16u32) as u8) as u32) << 16u32) | ((
    ((v >> 8u32) as u8) as u32) << 8u32) | ((v as u8) as u32) == v) by (bit_vector);
}

proof fn lemma_be_u16_round_trip(v: u16)
    ensures
        ((((v >> 8u16) as u8) as u16) << 8u16) | ((v as u8) as u16) == v,
{
    assert(((((v >> 8u16) as u8) as u16) << 8u16) | ((v as u8) as u16) == v) by (bit_vector);
}

proof fn lemma_flags_round_trip(ack: bool, reserved: u8, kind: MessageType)
    requires
        reserved < 8,
    ensures
        flags_byte(ack, reserved, kind) & 0x0fu8 == kind_code(kind),
        (flags_byte(ack, reserved, kind) & 0x80u8 != 0) == ack,
        (flags_byte(ack, reserved, kind) >> 4u8) & 7u8 == reserved,
        kind_from_code(kind_code(kind)) == Some(kind),
{
    let code = kind_code(kind);
    assert(code < 16);
    if ack {
        assert((0x80u8 | ((reserved & 7u8) << 4u8) | code) & 0x0fu8 == code) by (bit_vector)
            requires
                code < 16,
        ;
        assert(((0x80u8 | ((reserved & 7u8) << 4u8) | code) & 0x80u8) != 0) by (bit_vector);
        assert(((0x80u8 | ((reserved & 7u8) << 4u8) | code) >> 4u8) & 7u8 == reserved)
            by (bit_vector)
            requires
                code < 16,
                reserved < 8,
        ;
    } else {
        assert((0u8 | ((reserved & 7u8) << 4u8) | code) & 0x0fu8 == code) by (bit_vector)
            requires
                code < 16,
        ;
        assert(((0u8 | ((reserved & 7u8) << 4u8) | code) & 0x80u8) == 0) by (bit_vector)
            requires
                code < 16,
        ;
        assert(((0u8 | ((reserved & 7u8) << 4u8) | code) >> 4u8) & 7u8 == reserved)
            by (bit_vector)
            requires
                code < 16,
                reserved < 8,
        ;
    }
}

/// Header round trip: a header with the protocol's magic number and reserved
/// bits that fit their field is read back, field for field, from its 8-byte
/// encoding, whatever bytes follow it.
pub proof fn lemma_header_round_trip(h: Header, rest: Seq<u8>)
    requires
        h.magic_number == MAGIC,
        h.reserved < 8,
    ensures
        h.spec_encode().len() == 8,
        Header::spec_decode(h.spec_encode() + rest) == Ok::<(int, Header), DecodeError>((8, h)),
{
    let s = h.spec_encode() + rest;
    lemma_be_u32_round_trip(h.magic_number);
    lemma_be_u16_round_trip(h.length);
    lemma_flags_round_trip(h.ack, h.reserved, h.kind);
    assert(s[0] == (h.magic_number >> 24u32) as u8);
    assert(s[1] == (h.magic_number >> 16u32) as u8);
    assert(s[2] == (h.magic_number >> 8u32) as u8);
    assert(s[3] == h.magic_number as u8);
    assert(s[4] == h.version);
    assert(s[5] == flags_byte(h.ack, h.reserved, h.kind));
    assert(s[6] == (h.length >> 8u16) as u8);
    assert(s[7] == h.length as u8);
}

/// A payload is read back from its encoding, whatever bytes follow it.
pub proof fn lemma_payload_round_trip(p: Payload, rest: Seq<u8>)
    ensures
        p.spec_bytes().len() == payload_len(p.spec_kind()),
        spec_decode_payload(p.spec_kind(), p.spec_bytes() + rest) == Ok::<(int, Payload), DecodeError>(
            (payload_len(p.spec_kind()), p),
        ),
{
    let s = p.spec_bytes() + rest;
    match p {
        Payload::SensorData(d) => {
            lemma_be_u32_round_trip(d.value);
            assert(s[1] == (d.value >> 24u32) as u8);
            assert(s[2] == (d.value >> 16u32) as u8);
            assert(s[3] == (d.value >> 8u32) as u8);
            assert(s[4] == d.value as u8);
        },
        Payload::SensorRes(d) => {
            lemma_be_u32_round_trip(d.value);
            assert(s[1] == (d.value >> 24u32) as u8);
            assert(s[2] == (d.value >> 16u32) as u8);
            assert(s[3] == (d.value >> 8u32) as u8);
            assert(s[4] == d.value as u8);
        },
        Payload::Config(d) => {
            lemma_be_u32_round_trip(d.value);
            assert(s[1] == (d.value >> 24u32) as u8);
            assert(s[2] == (d.value >> 16u32) as u8);
            assert(s[3] == (d.value >> 8u32) as u8);
            assert(s[4] == d.value as u8);
        },
        _ => {},
    }
}

proof fn lemma_u32_from_be_round_trip(b0: u8, b1: u8, b2: u8, b3: u8)
    ensures
        be_u32(u32_from_be(b0, b1, b2, b3)) == seq![b0, b1, b2, b3],
{
    let v = u32_from_be(b0, b1, b2, b3);
    assert((((((b0 as u32) << 24u32) | ((b1 as u32) << 16u32) | ((b2 as u32) << 8u32) | (b3 as u32))
        >> 24u32) as u8) == b0) by (bit_vector);
    assert((((((b0 as u32) << 24u32) | ((b1 as u32) << 16u32) | ((b2 as u32) << 8u32) | (b3 as u32))
        >> 16u32) as u8) == b1) by (bit_vector);
    assert((((((b0 as u32) << 24u32) | ((b1 as u32) << 16u32) | ((b2 as u32) << 8u32) | (b3 as u32))
        >> 8u32) as u8) == b2) by (bit_vector);
    assert(((((b0 as u32) << 24u32) | ((b1 as u32) << 16u32) | ((b2 as u32) << 8u32) | (b3 as u32))
        as u8) == b3) by (bit_vector);
    assert(be_u32(v) =~= seq![b0, b1, b2, b3]);
}

proof fn lemma_flags_from_byte(f: u8, kind: MessageType)
    requires
        kind_code(kind) == f & 0x0fu8,
    ensures
        flags_byte(f & 0x80u8 != 0, (f >> 4u8) & 7u8, kind) == f,
        (f >> 4u8) & 7u8 < 8,
{
    let code = kind_code(kind);
    assert((f >> 4u8) & 7u8 < 8) by (bit_vector);
    if f & 0x80u8 != 0 {
        assert(0x80u8 | ((((f >> 4u8) & 7u8) & 7u8) << 4u8) | (f & 0x0fu8) == f) by (bit_vector)
            requires
                f & 0x80u8 != 0,
        ;
    } else {
        assert(0u8 | ((((f >> 4u8) & 7u8) & 7u8) << 4u8) | (f & 0x0fu8) == f) by (bit_vector)
            requires
                f & 0x80u8 == 0,
        ;
    }
}

proof fn lemma_kind_code_of_decoded(code: u8)
    requires
        kind_from_code(code) is Some,
    ensures
        kind_code(kind_from_code(code)->Some_0) == code,
{
}

/// What decoding reads is exactly the encoding of what it returns: a decoded
/// message is well formed, and encoding it gives back the bytes consumed.
pub proof fn lemma_decode_then_encode(s: Seq<u8>)
    requires
        Message::spec_decode(s) is Ok,
    ensures
        ({
            let (n, m) = Message::spec_decode(s)->Ok_0;
            m.well_formed() && m.spec_encode() == s.take(n)
        }),
{
    let (n, m) = Message::spec_decode(s)->Ok_0;
    let h = m.header;
    let f = s[5];
    lemma_kind_code_of_decoded(f & 0x0fu8);
    lemma_flags_from_byte(f, h.kind);
    lemma_u32_from_be_round_trip(s[0], s[1], s[2], s[3]);
    let b6 = s[6];
    let b7 = s[7];
    assert((((((b6 as u16) << 8u16) | (b7 as u16)) >> 8u16) as u8) == b6) by (bit_vector);
    assert(((((b6 as u16) << 8u16) | (b7 as u16)) as u8) == b7) by (bit_vector);
    assert(h.spec_encode() =~= s.take(8));
    match m.payload {
        None => {
            assert(m.spec_encode() =~= s.take(8));
        },
        Some(p) => {
            let r = s.skip(8);
            match p {
                Payload::SensorData(d) => {
                    lemma_u32_from_be_round_trip(r[1], r[2], r[3], r[4]);
                },
                Payload::SensorRes(d) => {
                    lemma_u32_from_be_round_trip(r[1], r[2], r[3], r[4]);
                },
                Payload::Config(d) => {
                    lemma_u32_from_be_round_trip(r[1], r[2], r[3], r[4]);
                },
                _ => {},
            }
            assert(p.spec_bytes() =~= r.take(n - 8));
            assert(m.spec_encode() =~= s.take(n));
        },
    }
}

/// A built message carries the given type and payload, the magic number,
/// version 1, no acknowledgement and reserved bits 0, and its header's length
/// is the size of its payload's encoding: the encoded message is the 8 header
/// bytes followed by exactly `length` payload bytes.
pub proof fn lemma_new_header_describes_payload(kind: MessageType, p: Payload)
    ensures
        Message::spec_new(kind, p).header.kind == kind,
        Message::spec_new(kind, p).payload == Some(p),
        Message::spec_new(kind, p).header.magic_number == MAGIC,
        Message::spec_new(kind, p).header.version == 1,
        !Message::spec_new(kind, p).header.ack,
        Message::spec_new(kind, p).header.reserved == 0,
        Message::spec_new(kind, p).header.length == payload_len(p.spec_kind()),
        Message::spec_new(kind, p).header.length == p.spec_bytes().len(),
        Message::spec_new(kind, p).spec_encode().len() == 8 + Message::spec_new(
            kind,
            p,
        ).header.length,
{
    lemma_payload_round_trip(p, Seq::empty());
}

/// The acknowledgement of a type carries that type, is marked as an
/// acknowledgement, has the magic number, version 1, length 0 and no payload;
/// it encodes to the 8 header bytes alone and decodes back to itself, and
/// acknowledgements of distinct types differ.
pub proof fn lemma_ack_carries_its_kind(kind: MessageType, other: MessageType)
    ensures
        Message::spec_ack(kind).header.kind == kind,
        Message::spec_ack(kind).header.ack,
        Message::spec_ack(kind).header.magic_number == MAGIC,
        Message::spec_ack(kind).header.version == 1,
        Message::spec_ack(kind).header.length == 0,
        Message::spec_ack(kind).payload is None,
        Message::spec_ack(kind).spec_encode().len() == 8,
        Message::spec_decode(Message::spec_ack(kind).spec_encode()) == Ok::<(int, Message), DecodeError>(
            (8, Message::spec_ack(kind)),
        ),
        kind != other ==> Message::spec_ack(kind) != Message::spec_ack(other),
{
    let m = Message::spec_ack(kind);
    lemma_message_round_trip(m, Seq::empty());
    assert(m.spec_encode() + Seq::<u8>::empty() =~= m.spec_encode());
}

/// Message round trip: a well-formed message is read back from its
/// encoding, and exactly its own bytes are consumed, whatever bytes follow it
/// in the buffer (so messages sent back to back are read one at a time).
pub proof fn lemma_message_round_trip(m: Message, rest: Seq<u8>)
    requires
        m.well_formed(),
    ensures
        Message::spec_decode(m.spec_encode() + rest) == Ok::<(int, Message), DecodeError>(
            (m.spec_encode().len() as int, m),
        ),
{
    let enc = m.spec_encode();
    let s = enc + rest;
    let hb = m.header.spec_encode();
    lemma_header_round_trip(m.header, enc.skip(8) + rest);
    assert(s =~= hb + (enc.skip(8) + rest));
    match m.payload {
        None => {},
        Some(p) => {
            lemma_payload_round_trip(p, rest);
            assert(s.skip(8) =~= p.spec_bytes() + rest);
        },
    }
}

/// Messages sent back to back are read one at a time: the first decode of
/// the joined bytes yields the first message and consumes exactly its bytes,
/// and decoding what remains yields the second.
pub proof fn lemma_back_to_back(m1: Message, m2: Message)
    requires
        m1.well_formed(),
        m2.well_formed(),
    ensures
        Message::spec_decode(m1.spec_encode() + m2.spec_encode()) == Ok::<(int, Message), DecodeError>(
            (m1.spec_encode().len() as int, m1),
        ),
        Message::spec_decode((m1.spec_encode() + m2.spec_encode()).skip(m1.spec_encode().len() as int))
            == Ok::<(int, Message), DecodeError>((m2.spec_encode().len() as int, m2)),
{
    let e1 = m1.spec_encode();
    let e2 = m2.spec_encode();
    lemma_message_round_trip(m1, e2);
    assert((e1 + e2).skip(e1.len() as int) =~= e2 + Seq::<u8>::empty());
    lemma_message_round_trip(m2, Seq::<u8>::empty());
}

/// Decoding reads only the bytes it consumes: once a buffer decodes to a
/// message, or fails for good, appending bytes changes nothing. Only a buffer
/// that needs more data can be completed by more bytes.
pub proof fn lemma_decode_ignores_appended(s: Seq<u8>, t: Seq<u8>)
    requires
        Message::spec_decode(s) != Err::<(int, Message), DecodeError>(DecodeError::NeedMoreData),
    ensures
        Message::spec_decode(s + t) == Message::spec_decode(s),
{
    let st = s + t;
    assert(s.len() >= 8);
    assert forall|i: int| 0 <= i < s.len() implies st[i] == s[i] by {}
    if let Ok((_, h)) = Header::spec_decode(s) {
        if !h.ack {
            assert(st.skip(8) =~= s.skip(8) + t);
            let rs = s.skip(8);
            let rst = st.skip(8);
            assert(rs.len() >= payload_len(h.kind));
            assert forall|i: int| 0 <= i < rs.len() implies rst[i] == rs[i] by {}
        }
    }
}

/// A message cut short decodes to nothing yet: every proper prefix of a
/// well-formed message's encoding needs more data.
pub proof fn lemma_truncated_message_incomplete(m: Message, k: int)
    requires
        m.well_formed(),
        0 <= k < m.spec_encode().len(),
    ensures
        Message::spec_decode(m.spec_encode().take(k)) == Err::<(int, Message), DecodeError>(
            DecodeError::NeedMoreData,
        ),
{
    let enc = m.spec_encode();
    let s = enc.take(k);
    if k >= 8 {
        lemma_header_round_trip(m.header, enc.skip(8));
        assert(enc =~= m.header.spec_encode() + enc.skip(8));
        let pre = s.take(8);
        assert(pre =~= enc.take(8));
        assert forall|i: int| 0 <= i < 8 implies s[i] == enc[i] by {}
        let p = m.payload->Some_0;
        assert(s.skip(8).len() == k - 8);
        assert(k - 8 < payload_len(p.spec_kind()));
    }
}

/// A header that does not carry the protocol's magic number is refused for
/// good, whatever follows it.
pub proof fn lemma_foreign_magic_rejected(m: Message, rest: Seq<u8>)
    requires
        m.header.magic_number != MAGIC,
    ensures
        Message::spec_decode(m.spec_encode() + rest) == Err::<(int, Message), DecodeError>(
            DecodeError::BadMagic,
        ),
{
    let h = m.header;
    let s = m.spec_encode() + rest;
    lemma_be_u32_round_trip(h.magic_number);
    let code = kind_code(h.kind);
    let r = h.reserved;
    assert(code < 16);
    assert((0x80u8 | ((r & 7u8) << 4u8) | code) & 0x0fu8 == code) by (bit_vector)
        requires
            code < 16,
    ;
    assert((0u8 | ((r & 7u8) << 4u8) | code) & 0x0fu8 == code) by (bit_vector)
        requires
            code < 16,
    ;
    assert(s[0] == (h.magic_number >> 24u32) as u8);
    assert(s[1] == (h.magic_number >> 16u32) as u8);
    assert(s[2] == (h.magic_number >> 8u32) as u8);
    assert(s[3] == h.magic_number as u8);
    assert(s[5] == flags_byte(h.ack, h.reserved, h.kind));
}

} // verus!
