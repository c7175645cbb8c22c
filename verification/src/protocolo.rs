//! The wire protocol's types with Portuguese field names. The bytes on the
//! wire are those of `protocol`; the values differ: ids are held as `u32` and
//! travel as their low byte, and `ActCmd` carries an actuator id that does not
//! travel (it reads back as 0).
use vstd::prelude::*;

use crate::protocol;
pub use crate::protocol::{DecodeError, EncodeDecode, decode_agrees};

verus! {

/// The type of a message.
#[allow(non_camel_case_types)]
#[derive(PartialEq, Eq, Structural, Clone, Copy, Debug)]
pub enum TipoMensagem {
    CONNECT,
    SENSOR_DATA,
    ACT_CMD,
    SENSOR_QUERY,
    SENSOR_RES,
    CONFIG,
}

impl TipoMensagem {
    pub open spec fn spec_to_kind(self) -> protocol::MessageType {
        match self {
            TipoMensagem::CONNECT => protocol::MessageType::CONNECT,
            TipoMensagem::SENSOR_DATA => protocol::MessageType::SensorData,
            TipoMensagem::ACT_CMD => protocol::MessageType::ActCmd,
            TipoMensagem::SENSOR_QUERY => protocol::MessageType::SensorQuery,
            TipoMensagem::SENSOR_RES => protocol::MessageType::SensorRes,
            TipoMensagem::CONFIG => protocol::MessageType::CONFIG,
        }
    }

    pub open spec fn spec_from_kind(k: protocol::MessageType) -> TipoMensagem {
        match k {
            protocol::MessageType::CONNECT => TipoMensagem::CONNECT,
            protocol::MessageType::SensorData => TipoMensagem::SENSOR_DATA,
            protocol::MessageType::ActCmd => TipoMensagem::ACT_CMD,
            protocol::MessageType::SensorQuery => TipoMensagem::SENSOR_QUERY,
            protocol::MessageType::SensorRes => TipoMensagem::SENSOR_RES,
            protocol::MessageType::CONFIG => TipoMensagem::CONFIG,
        }
    }

    fn to_kind(self) -> (k: protocol::MessageType)
        ensures
            k == self.spec_to_kind(),
    {
        match self {
            TipoMensagem::CONNECT => protocol::MessageType::CONNECT,
            TipoMensagem::SENSOR_DATA => protocol::MessageType::SensorData,
            TipoMensagem::ACT_CMD => protocol::MessageType::ActCmd,
            TipoMensagem::SENSOR_QUERY => protocol::MessageType::SensorQuery,
            TipoMensagem::SENSOR_RES => protocol::MessageType::SensorRes,
            TipoMensagem::CONFIG => protocol::MessageType::CONFIG,
        }
    }

    fn from_kind(k: protocol::MessageType) -> (t: TipoMensagem)
        ensures
            t == TipoMensagem::spec_from_kind(k),
    {
        match k {
            protocol::MessageType::CONNECT => TipoMensagem::CONNECT,
            protocol::MessageType::SensorData => TipoMensagem::SENSOR_DATA,
            protocol::MessageType::ActCmd => TipoMensagem::ACT_CMD,
            protocol::MessageType::SensorQuery => TipoMensagem::SENSOR_QUERY,
            protocol::MessageType::SensorRes => TipoMensagem::SENSOR_RES,
            protocol::MessageType::CONFIG => TipoMensagem::CONFIG,
        }
    }
}

/// The message header.
#[derive(PartialEq, Eq, Structural, Clone, Copy, Debug)]
pub struct Header {
    pub magic_number: u32,
    pub versao: u8,
    pub ack: bool,
    pub reserved: u8,
    pub tipo: TipoMensagem,
    pub tamanho: u16,
}

impl Header {
    /// The same header as a `protocol` header.
    pub open spec fn spec_wire(self) -> protocol::Header {
        protocol::Header {
            magic_number: self.magic_number,
            version: self.versao,
            ack: self.ack,
            reserved: self.reserved,
            kind: self.tipo.spec_to_kind(),
            length: self.tamanho,
        }
    }

    pub open spec fn spec_from_wire(h: protocol::Header) -> Header {
        Header {
            magic_number: h.magic_number,
            versao: h.version,
            ack: h.ack,
            reserved: h.reserved,
            tipo: TipoMensagem::spec_from_kind(h.kind),
            tamanho: h.length,
        }
    }

    fn wire(&self) -> (h: protocol::Header)
        ensures
            h == self.spec_wire(),
    {
        protocol::Header {
            magic_number: self.magic_number,
            version: self.versao,
            ack: self.ack,
            reserved: self.reserved,
            kind: self.tipo.to_kind(),
            length: self.tamanho,
        }
    }

    fn from_wire(h: protocol::Header) -> (r: Header)
        ensures
            r == Header::spec_from_wire(h),
    {
        Header {
            magic_number: h.magic_number,
            versao: h.version,
            ack: h.ack,
            reserved: h.reserved,
            tipo: TipoMensagem::from_kind(h.kind),
            tamanho: h.length,
        }
    }
}

impl EncodeDecode for Header {
    open spec fn spec_encode(&self) -> Seq<u8> {
        self.spec_wire().spec_encode()
    }

    open spec fn spec_decode(input: Seq<u8>) -> Result<(int, Header), DecodeError> {
        match protocol::Header::spec_decode(input) {
            Ok((n, h)) => Ok((n, Header::spec_from_wire(h))),
            Err(e) => Err(e),
        }
    }

    fn encode(&self) -> (out: Vec<u8>) {
        self.wire().encode()
    }

    fn decode(input: &[u8]) -> (res: Result<(&[u8], Header), DecodeError>) {
        match protocol::Header::decode(input) {
            Ok((rest, h)) => Ok((rest, Header::from_wire(h))),
            Err(e) => Err(e),
        }
    }
}

/// CONNECT payload (`tipo` 0 for a sensor, 1 for an actuator).
#[derive(PartialEq, Eq, Structural, Clone, Copy, Debug)]
pub struct Connect {
    pub tipo: u8,
    pub id: u8,
}

impl EncodeDecode for Connect {
    open spec fn spec_encode(&self) -> Seq<u8> {
        seq![self.tipo, self.id]
    }

    open spec fn spec_decode(input: Seq<u8>) -> Result<(int, Connect), DecodeError> {
        match protocol::Connect::spec_decode(input) {
            Ok((n, c)) => Ok((n, Connect { tipo: c.kind, id: c.id })),
            Err(e) => Err(e),
        }
    }

    fn encode(&self) -> (out: Vec<u8>) {
        protocol::Connect { kind: self.tipo, id: self.id }.encode()
    }

    fn decode(input: &[u8]) -> (res: Result<(&[u8], Connect), DecodeError>) {
        match protocol::Connect::decode(input) {
            Ok((rest, c)) => Ok((rest, Connect { tipo: c.kind, id: c.id })),
            Err(e) => Err(e),
        }
    }
}

/// SENSOR_DATA payload; the id travels as its low byte, `value` holds
/// IEEE-754 single-precision bits.
#[derive(PartialEq, Eq, Structural, Clone, Copy, Debug)]
pub struct SensorData {
    pub sensor_id: u32,
    pub value: u32,
}

impl EncodeDecode for SensorData {
    open spec fn spec_encode(&self) -> Seq<u8> {
        protocol::SensorData { sensor_id: self.sensor_id as u8, value: self.value }.spec_encode()
    }

    open spec fn spec_decode(input: Seq<u8>) -> Result<(int, SensorData), DecodeError> {
        match protocol::SensorData::spec_decode(input) {
            Ok((n, d)) => Ok((n, SensorData { sensor_id: d.sensor_id as u32, value: d.value })),
            Err(e) => Err(e),
        }
    }

    fn encode(&self) -> (out: Vec<u8>) {
        protocol::SensorData { sensor_id: self.sensor_id as u8, value: self.value }.encode()
    }

    fn decode(input: &[u8]) -> (res: Result<(&[u8], SensorData), DecodeError>) {
        match protocol::SensorData::decode(input) {
            Ok((rest, d)) => Ok((rest, SensorData { sensor_id: d.sensor_id as u32, value: d.value })),
            Err(e) => Err(e),
        }
    }
}

/// ACT_CMD payload. Only the command travels: `actuator_id` is not part of
/// the protocol and reads back as 0.
#[derive(PartialEq, Eq, Structural, Clone, Copy, Debug)]
pub struct ActCmd {
    pub actuator_id: u32,
    pub command: u8,
}

impl EncodeDecode for ActCmd {
    open spec fn spec_encode(&self) -> Seq<u8> {
        seq![self.command]
    }

    open spec fn spec_decode(input: Seq<u8>) -> Result<(int, ActCmd), DecodeError> {
        match protocol::ActCmd::spec_decode(input) {
            Ok((n, c)) => Ok((n, ActCmd { actuator_id: 0, command: c.command })),
            Err(e) => Err(e),
        }
    }

    fn encode(&self) -> (out: Vec<u8>) {
        protocol::ActCmd { command: self.command }.encode()
    }

    fn decode(input: &[u8]) -> (res: Result<(&[u8], ActCmd), DecodeError>) {
        match protocol::ActCmd::decode(input) {
            Ok((rest, c)) => Ok((rest, ActCmd { actuator_id: 0, command: c.command })),
            Err(e) => Err(e),
        }
    }
}

/// SENSOR_QUERY payload; the id travels as its low byte.
#[derive(PartialEq, Eq, Structural, Clone, Copy, Debug)]
pub struct SensorQuery {
    pub sensor_id: u32,
}

impl EncodeDecode for SensorQuery {
    open spec fn spec_encode(&self) -> Seq<u8> {
        seq![self.sensor_id as u8]
    }

    open spec fn spec_decode(input: Seq<u8>) -> Result<(int, SensorQuery), DecodeError> {
        match protocol::SensorQuery::spec_decode(input) {
            Ok((n, q)) => Ok((n, SensorQuery { sensor_id: q.sensor_id as u32 })),
            Err(e) => Err(e),
        }
    }

    fn encode(&self) -> (out: Vec<u8>) {
        protocol::SensorQuery { sensor_id: self.sensor_id as u8 }.encode()
    }

    fn decode(input: &[u8]) -> (res: Result<(&[u8], SensorQuery), DecodeError>) {
        match protocol::SensorQuery::decode(input) {
            Ok((rest, q)) => Ok((rest, SensorQuery { sensor_id: q.sensor_id as u32 })),
            Err(e) => Err(e),
        }
    }
}

/// SENSOR_RES payload; the id travels as its low byte, `value` holds
/// IEEE-754 single-precision bits.
#[derive(PartialEq, Eq, Structural, Clone, Copy, Debug)]
pub struct SensorRes {
    pub sensor_id: u32,
    pub value: u32,
}

impl EncodeDecode for SensorRes {
    open spec fn spec_encode(&self) -> Seq<u8> {
        protocol::SensorRes { sensor_id: self.sensor_id as u8, value: self.value }.spec_encode()
    }

    open spec fn spec_decode(input: Seq<u8>) -> Result<(int, SensorRes), DecodeError> {
        match protocol::SensorRes::spec_decode(input) {
            Ok((n, d)) => Ok((n, SensorRes { sensor_id: d.sensor_id as u32, value: d.value })),
            Err(e) => Err(e),
        }
    }

    fn encode(&self) -> (out: Vec<u8>) {
        protocol::SensorRes { sensor_id: self.sensor_id as u8, value: self.value }.encode()
    }

    fn decode(input: &[u8]) -> (res: Result<(&[u8], SensorRes), DecodeError>) {
        match protocol::SensorRes::decode(input) {
            Ok((rest, d)) => Ok((rest, SensorRes { sensor_id: d.sensor_id as u32, value: d.value })),
            Err(e) => Err(e),
        }
    }
}

/// CONFIG payload; `value` holds IEEE-754 single-precision bits.
#[derive(PartialEq, Eq, Structural, Clone, Copy, Debug)]
pub struct Config {
    pub key: u8,
    pub value: u32,
}

impl EncodeDecode for Config {
    open spec fn spec_encode(&self) -> Seq<u8> {
        protocol::Config { key: self.key, value: self.value }.spec_encode()
    }

    open spec fn spec_decode(input: Seq<u8>) -> Result<(int, Config), DecodeError> {
        match protocol::Config::spec_decode(input) {
            Ok((n, c)) => Ok((n, Config { key: c.key, value: c.value })),
            Err(e) => Err(e),
        }
    }

    fn encode(&self) -> (out: Vec<u8>) {
        protocol::Config { key: self.key, value: self.value }.encode()
    }

    fn decode(input: &[u8]) -> (res: Result<(&[u8], Config), DecodeError>) {
        match protocol::Config::decode(input) {
            Ok((rest, c)) => Ok((rest, Config { key: c.key, value: c.value })),
            Err(e) => Err(e),
        }
    }
}

/// The payload of a message.
#[derive(PartialEq, Eq, Structural, Clone, Copy, Debug)]
pub enum Payload {
    Connect(Connect),
    SensorData(SensorData),
    ActCmd(ActCmd),
    SensorQuery(SensorQuery),
    SensorRes(SensorRes),
    Config(Config),
}

impl Payload {
    /// The same payload as a `protocol` payload (ids cut to their low byte,
    /// the actuator id dropped).
    pub open spec fn spec_wire(self) -> protocol::Payload {
        match self {
            Payload::Connect(p) => protocol::Payload::Connect(
                protocol::Connect { kind: p.tipo, id: p.id },
            ),
            Payload::SensorData(p) => protocol::Payload::SensorData(
                protocol::SensorData { sensor_id: p.sensor_id as u8, value: p.value },
            ),
            Payload::ActCmd(p) => protocol::Payload::ActCmd(protocol::ActCmd { command: p.command }),
            Payload::SensorQuery(p) => protocol::Payload::SensorQuery(
                protocol::SensorQuery { sensor_id: p.sensor_id as u8 },
            ),
            Payload::SensorRes(p) => protocol::Payload::SensorRes(
                protocol::SensorRes { sensor_id: p.sensor_id as u8, value: p.value },
            ),
            Payload::Config(p) => protocol::Payload::Config(
                protocol::Config { key: p.key, value: p.value },
            ),
        }
    }

    pub open spec fn spec_from_wire(p: protocol::Payload) -> Payload {
        match p {
            protocol::Payload::Connect(c) => Payload::Connect(Connect { tipo: c.kind, id: c.id }),
            protocol::Payload::SensorData(d) => Payload::SensorData(
                SensorData { sensor_id: d.sensor_id as u32, value: d.value },
            ),
            protocol::Payload::ActCmd(c) => Payload::ActCmd(
                ActCmd { actuator_id: 0, command: c.command },
            ),
            protocol::Payload::SensorQuery(q) => Payload::SensorQuery(
                SensorQuery { sensor_id: q.sensor_id as u32 },
            ),
            protocol::Payload::SensorRes(d) => Payload::SensorRes(
                SensorRes { sensor_id: d.sensor_id as u32, value: d.value },
            ),
            protocol::Payload::Config(c) => Payload::Config(Config { key: c.key, value: c.value }),
        }
    }

    fn wire(&self) -> (p: protocol::Payload)
        ensures
            p == self.spec_wire(),
    {
        match self {
            Payload::Connect(p) => protocol::Payload::Connect(
                protocol::Connect { kind: p.tipo, id: p.id },
            ),
            Payload::SensorData(p) => protocol::Payload::SensorData(
                protocol::SensorData { sensor_id: p.sensor_id as u8, value: p.value },
            ),
            Payload::ActCmd(p) => protocol::Payload::ActCmd(protocol::ActCmd { command: p.command }),
            Payload::SensorQuery(p) => protocol::Payload::SensorQuery(
                protocol::SensorQuery { sensor_id: p.sensor_id as u8 },
            ),
            Payload::SensorRes(p) => protocol::Payload::SensorRes(
                protocol::SensorRes { sensor_id: p.sensor_id as u8, value: p.value },
            ),
            Payload::Config(p) => protocol::Payload::Config(
                protocol::Config { key: p.key, value: p.value },
            ),
        }
    }

    fn from_wire(p: protocol::Payload) -> (r: Payload)
        ensures
            r == Payload::spec_from_wire(p),
    {
        match p {
            protocol::Payload::Connect(c) => Payload::Connect(Connect { tipo: c.kind, id: c.id }),
            protocol::Payload::SensorData(d) => Payload::SensorData(
                SensorData { sensor_id: d.sensor_id as u32, value: d.value },
            ),
            protocol::Payload::ActCmd(c) => Payload::ActCmd(
                ActCmd { actuator_id: 0, command: c.command },
            ),
            protocol::Payload::SensorQuery(q) => Payload::SensorQuery(
                SensorQuery { sensor_id: q.sensor_id as u32 },
            ),
            protocol::Payload::SensorRes(d) => Payload::SensorRes(
                SensorRes { sensor_id: d.sensor_id as u32, value: d.value },
            ),
            protocol::Payload::Config(c) => Payload::Config(Config { key: c.key, value: c.value }),
        }
    }
}

/// A message: a header and, unless it is an acknowledgement, a payload.
#[derive(PartialEq, Eq, Structural, Clone, Copy, Debug)]
pub struct Mensagem {
    pub header: Header,
    pub payload: Option<Payload>,
}

impl Mensagem {
    /// The same message as a `protocol` message.
    pub open spec fn spec_wire(self) -> protocol::Message {
        protocol::Message {
            header: self.header.spec_wire(),
            payload: match self.payload {
                Some(p) => Some(p.spec_wire()),
                None => None,
            },
        }
    }

    pub open spec fn spec_from_wire(m: protocol::Message) -> Mensagem {
        Mensagem {
            header: Header::spec_from_wire(m.header),
            payload: match m.payload {
                Some(p) => Some(Payload::spec_from_wire(p)),
                None => None,
            },
        }
    }

    /// Ids that fit the byte they travel in, and no actuator id in an ACT_CMD:
    /// the values that the wire carries exactly.
    pub open spec fn fits_wire(self) -> bool {
        match self.payload {
            Some(Payload::SensorData(p)) => p.sensor_id < 256,
            Some(Payload::ActCmd(p)) => p.actuator_id == 0,
            Some(Payload::SensorQuery(p)) => p.sensor_id < 256,
            Some(Payload::SensorRes(p)) => p.sensor_id < 256,
            _ => true,
        }
    }
}

impl EncodeDecode for Mensagem {
    /// Encoded as `protocol` encodes the same message.
    open spec fn spec_encode(&self) -> Seq<u8> {
        self.spec_wire().spec_encode()
    }

    open spec fn spec_decode(input: Seq<u8>) -> Result<(int, Mensagem), DecodeError> {
        match protocol::Message::spec_decode(input) {
            Ok((n, m)) => Ok((n, Mensagem::spec_from_wire(m))),
            Err(e) => Err(e),
        }
    }

    fn encode(&self) -> (out: Vec<u8>) {
        let payload = match &self.payload {
            Some(p) => Some(p.wire()),
            None => None,
        };
        protocol::Message { header: self.header.wire(), payload }.encode()
    }

    fn decode(input: &[u8]) -> (res: Result<(&[u8], Mensagem), DecodeError>) {
        match protocol::Message::decode(input) {
            Ok((rest, m)) => {
                let payload = match m.payload {
                    Some(p) => Some(Payload::from_wire(p)),
                    None => None,
                };
                Ok((rest, Mensagem { header: Header::from_wire(m.header), payload }))
            },
            Err(e) => Err(e),
        }
    }
}

impl Mensagem {
    /// Reads one message from the front of a receive buffer: the message and
    /// the number of bytes it took, or `None` while the buffer does not yet
    /// hold a whole message. A buffer whose header is corrupt (unknown type or
    /// wrong magic number) is excluded: no later bytes can make it a message.
    pub fn try_decode(input: &[u8]) -> (r: Option<(Mensagem, usize)>)
        requires
            !(Mensagem::spec_decode(input@) matches Err(e) && protocol::is_fatal(e)),
        ensures
            match Mensagem::spec_decode(input@) {
                Ok((n, m)) => r == Some((m, n as usize)),
                Err(_) => r is None,
            },
    {
        match Mensagem::decode(input) {
            Ok((rest, msg)) => {
                let consumed = input.len() - rest.len();
                Some((msg, consumed))
            },
            Err(_) => None,
        }
    }
}

/// Round trip: a message whose `protocol` form is
/// well formed, and whose values fit the wire, is read back from its encoding
/// whatever bytes follow it.
pub proof fn lemma_mensagem_round_trip(m: Mensagem, rest: Seq<u8>)
    requires
        m.spec_wire().well_formed(),
        m.fits_wire(),
    ensures
        Mensagem::spec_decode(m.spec_encode() + rest) == Ok::<(int, Mensagem), DecodeError>(
            (m.spec_encode().len() as int, m),
        ),
{
    protocol::lemma_message_round_trip(m.spec_wire(), rest);
    let back = Mensagem::spec_from_wire(m.spec_wire());
    assert(back.header == m.header);
    match m.payload {
        Some(Payload::SensorData(p)) => {
            assert(p.sensor_id as u8 as u32 == p.sensor_id);
        },
        Some(Payload::SensorQuery(p)) => {
            assert(p.sensor_id as u8 as u32 == p.sensor_id);
        },
        Some(Payload::SensorRes(p)) => {
            assert(p.sensor_id as u8 as u32 == p.sensor_id);
        },
        _ => {},
    }
    assert(back == m);
}

} // verus!
