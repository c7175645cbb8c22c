use estufa::protocol::{self, DecodeError, MAGIC};
use estufa::protocolo::{
    ActCmd, Config, Connect, EncodeDecode, Header, Mensagem, Payload, SensorData, SensorQuery, SensorRes,
    TipoMensagem,
};

fn mensagem(tipo: TipoMensagem, payload: Payload, tamanho: u16) -> Mensagem {
    Mensagem {
        header: Header { magic_number: MAGIC, versao: 1, ack: false, reserved: 0, tipo, tamanho },
        payload: Some(payload),
    }
}

#[test]
fn cabecalho_ida_e_volta() {
    let h = Header { magic_number: MAGIC, versao: 1, ack: true, reserved: 5, tipo: TipoMensagem::SENSOR_RES, tamanho: 5 };
    let bytes = h.encode();
    assert_eq!(bytes.len(), 8);
    let (rest, dec) = Header::decode(&bytes).unwrap();
    assert!(rest.is_empty());
    assert_eq!(dec, h);
}

#[test]
fn mesmos_bytes_que_protocol() {
    let m = mensagem(TipoMensagem::SENSOR_DATA, Payload::SensorData(SensorData { sensor_id: 2, value: 42.25f32.to_bits() }), 5);
    let p = protocol::Message::new(
        protocol::MessageType::SensorData,
        protocol::Payload::SensorData(protocol::SensorData { sensor_id: 2, value: 42.25f32.to_bits() }),
    );
    assert_eq!(m.encode(), p.encode());
}

#[test]
fn ids_viajam_no_byte_baixo() {
    let d = SensorData { sensor_id: 0x1_02, value: 7 };
    assert_eq!(d.encode(), vec![2, 0, 0, 0, 7]);
    let (_, back) = SensorData::decode(&d.encode()).unwrap();
    assert_eq!(back.sensor_id, 2);
    assert_eq!(SensorQuery { sensor_id: 258 }.encode(), vec![2]);
    assert_eq!(SensorRes { sensor_id: 513, value: 1 }.encode(), vec![1, 0, 0, 0, 1]);
}

#[test]
fn act_cmd_nao_leva_o_id_do_atuador() {
    let c = ActCmd { actuator_id: 4, command: 1 };
    assert_eq!(c.encode(), vec![1]);
    let (_, back) = ActCmd::decode(&c.encode()).unwrap();
    assert_eq!(back, ActCmd { actuator_id: 0, command: 1 });
}

#[test]
fn mensagem_ida_e_volta() {
    let cases = vec![
        mensagem(TipoMensagem::CONNECT, Payload::Connect(Connect { tipo: 1, id: 4 }), 2),
        mensagem(TipoMensagem::SENSOR_DATA, Payload::SensorData(SensorData { sensor_id: 1, value: 3 }), 5),
        mensagem(TipoMensagem::ACT_CMD, Payload::ActCmd(ActCmd { actuator_id: 0, command: 1 }), 1),
        mensagem(TipoMensagem::SENSOR_QUERY, Payload::SensorQuery(SensorQuery { sensor_id: 2 }), 1),
        mensagem(TipoMensagem::SENSOR_RES, Payload::SensorRes(SensorRes { sensor_id: 0, value: 9 }), 5),
        mensagem(TipoMensagem::CONFIG, Payload::Config(Config { key: 8, value: 50.0f32.to_bits() }), 5),
    ];
    for m in cases {
        let bytes = m.encode();
        let (rest, dec) = Mensagem::decode(&bytes).unwrap();
        assert!(rest.is_empty());
        assert_eq!(dec, m);
        assert_eq!(Mensagem::try_decode(&bytes), Some((m, bytes.len())));
        assert!(Mensagem::try_decode(&bytes[..bytes.len() - 1]).is_none());
    }
}

#[test]
fn magic_errado_falha() {
    let mut bytes = mensagem(TipoMensagem::ACT_CMD, Payload::ActCmd(ActCmd { actuator_id: 0, command: 1 }), 1).encode();
    bytes[0] = b'X';
    assert_eq!(Mensagem::decode(&bytes).err(), Some(DecodeError::BadMagic));
}
