use estufa::components::manager::{
    admits, config_field, sensor_query_reply, switch_command, temp_commands, ConfigField,
    Connections, State,
};
use estufa::protocol::{
    Config, Connect, Message, MessageType, Payload, SensorData, SensorQuery, SensorRes, MAGIC,
};

#[test]
fn invalid_config_key_rejected() {
    assert!(config_field(7).is_none());
}

#[test]
fn config_keys() {
    let expected = [
        (0, ConfigField::MinTemp),
        (1, ConfigField::MaxTemp),
        (2, ConfigField::HysTemp),
        (3, ConfigField::MinHum),
        (4, ConfigField::MaxHum),
        (5, ConfigField::HysHum),
        (6, ConfigField::MinCo2),
        (8, ConfigField::HysCo2),
    ];
    for (k, f) in expected {
        assert_eq!(config_field(k), Some(f));
    }
    assert_eq!(config_field(9), None);
    assert_eq!(config_field(255), None);
}

#[test]
fn gate_blocks_data_when_unconfigured() {
    let msg = Message::new(
        MessageType::SensorData,
        Payload::SensorData(SensorData { sensor_id: 0, value: 25.0f32.to_bits() }),
    );
    assert!(!admits(&msg.header, false));
}

#[test]
fn gate_always_allows_config() {
    let msg = Message::new(MessageType::CONFIG, Payload::Config(Config { key: 0, value: 20.0f32.to_bits() }));
    assert!(admits(&msg.header, false));
    assert!(admits(&msg.header, true));
}

#[test]
fn gate_allows_connect_and_checks_magic() {
    let msg = Message::new(MessageType::CONNECT, Payload::Connect(Connect { kind: 0, id: 0 }));
    assert!(admits(&msg.header, false));
    let mut h = msg.header;
    h.magic_number = MAGIC ^ 1;
    assert!(!admits(&h, true));
    let q = Message::new(MessageType::SensorQuery, Payload::SensorQuery(SensorQuery { sensor_id: 0 }));
    assert!(admits(&q.header, true));
    assert!(!admits(&q.header, false));
}

#[test]
fn temperature_commands() {
    assert_eq!(temp_commands(State::Off, State::Off), vec![]);
    assert_eq!(temp_commands(State::Heating, State::Heating), vec![]);
    assert_eq!(temp_commands(State::Off, State::Heating), vec![(3, 1), (4, 0)]);
    assert_eq!(temp_commands(State::Off, State::Cooling), vec![(3, 0), (4, 1)]);
    assert_eq!(temp_commands(State::Cooling, State::Off), vec![(3, 0), (4, 0)]);
}

#[test]
fn on_off_commands() {
    assert_eq!(switch_command(5, false, true), Some((5, 1)));
    assert_eq!(switch_command(6, true, false), Some((6, 0)));
    assert_eq!(switch_command(5, true, true), None);
    assert_eq!(switch_command(6, false, false), None);
}

#[test]
fn query_reply() {
    let readings = [1u32, 2, 3];
    for id in 0..3u8 {
        let r = sensor_query_reply(SensorQuery { sensor_id: id }, readings).unwrap();
        assert_eq!(
            r,
            Message::new(
                MessageType::SensorRes,
                Payload::SensorRes(SensorRes { sensor_id: id, value: readings[id as usize] })
            )
        );
    }
    assert!(sensor_query_reply(SensorQuery { sensor_id: 3 }, readings).is_none());
}

#[test]
fn connect_registers_known_devices_only() {
    let mut c = Connections::new();
    assert!(!c.has_sensor(0));
    assert_eq!(c.handle_connect(Connect { kind: 0, id: 0 }), Some(Message::ack(MessageType::CONNECT)));
    assert!(c.has_sensor(0));
    assert_eq!(c.handle_connect(Connect { kind: 1, id: 3 }), Some(Message::ack(MessageType::CONNECT)));
    assert!(!c.has_sensor(3));
    // an actuator id announced as a sensor, an unknown id, an unknown kind
    assert_eq!(c.handle_connect(Connect { kind: 0, id: 3 }), None);
    assert_eq!(c.handle_connect(Connect { kind: 1, id: 0 }), None);
    assert_eq!(c.handle_connect(Connect { kind: 0, id: 9 }), None);
    assert_eq!(c.handle_connect(Connect { kind: 2, id: 1 }), None);
    assert!(!c.has_sensor(9));
    c.drop_sensor(0);
    assert!(!c.has_sensor(0));
}
