use estufa::componentes::atuador::{Atuador, AtuadorTipo};
use estufa::componentes::cliente::Cliente;
use estufa::componentes::env_io::get_lock_path;
use estufa::componentes::gerenciador::{
    admite, campo_config, comandos_temp, resposta_consulta, return_ack, CampoConfig, Dispositivos, Estado,
};
use estufa::componentes::sensor::Sensor;
use estufa::protocol::MAGIC;
use estufa::protocolo::{Connect, Header, Mensagem, Payload, SensorQuery, SensorRes, TipoMensagem};

#[test]
fn get_lock_path_troca_extensao() {
    assert_eq!(get_lock_path("src/env_vars/hum.txt"), "src/env_vars/hum.lock");
}

#[test]
fn sensor_le_o_arquivo_do_seu_id() {
    assert_eq!(Sensor::new(0).file_path(), "src/env_vars/temp.txt");
    assert_eq!(Sensor::new(1).file_path(), "src/env_vars/hum.txt");
    let s = Sensor::new(2);
    assert_eq!(s.file_path(), "src/env_vars/co2.txt");
    assert_eq!(s.id(), 2);
}

#[test]
fn atuador_por_tipo() {
    let a = Atuador::new(3, AtuadorTipo::Aquecedor);
    assert_eq!(a.id(), 3);
    assert_eq!(a.tipo(), AtuadorTipo::Aquecedor);
    assert_eq!(AtuadorTipo::Aquecedor.arquivo(), "src/env_vars/temp.txt");
    assert_eq!(AtuadorTipo::Resfriador.arquivo(), "src/env_vars/temp.txt");
    assert_eq!(AtuadorTipo::Irrigador.arquivo(), "src/env_vars/hum.txt");
    assert_eq!(AtuadorTipo::InjetorCO2.arquivo(), "src/env_vars/co2.txt");
    let _ = Cliente::new();
}

#[test]
fn campos_de_config() {
    assert_eq!(campo_config(0), Some(CampoConfig::MinTemp));
    assert_eq!(campo_config(3), Some(CampoConfig::MinHum));
    assert_eq!(campo_config(4), None);
    assert_eq!(campo_config(5), Some(CampoConfig::HisHum));
    assert_eq!(campo_config(7), None);
    assert_eq!(campo_config(8), Some(CampoConfig::HisCo2));
}

#[test]
fn portao_so_deixa_config_antes_de_configurar() {
    let h = |tipo| Header { magic_number: MAGIC, versao: 1, ack: false, reserved: 0, tipo, tamanho: 0 };
    assert!(admite(&h(TipoMensagem::CONFIG), false));
    assert!(!admite(&h(TipoMensagem::CONNECT), false));
    assert!(!admite(&h(TipoMensagem::SENSOR_DATA), false));
    assert!(admite(&h(TipoMensagem::SENSOR_DATA), true));
    let mut bad = h(TipoMensagem::CONFIG);
    bad.magic_number = 0;
    assert!(!admite(&bad, true));
}

#[test]
fn cadastro_de_dispositivos() {
    let mut d = Dispositivos::new();
    let ack = Some(return_ack(TipoMensagem::CONNECT));
    assert_eq!(d.handle_connect(Connect { tipo: 0, id: 1 }), ack);
    assert!(d.has_sensor(1));
    assert_eq!(d.handle_connect(Connect { tipo: 1, id: 5 }), ack);
    assert_eq!(d.handle_connect(Connect { tipo: 0, id: 7 }), None);
    assert_eq!(d.handle_connect(Connect { tipo: 2, id: 0 }), None);
    assert!(!d.has_sensor(7));
    assert!(!d.has_sensor(5));
}

#[test]
fn comandos_de_temperatura() {
    assert_eq!(comandos_temp(Estado::Desligado, Estado::Aquecendo), vec![(3, 1), (4, 0)]);
    assert_eq!(comandos_temp(Estado::Desligado, Estado::Resfriando), vec![(3, 0), (4, 1)]);
    assert_eq!(comandos_temp(Estado::Aquecendo, Estado::Desligado), vec![(3, 0), (4, 0)]);
    assert_eq!(comandos_temp(Estado::Resfriando, Estado::Resfriando), vec![]);
}

#[test]
fn resposta_a_consulta() {
    let r = resposta_consulta(SensorQuery { sensor_id: 257 }, [10, 20, 30]).unwrap();
    assert_eq!(
        r,
        Mensagem {
            header: Header { magic_number: MAGIC, versao: 1, ack: false, reserved: 0, tipo: TipoMensagem::SENSOR_RES, tamanho: 5 },
            payload: Some(Payload::SensorRes(SensorRes { sensor_id: 1, value: 20 })),
        }
    );
    assert!(resposta_consulta(SensorQuery { sensor_id: 3 }, [10, 20, 30]).is_none());
}

#[test]
fn ack_sem_payload() {
    let a = return_ack(TipoMensagem::CONFIG);
    assert!(a.header.ack);
    assert_eq!(a.header.tamanho, 0);
    assert!(a.payload.is_none());
}
