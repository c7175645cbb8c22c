//! The decisions of the `componentes` manager that do not depend on the
//! readings' values: its gate, the registration of devices, the keys of the
//! configuration, the commands of the temperature control and the answer to a
//! query.
use vstd::prelude::*;

use crate::protocol::MAGIC;
use crate::protocolo::{Connect, Header, Mensagem, Payload, SensorQuery, SensorRes, TipoMensagem};

verus! {

broadcast use vstd::std_specs::hash::group_hash_axioms;

/// The temperature control's state.
#[derive(PartialEq, Eq, Structural, Clone, Copy, Debug)]
pub enum Estado {
    Aquecendo,
    Resfriando,
    Desligado,
}

/// A parameter that a CONFIG message sets (this manager has no maximum
/// humidity).
#[derive(PartialEq, Eq, Structural, Clone, Copy, Debug)]
pub enum CampoConfig {
    MinTemp,
    MaxTemp,
    HisTemp,
    MinHum,
    HisHum,
    MinCo2,
    HisCo2,
}

/// The parameter that each CONFIG key names: keys 0, 1, 2, 3, 5, 6 and 8.
pub open spec fn spec_campo_config(key: u8) -> Option<CampoConfig> {
    if key == 0 {
        Some(CampoConfig::MinTemp)
    } else if key == 1 {
        Some(CampoConfig::MaxTemp)
    } else if key == 2 {
        Some(CampoConfig::HisTemp)
    } else if key == 3 {
        Some(CampoConfig::MinHum)
    } else if key == 5 {
        Some(CampoConfig::HisHum)
    } else if key == 6 {
        Some(CampoConfig::MinCo2)
    } else if key == 8 {
        Some(CampoConfig::HisCo2)
    } else {
        None
    }
}

/// The CONFIG keys of this manager: 0 min_temp, 1 max_temp, 2 his_temp,
/// 3 min_hum, 5 his_hum, 6 min_co2, 8 his_co2; keys 4, 7 and above 8 set
/// nothing. Distinct keys set distinct parameters.
pub proof fn lemma_campo_config_table()
    ensures
        spec_campo_config(0) == Some(CampoConfig::MinTemp),
        spec_campo_config(1) == Some(CampoConfig::MaxTemp),
        spec_campo_config(2) == Some(CampoConfig::HisTemp),
        spec_campo_config(3) == Some(CampoConfig::MinHum),
        spec_campo_config(5) == Some(CampoConfig::HisHum),
        spec_campo_config(6) == Some(CampoConfig::MinCo2),
        spec_campo_config(8) == Some(CampoConfig::HisCo2),
        forall|key: u8|
            key == 4 || key == 7 || key > 8 ==> #[trigger] spec_campo_config(key) is None,
        forall|k1: u8, k2: u8|
            k1 != k2 && #[trigger] spec_campo_config(k1) is Some ==> #[trigger] spec_campo_config(k2)
                != spec_campo_config(k1),
{
}

/// The parameter that a CONFIG key sets, or `None` (the message is refused).
pub fn campo_config(key: u8) -> (r: Option<CampoConfig>)
    ensures
        r == spec_campo_config(key),
{
    match key {
        0 => Some(CampoConfig::MinTemp),
        1 => Some(CampoConfig::MaxTemp),
        2 => Some(CampoConfig::HisTemp),
        3 => Some(CampoConfig::MinHum),
        5 => Some(CampoConfig::HisHum),
        6 => Some(CampoConfig::MinCo2),
        8 => Some(CampoConfig::HisCo2),
        _ => None,
    }
}

/// This manager handles a message only if it carries the magic number and,
/// unless it is a CONFIG, only once the manager is configured.
pub open spec fn spec_admite(header: Header, configurado: bool) -> bool {
    header.magic_number == MAGIC && (header.tipo == TipoMensagem::CONFIG || configurado)
}

/// CONFIG messages with the magic number are always handled; until the
/// manager is configured nothing else is, not even a CONNECT; once it is
/// configured, every message with the magic number is handled.
pub proof fn lemma_admite(header: Header, configurado: bool)
    ensures
        header.magic_number == MAGIC && header.tipo == TipoMensagem::CONFIG ==> spec_admite(
            header,
            configurado,
        ),
        header.tipo != TipoMensagem::CONFIG && !configurado ==> !spec_admite(header, configurado),
        header.magic_number != MAGIC ==> !spec_admite(header, configurado),
        header.magic_number == MAGIC && configurado ==> spec_admite(header, configurado),
{
}

/// Whether the manager handles a message with this header.
pub fn admite(header: &Header, configurado: bool) -> (r: bool)
    ensures
        r == spec_admite(*header, configurado),
{
    if header.magic_number != MAGIC {
        return false;
    }
    let config = match header.tipo {
        TipoMensagem::CONFIG => true,
        _ => false,
    };
    config || configurado
}

/// The acknowledgement of a message of this type.
pub open spec fn spec_ack(tipo: TipoMensagem) -> Mensagem {
    Mensagem {
        header: Header { magic_number: MAGIC, versao: 1, ack: true, reserved: 0, tipo, tamanho: 0 },
        payload: None,
    }
}

/// The acknowledgement of a type carries that type, is marked as an
/// acknowledgement, has the magic number, version 1, size 0 and no payload;
/// acknowledgements of distinct types differ.
pub proof fn lemma_ack_carries_its_type(tipo: TipoMensagem, outro: TipoMensagem)
    ensures
        spec_ack(tipo).header.tipo == tipo,
        spec_ack(tipo).header.ack,
        spec_ack(tipo).header.magic_number == MAGIC,
        spec_ack(tipo).header.versao == 1,
        spec_ack(tipo).header.tamanho == 0,
        spec_ack(tipo).payload is None,
        tipo != outro ==> spec_ack(tipo) != spec_ack(outro),
{
}

/// Builds the acknowledgement of a message of this type: magic number,
/// version 1, no payload, size 0.
pub fn return_ack(tipo: TipoMensagem) -> (m: Mensagem)
    ensures
        m == spec_ack(tipo),
{
    Mensagem {
        header: Header { magic_number: MAGIC, versao: 1, ack: true, reserved: 0, tipo, tamanho: 0 },
        payload: None,
    }
}

/// The commands (actuator id, 1 on / 0 off) that a change of the temperature
/// control's state sends to the heater (3) and the cooler (4).
pub open spec fn spec_comandos_temp(anterior: Estado, novo: Estado) -> Seq<(u8, u8)> {
    if anterior == novo {
        Seq::empty()
    } else {
        match novo {
            Estado::Aquecendo => seq![(3u8, 1u8), (4u8, 0u8)],
            Estado::Resfriando => seq![(3u8, 0u8), (4u8, 1u8)],
            Estado::Desligado => seq![(3u8, 0u8), (4u8, 0u8)],
        }
    }
}

/// On a change of state the commands depend on the new state alone: the
/// heater (3) is told 1 exactly when the control goes to heating and the
/// cooler (4) 1 exactly when it goes to cooling; without a change nothing is
/// sent.
pub proof fn lemma_comandos_temp_seguem_novo_estado(anterior: Estado, novo: Estado)
    ensures
        anterior == novo ==> spec_comandos_temp(anterior, novo).len() == 0,
        anterior != novo ==> spec_comandos_temp(anterior, novo) == seq![
            (3u8, if novo == Estado::Aquecendo { 1u8 } else { 0u8 }),
            (4u8, if novo == Estado::Resfriando { 1u8 } else { 0u8 }),
        ],
        forall|outro: Estado|
            outro != novo && anterior != novo ==> #[trigger] spec_comandos_temp(outro, novo)
                == spec_comandos_temp(anterior, novo),
{
    assert forall|outro: Estado|
        outro != novo && anterior != novo implies #[trigger] spec_comandos_temp(outro, novo)
        == spec_comandos_temp(anterior, novo) by {
        assert(spec_comandos_temp(outro, novo) =~= spec_comandos_temp(anterior, novo));
    }
    if anterior != novo {
        assert(spec_comandos_temp(anterior, novo) =~= seq![
            (3u8, if novo == Estado::Aquecendo { 1u8 } else { 0u8 }),
            (4u8, if novo == Estado::Resfriando { 1u8 } else { 0u8 }),
        ]);
    }
}

/// The heater and the cooler are never both switched on.
pub proof fn lemma_comandos_temp_exclusivos(anterior: Estado, novo: Estado)
    ensures
        !(spec_comandos_temp(anterior, novo).contains((3u8, 1u8)) && spec_comandos_temp(
            anterior,
            novo,
        ).contains((4u8, 1u8))),
{
    let c = spec_comandos_temp(anterior, novo);
    if anterior != novo {
        assert(c.contains((3u8, 1u8)) ==> c[0] == (3u8, 1u8));
        assert(c.contains((4u8, 1u8)) ==> c[1] == (4u8, 1u8));
    }
}

/// The commands to send when the temperature control goes from `anterior`
/// to `novo`: none without a change.
pub fn comandos_temp(anterior: Estado, novo: Estado) -> (cmds: Vec<(u8, u8)>)
    ensures
        cmds@ == spec_comandos_temp(anterior, novo),
{
    let mut cmds: Vec<(u8, u8)> = Vec::new();
    if anterior != novo {
        match novo {
            Estado::Aquecendo => {
                cmds.push((3, 1));
                cmds.push((4, 0));
            },
            Estado::Resfriando => {
                cmds.push((3, 0));
                cmds.push((4, 1));
            },
            Estado::Desligado => {
                cmds.push((3, 0));
                cmds.push((4, 0));
            },
        }
    }
    assert(cmds@ =~= spec_comandos_temp(anterior, novo));
    cmds
}

/// The answer to a SENSOR_QUERY given the latest readings (temperature,
/// humidity, CO2) as IEEE-754 bits. The queried id is cut to its low byte;
/// ids 0 to 2 get a SENSOR_RES with that reading, other ids nothing.
pub fn resposta_consulta(consulta: SensorQuery, leituras: [u32; 3]) -> (r: Option<Mensagem>)
    ensures
        (consulta.sensor_id as u8) < 3 ==> r == Some(
            Mensagem {
                header: Header {
                    magic_number: MAGIC,
                    versao: 1,
                    ack: false,
                    reserved: 0,
                    tipo: TipoMensagem::SENSOR_RES,
                    tamanho: 5,
                },
                payload: Some(
                    Payload::SensorRes(
                        SensorRes {
                            sensor_id: (consulta.sensor_id as u8) as u32,
                            value: leituras@[(consulta.sensor_id as u8) as int],
                        },
                    ),
                ),
            },
        ),
        (consulta.sensor_id as u8) >= 3 ==> r is None,
{
    let id = consulta.sensor_id as u8;
    if id >= 3 {
        return None;
    }
    let res = SensorRes { sensor_id: id as u32, value: leituras[id as usize] };
    Some(
        Mensagem {
            header: Header {
                magic_number: MAGIC,
                versao: 1,
                ack: false,
                reserved: 0,
                tipo: TipoMensagem::SENSOR_RES,
                tamanho: 5,
            },
            payload: Some(Payload::SensorRes(res)),
        },
    )
}

/// The devices that have announced themselves to this manager.
/// It knows ids 0 to 6 and takes any of them under either kind.
pub struct Dispositivos {
    sensores: std::collections::HashSet<u8>,
    atuadores: std::collections::HashSet<u8>,
}

impl Dispositivos {
    #[verifier::type_invariant]
    spec fn ids_conhecidos(&self) -> bool {
        &&& forall|id: u8| #[trigger] self.sensores@.contains(id) ==> id <= 6
        &&& forall|id: u8| #[trigger] self.atuadores@.contains(id) ==> id <= 6
    }

    pub closed spec fn sensor_set(&self) -> Set<u8> {
        self.sensores@
    }

    pub closed spec fn actuator_set(&self) -> Set<u8> {
        self.atuadores@
    }

    pub fn new() -> (d: Dispositivos)
        ensures
            d.sensor_set() == Set::<u8>::empty(),
            d.actuator_set() == Set::<u8>::empty(),
    {
        Dispositivos {
            sensores: std::collections::HashSet::new(),
            atuadores: std::collections::HashSet::new(),
        }
    }

    /// Handles a CONNECT: kind 0 records a sensor and kind 1 an actuator, for
    /// ids 0 to 6, and both are acknowledged; other kinds and ids are refused
    /// and change nothing.
    pub fn handle_connect(&mut self, payload: Connect) -> (r: Option<Mensagem>)
        ensures
            payload.tipo == 0 && payload.id <= 6 ==> {
                &&& r == Some(spec_ack(TipoMensagem::CONNECT))
                &&& final(self).sensor_set() == old(self).sensor_set().insert(payload.id)
                &&& final(self).actuator_set() == old(self).actuator_set()
            },
            payload.tipo == 1 && payload.id <= 6 ==> {
                &&& r == Some(spec_ack(TipoMensagem::CONNECT))
                &&& final(self).sensor_set() == old(self).sensor_set()
                &&& final(self).actuator_set() == old(self).actuator_set().insert(payload.id)
            },
            payload.tipo > 1 || payload.id > 6 ==> {
                &&& r is None
                &&& final(self).sensor_set() == old(self).sensor_set()
                &&& final(self).actuator_set() == old(self).actuator_set()
            },
    {
        proof {
            use_type_invariant(&*self);
        }
        let tipo = payload.tipo;
        let id = payload.id;
        if tipo != 1 && tipo != 0 {
            return None;
        }
        if id > 6 {
            return None;
        }
        if tipo == 0 {
            let mut sensores = std::collections::HashSet::new();
            std::mem::swap(&mut sensores, &mut self.sensores);
            sensores.insert(id);
            self.sensores = sensores;
        } else {
            let mut atuadores = std::collections::HashSet::new();
            std::mem::swap(&mut atuadores, &mut self.atuadores);
            atuadores.insert(id);
            self.atuadores = atuadores;
        }
        Some(return_ack(TipoMensagem::CONNECT))
    }

    /// Whether the sensor has announced itself; only ids 0 to 6 ever have.
    pub fn has_sensor(&self, id: u8) -> (r: bool)
        ensures
            r == self.sensor_set().contains(id),
            r ==> id <= 6,
    {
        proof {
            use_type_invariant(self);
        }
        self.sensores.contains(&id)
    }
}

} // verus!
