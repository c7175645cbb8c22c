//! The decisions of the manager that do not depend on the sensor readings'
//! values: which messages it admits, which devices it registers, which
//! parameter a configuration sets, which commands a change of control state
//! sends to the actuators, and what it answers to a query.
use vstd::prelude::*;

use crate::components::devices::{actuator_table, find_entry, sensor_by_id, actuator_by_id, sensor_table};
use crate::protocol::{
    Connect,
    Header,
    MAGIC,
    Message,
    MessageType,
    Payload,
    SensorQuery,
    SensorRes,
};

verus! {

broadcast use vstd::std_specs::hash::group_hash_axioms;

/// The temperature control's state: which of the heater and the cooler runs.
#[derive(PartialEq, Eq, Structural, Clone, Copy, Debug)]
pub enum State {
    Heating,
    Cooling,
    Off,
}

/// The id of the heater in the registry.
pub const HEATER: u8 = 3;

/// The id of the cooler in the registry.
pub const COOLER: u8 = 4;

/// The id of the irrigator in the registry.
pub const IRRIGATOR: u8 = 5;

/// The id of the CO2 injector in the registry.
pub const CO2_INJECTOR: u8 = 6;

/// A parameter of the manager that a CONFIG message sets.
#[derive(PartialEq, Eq, Structural, Clone, Copy, Debug)]
pub enum ConfigField {
    MinTemp,
    MaxTemp,
    HysTemp,
    MinHum,
    MaxHum,
    HysHum,
    MinCo2,
    HysCo2,
}

/// The parameter that each CONFIG key names; key 7 and keys above 8 name none.
pub open spec fn spec_config_field(key: u8) -> Option<ConfigField> {
    if key == 0 {
        Some(ConfigField::MinTemp)
    } else if key == 1 {
        Some(ConfigField::MaxTemp)
    } else if key == 2 {
        Some(ConfigField::HysTemp)
    } else if key == 3 {
        Some(ConfigField::MinHum)
    } else if key == 4 {
        Some(ConfigField::MaxHum)
    } else if key == 5 {
        Some(ConfigField::HysHum)
    } else if key == 6 {
        Some(ConfigField::MinCo2)
    } else if key == 8 {
        Some(ConfigField::HysCo2)
    } else {
        None
    }
}

/// The CONFIG keys: 0 min_temp, 1 max_temp, 2 hys_temp, 3 min_hum,
/// 4 max_hum, 5 hys_hum, 6 min_co2, 8 hys_co2; key 7 and keys above 8 set
/// nothing. Distinct keys set distinct parameters.
pub proof fn lemma_config_field_table()
    ensures
        spec_config_field(0) == Some(ConfigField::MinTemp),
        spec_config_field(1) == Some(ConfigField::MaxTemp),
        spec_config_field(2) == Some(ConfigField::HysTemp),
        spec_config_field(3) == Some(ConfigField::MinHum),
        spec_config_field(4) == Some(ConfigField::MaxHum),
        spec_config_field(5) == Some(ConfigField::HysHum),
        spec_config_field(6) == Some(ConfigField::MinCo2),
        spec_config_field(8) == Some(ConfigField::HysCo2),
        forall|key: u8| key == 7 || key > 8 ==> #[trigger] spec_config_field(key) is None,
        forall|k1: u8, k2: u8|
            k1 != k2 && #[trigger] spec_config_field(k1) is Some ==> #[trigger] spec_config_field(k2)
                != spec_config_field(k1),
{
}

/// The parameter that a CONFIG key sets, or `None` for a key that names none
/// (the message is then refused).
pub fn config_field(key: u8) -> (r: Option<ConfigField>)
    ensures
        r == spec_config_field(key),
{
    match key {
        0 => Some(ConfigField::MinTemp),
        1 => Some(ConfigField::MaxTemp),
        2 => Some(ConfigField::HysTemp),
        3 => Some(ConfigField::MinHum),
        4 => Some(ConfigField::MaxHum),
        5 => Some(ConfigField::HysHum),
        6 => Some(ConfigField::MinCo2),
        8 => Some(ConfigField::HysCo2),
        _ => None,
    }
}

/// The manager's gate: a message is handled only if it carries the magic
/// number, and, unless it is a CONFIG or a CONNECT, only once the manager is
/// configured.
pub open spec fn spec_admits(header: Header, configured: bool) -> bool {
    &&& header.magic_number == MAGIC
    &&& (header.kind == MessageType::CONFIG || header.kind == MessageType::CONNECT || configured)
}

/// Whether the manager handles a message with this header.
pub fn admits(header: &Header, configured: bool) -> (r: bool)
    ensures
        r == spec_admits(*header, configured),
{
    if header.magic_number != MAGIC {
        return false;
    }
    let always = match header.kind {
        MessageType::CONFIG | MessageType::CONNECT => true,
        _ => false,
    };
    always || configured
}

/// CONFIG and CONNECT messages with the magic number are always handled,
/// configured or not; the other kinds wait until the manager is configured,
/// and once it is, every message with the magic number is handled, whatever
/// its kind; nothing without the magic number is ever handled.
pub proof fn lemma_gate(header: Header, configured: bool)
    ensures
        header.magic_number == MAGIC && (header.kind == MessageType::CONFIG || header.kind
            == MessageType::CONNECT) ==> spec_admits(header, configured),
        header.kind != MessageType::CONFIG && header.kind != MessageType::CONNECT && !configured
            ==> !spec_admits(header, configured),
        header.magic_number != MAGIC ==> !spec_admits(header, configured),
        header.magic_number == MAGIC && configured ==> spec_admits(header, configured),
{
}

/// The commands that a change of the temperature control's state sends, as
/// (actuator id, command) pairs, 1 switching on and 0 off.
pub open spec fn spec_temp_commands(previous: State, next: State) -> Seq<(u8, u8)> {
    if previous == next {
        Seq::empty()
    } else {
        match next {
            State::Heating => seq![(HEATER, 1u8), (COOLER, 0u8)],
            State::Cooling => seq![(HEATER, 0u8), (COOLER, 1u8)],
            State::Off => seq![(HEATER, 0u8), (COOLER, 0u8)],
        }
    }
}

/// The commands to send to the heater and the cooler when the temperature
/// control goes from `previous` to `next`: none if the state did not change,
/// else the heater on only when heating and the cooler on only when cooling.
pub fn temp_commands(previous: State, next: State) -> (cmds: Vec<(u8, u8)>)
    ensures
        cmds@ == spec_temp_commands(previous, next),
{
    let mut cmds: Vec<(u8, u8)> = Vec::new();
    if previous != next {
        match next {
            State::Heating => {
                cmds.push((HEATER, 1));
                cmds.push((COOLER, 0));
            },
            State::Cooling => {
                cmds.push((HEATER, 0));
                cmds.push((COOLER, 1));
            },
            State::Off => {
                cmds.push((HEATER, 0));
                cmds.push((COOLER, 0));
            },
        }
    }
    assert(cmds@ =~= spec_temp_commands(previous, next));
    cmds
}

/// On a change of state the commands depend on the new state alone: the
/// heater is told 1 exactly when the control goes to heating and the cooler 1
/// exactly when it goes to cooling (so going to off switches both off,
/// whatever the state before); without a change nothing is sent.
pub proof fn lemma_temp_commands_follow_next_state(previous: State, next: State)
    ensures
        previous == next ==> spec_temp_commands(previous, next).len() == 0,
        previous != next ==> spec_temp_commands(previous, next) == seq![
            (HEATER, if next == State::Heating { 1u8 } else { 0u8 }),
            (COOLER, if next == State::Cooling { 1u8 } else { 0u8 }),
        ],
        forall|other: State|
            other != next && previous != next ==> #[trigger] spec_temp_commands(other, next)
                == spec_temp_commands(previous, next),
{
    assert forall|other: State|
        other != next && previous != next implies #[trigger] spec_temp_commands(other, next)
        == spec_temp_commands(previous, next) by {
        assert(spec_temp_commands(other, next) =~= spec_temp_commands(previous, next));
    }
    if previous != next {
        assert(spec_temp_commands(previous, next) =~= seq![
            (HEATER, if next == State::Heating { 1u8 } else { 0u8 }),
            (COOLER, if next == State::Cooling { 1u8 } else { 0u8 }),
        ]);
    }
}

/// The temperature control never switches the heater and the cooler on
/// together, and a change of state always sends a command to both.
pub proof fn lemma_heater_cooler_exclusive(previous: State, next: State)
    ensures
        !(spec_temp_commands(previous, next).contains((HEATER, 1u8))
            && spec_temp_commands(previous, next).contains((COOLER, 1u8))),
        previous != next ==> spec_temp_commands(previous, next).len() == 2
            && spec_temp_commands(previous, next)[0].0 == HEATER
            && spec_temp_commands(previous, next)[1].0 == COOLER,
{
    let c = spec_temp_commands(previous, next);
    if previous != next {
        assert(c.contains((HEATER, 1u8)) ==> c[0] == (HEATER, 1u8));
        assert(c.contains((COOLER, 1u8)) ==> c[1] == (COOLER, 1u8));
    }
}

/// The command for an on/off actuator whose control went from `previous` to
/// `next`: none if nothing changed, else (actuator, 1) to switch it on and
/// (actuator, 0) to switch it off.
pub fn switch_command(actuator: u8, previous: bool, next: bool) -> (cmd: Option<(u8, u8)>)
    ensures
        cmd == (if previous == next {
            None
        } else {
            Some((actuator, if next { 1u8 } else { 0u8 }))
        }),
{
    if previous == next {
        None
    } else if next {
        Some((actuator, 1))
    } else {
        Some((actuator, 0))
    }
}

/// The answer to a SENSOR_QUERY, given the latest readings of the three
/// sensors (temperature, humidity, CO2) as IEEE-754 bits: a SENSOR_RES with the
/// reading of the queried sensor, or nothing for an unknown sensor.
pub fn sensor_query_reply(query: SensorQuery, readings: [u32; 3]) -> (r: Option<Message>)
    ensures
        query.sensor_id < 3 ==> r == Some(
            Message::spec_new(
                MessageType::SensorRes,
                Payload::SensorRes(
                    SensorRes { sensor_id: query.sensor_id, value: readings@[query.sensor_id as int] },
                ),
            ),
        ),
        query.sensor_id >= 3 ==> r is None,
{
    let id = query.sensor_id;
    if id < 3 {
        let value = readings[id as usize];
        Some(Message::new(MessageType::SensorRes, Payload::SensorRes(SensorRes { sensor_id: id, value })))
    } else {
        None
    }
}

/// The devices that have announced themselves to the manager. Only devices of
/// the registry are ever recorded, each under its own kind.
pub struct Connections {
    sensors: std::collections::HashSet<u8>,
    actuators: std::collections::HashSet<u8>,
}

impl Connections {
    #[verifier::type_invariant]
    spec fn registered_only(&self) -> bool {
        &&& forall|id: u8| #[trigger]
            self.sensors@.contains(id) ==> find_entry(sensor_table(), id) is Some
        &&& forall|id: u8| #[trigger]
            self.actuators@.contains(id) ==> find_entry(actuator_table(), id) is Some
    }

    /// The ids of the connected sensors.
    pub closed spec fn sensor_set(&self) -> Set<u8> {
        self.sensors@
    }

    /// The ids of the connected actuators.
    pub closed spec fn actuator_set(&self) -> Set<u8> {
        self.actuators@
    }

    /// No device connected yet.
    pub fn new() -> (c: Connections)
        ensures
            c.sensor_set() == Set::<u8>::empty(),
            c.actuator_set() == Set::<u8>::empty(),
    {
        Connections {
            sensors: std::collections::HashSet::new(),
            actuators: std::collections::HashSet::new(),
        }
    }

    /// Handles a CONNECT: a sensor (kind 0) or an actuator (kind 1) whose id
    /// the registry holds for that kind is recorded as connected and
    /// acknowledged; any other announcement is refused and changes nothing.
    pub fn handle_connect(&mut self, payload: Connect) -> (r: Option<Message>)
        ensures
            payload.kind == 0 && find_entry(sensor_table(), payload.id) is Some ==> {
                &&& r == Some(Message::spec_ack(MessageType::CONNECT))
                &&& final(self).sensor_set() == old(self).sensor_set().insert(payload.id)
                &&& final(self).actuator_set() == old(self).actuator_set()
            },
            payload.kind == 1 && find_entry(actuator_table(), payload.id) is Some ==> {
                &&& r == Some(Message::spec_ack(MessageType::CONNECT))
                &&& final(self).sensor_set() == old(self).sensor_set()
                &&& final(self).actuator_set() == old(self).actuator_set().insert(payload.id)
            },
            !(payload.kind == 0 && find_entry(sensor_table(), payload.id) is Some) && !(payload.kind
                == 1 && find_entry(actuator_table(), payload.id) is Some) ==> {
                &&& r is None
                &&& final(self).sensor_set() == old(self).sensor_set()
                &&& final(self).actuator_set() == old(self).actuator_set()
            },
    {
        proof {
            use_type_invariant(&*self);
        }
        let id = payload.id;
        if payload.kind == 0 {
            if sensor_by_id(id).is_none() {
                return None;
            }
            let mut sensors = std::collections::HashSet::new();
            std::mem::swap(&mut sensors, &mut self.sensors);
            sensors.insert(id);
            self.sensors = sensors;
        } else if payload.kind == 1 {
            if actuator_by_id(id).is_none() {
                return None;
            }
            let mut actuators = std::collections::HashSet::new();
            std::mem::swap(&mut actuators, &mut self.actuators);
            actuators.insert(id);
            self.actuators = actuators;
        } else {
            return None;
        }
        Some(Message::ack(MessageType::CONNECT))
    }

    /// Whether the sensor has announced itself (and has not been dropped); a
    /// connected sensor is always one of the registry.
    pub fn has_sensor(&self, id: u8) -> (r: bool)
        ensures
            r == self.sensor_set().contains(id),
            r ==> find_entry(sensor_table(), id) is Some,
    {
        proof {
            use_type_invariant(self);
        }
        self.sensors.contains(&id)
    }

    /// Forgets a sensor that stopped reporting.
    pub fn drop_sensor(&mut self, id: u8)
        ensures
            final(self).sensor_set() == old(self).sensor_set().remove(id),
            final(self).actuator_set() == old(self).actuator_set(),
    {
        proof {
            use_type_invariant(&*self);
        }
        let mut sensors = std::collections::HashSet::new();
        std::mem::swap(&mut sensors, &mut self.sensors);
        sensors.remove(&id);
        self.sensors = sensors;
    }
}

} // verus!
