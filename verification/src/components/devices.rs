//! The central registry of the greenhouse's devices: the single source of
//! ids, names and environment files. The physical rates of the devices
//! (initial values, natural decay, actuator effect) are kept by the program
//! that simulates the environment.
use vstd::prelude::*;

verus! {

/// A sensor: what it measures and the environment file it reads.
#[derive(Clone, Copy, Debug)]
pub struct SensorDesc {
    pub id: u8,
    pub name: &'static str,
    pub file: &'static str,
}

/// An actuator: what it does and the environment file it acts on.
#[derive(Clone, Copy, Debug)]
pub struct ActuatorDesc {
    pub id: u8,
    pub name: &'static str,
    pub file: &'static str,
}

/// A registry entry as mathematical values: id, name and file.
pub type Entry = (u8, Seq<char>, Seq<char>);

impl SensorDesc {
    pub open spec fn entry(&self) -> Entry {
        (self.id, self.name@, self.file@)
    }
}

impl ActuatorDesc {
    pub open spec fn entry(&self) -> Entry {
        (self.id, self.name@, self.file@)
    }
}

/// The sensors of the greenhouse, in registry order.
pub open spec fn sensor_table() -> Seq<Entry> {
    seq![
        (0u8, "temperatura"@, "src/env_vars/temp.txt"@),
        (1u8, "umidade"@, "src/env_vars/hum.txt"@),
        (2u8, "co2"@, "src/env_vars/co2.txt"@),
    ]
}

/// The actuators of the greenhouse, in registry order.
pub open spec fn actuator_table() -> Seq<Entry> {
    seq![
        (3u8, "aquecedor"@, "src/env_vars/temp.txt"@),
        (4u8, "resfriador"@, "src/env_vars/temp.txt"@),
        (5u8, "irrigador"@, "src/env_vars/hum.txt"@),
        (6u8, "injetor de co2"@, "src/env_vars/co2.txt"@),
    ]
}

/// The first entry of `table` with the given id, if any.
pub open spec fn find_entry(table: Seq<Entry>, id: u8) -> Option<Entry>
    decreases table.len(),
{
    if table.len() == 0 {
        None
    } else if table[0].0 == id {
        Some(table[0])
    } else {
        find_entry(table.drop_first(), id)
    }
}

/// The name used for an unknown device.
pub open spec fn unknown_name() -> Seq<char> {
    "desconhecido"@
}

/// The name of any device, sensor or actuator.
pub open spec fn device_name(id: u8) -> Seq<char> {
    match find_entry(sensor_table(), id) {
        Some(e) => e.1,
        None => match find_entry(actuator_table(), id) {
            Some(e) => e.1,
            None => unknown_name(),
        },
    }
}

/// The sensors of the registry, in order.
pub fn sensors() -> (r: Vec<SensorDesc>)
    ensures
        r@.len() == sensor_table().len(),
        forall|i: int| 0 <= i < r@.len() ==> #[trigger] r@[i].entry() == sensor_table()[i],
{
    let mut r: Vec<SensorDesc> = Vec::new();
    r.push(SensorDesc { id: 0, name: "temperatura", file: "src/env_vars/temp.txt" });
    r.push(SensorDesc { id: 1, name: "umidade", file: "src/env_vars/hum.txt" });
    r.push(SensorDesc { id: 2, name: "co2", file: "src/env_vars/co2.txt" });
    r
}

/// The actuators of the registry, in order.
pub fn actuators() -> (r: Vec<ActuatorDesc>)
    ensures
        r@.len() == actuator_table().len(),
        forall|i: int| 0 <= i < r@.len() ==> #[trigger] r@[i].entry() == actuator_table()[i],
{
    let mut r: Vec<ActuatorDesc> = Vec::new();
    r.push(ActuatorDesc { id: 3, name: "aquecedor", file: "src/env_vars/temp.txt" });
    r.push(ActuatorDesc { id: 4, name: "resfriador", file: "src/env_vars/temp.txt" });
    r.push(ActuatorDesc { id: 5, name: "irrigador", file: "src/env_vars/hum.txt" });
    r.push(ActuatorDesc { id: 6, name: "injetor de co2", file: "src/env_vars/co2.txt" });
    r
}

proof fn lemma_find_entry_skip(table: Seq<Entry>, i: int, id: u8)
    requires
        0 <= i < table.len(),
        forall|j: int| 0 <= j < i ==> #[trigger] table[j].0 != id,
    ensures
        find_entry(table, id) == find_entry(table.skip(i), id),
    decreases i,
{
    if i == 0 {
        assert(table.skip(0) =~= table);
    } else {
        assert(table[0].0 != id);
        assert(table.drop_first().skip(i - 1) =~= table.skip(i));
        assert forall|j: int| 0 <= j < i - 1 implies #[trigger] table.drop_first()[j].0 != id by {
            assert(table.drop_first()[j] == table[j + 1]);
        }
        lemma_find_entry_skip(table.drop_first(), i - 1, id);
    }
}

proof fn lemma_find_entry_absent(table: Seq<Entry>, id: u8)
    requires
        forall|j: int| 0 <= j < table.len() ==> #[trigger] table[j].0 != id,
    ensures
        find_entry(table, id) is None,
    decreases table.len(),
{
    if table.len() > 0 {
        assert forall|j: int| 0 <= j < table.len() - 1 implies #[trigger] table.drop_first()[j].0
            != id by {
            assert(table.drop_first()[j] == table[j + 1]);
        }
        lemma_find_entry_absent(table.drop_first(), id);
    }
}

/// The sensor with the given id, if the registry has one.
pub fn sensor_by_id(id: u8) -> (r: Option<SensorDesc>)
    ensures
        match r {
            Some(d) => find_entry(sensor_table(), id) == Some(d.entry()),
            None => find_entry(sensor_table(), id) is None,
        },
{
    let table = sensors();
    let mut i: usize = 0;
    while i < table.len()
        invariant
            0 <= i <= table@.len(),
            table@.len() == sensor_table().len(),
            forall|k: int| 0 <= k < table@.len() ==> #[trigger] table@[k].entry() == sensor_table()[k],
            forall|j: int| 0 <= j < i ==> #[trigger] sensor_table()[j].0 != id,
        decreases table@.len() - i,
    {
        if table[i].id == id {
            proof {
                assert(table@[i as int].entry() == sensor_table()[i as int]);
                lemma_find_entry_skip(sensor_table(), i as int, id);
            }
            return Some(table[i]);
        }
        assert(table@[i as int].entry() == sensor_table()[i as int]);
        i += 1;
    }
    proof {
        lemma_find_entry_absent(sensor_table(), id);
    }
    None
}

/// The actuator with the given id, if the registry has one.
pub fn actuator_by_id(id: u8) -> (r: Option<ActuatorDesc>)
    ensures
        match r {
            Some(d) => find_entry(actuator_table(), id) == Some(d.entry()),
            None => find_entry(actuator_table(), id) is None,
        },
{
    let table = actuators();
    let mut i: usize = 0;
    while i < table.len()
        invariant
            0 <= i <= table@.len(),
            table@.len() == actuator_table().len(),
            forall|k: int|
                0 <= k < table@.len() ==> #[trigger] table@[k].entry() == actuator_table()[k],
            forall|j: int| 0 <= j < i ==> #[trigger] actuator_table()[j].0 != id,
        decreases table@.len() - i,
    {
        if table[i].id == id {
            proof {
                assert(table@[i as int].entry() == actuator_table()[i as int]);
                lemma_find_entry_skip(actuator_table(), i as int, id);
            }
            return Some(table[i]);
        }
        assert(table@[i as int].entry() == actuator_table()[i as int]);
        i += 1;
    }
    proof {
        lemma_find_entry_absent(actuator_table(), id);
    }
    None
}

/// The name of any device, sensor or actuator, for logs; `"desconhecido"`
/// for an id that the registry does not hold.
pub fn name_by_id(id: u8) -> (name: &'static str)
    ensures
        name@ == device_name(id),
{
    match sensor_by_id(id) {
        Some(s) => s.name,
        None => match actuator_by_id(id) {
            Some(a) => a.name,
            None => "desconhecido",
        },
    }
}


/// The ids of all the devices, sensors first, in registry order.
pub open spec fn registry_ids() -> Seq<u8> {
    (sensor_table() + actuator_table()).map_values(|e: Entry| e.0)
}

/// No two devices of the registry share an id, so that a message can be
/// routed by id alone.
pub proof fn lemma_registry_ids_unique()
    ensures
        forall|i: int, j: int|
            0 <= i < j < registry_ids().len() ==> #[trigger] registry_ids()[i]
                != #[trigger] registry_ids()[j],
{
    let ids = registry_ids();
    assert(ids =~= seq![0u8, 1u8, 2u8, 3u8, 4u8, 5u8, 6u8]);
}

/// No id is both a sensor's and an actuator's: looking a sensor's id up among
/// the actuators finds nothing, and the other way round.
pub proof fn lemma_sensor_actuator_ids_disjoint()
    ensures
        forall|i: int|
            0 <= i < sensor_table().len() ==> find_entry(
                actuator_table(),
                #[trigger] sensor_table()[i].0,
            ) is None,
        forall|i: int|
            0 <= i < actuator_table().len() ==> find_entry(
                sensor_table(),
                #[trigger] actuator_table()[i].0,
            ) is None,
{
    reveal_with_fuel(find_entry, 5);
}

/// Each device of the registry is found by its own id.
pub proof fn lemma_lookup_finds_registered()
    ensures
        forall|i: int|
            0 <= i < sensor_table().len() ==> find_entry(
                sensor_table(),
                #[trigger] sensor_table()[i].0,
            ) == Some(sensor_table()[i]),
        forall|i: int|
            0 <= i < actuator_table().len() ==> find_entry(
                actuator_table(),
                #[trigger] actuator_table()[i].0,
            ) == Some(actuator_table()[i]),
{
    reveal_with_fuel(find_entry, 5);
}

} // verus!
