//! A sensor device: it reads its environment file and reports the reading to
//! the manager.
use vstd::prelude::*;

use crate::components::devices::{find_entry, sensor_by_id, sensor_table};

verus! {

/// A sensor of the registry and the environment file it reads.
pub struct Sensor {
    id: u8,
    file_path: String,
}

impl Sensor {
    /// The sensor's id.
    pub closed spec fn spec_id(&self) -> u8 {
        self.id
    }

    /// The environment file the sensor reads.
    pub closed spec fn spec_file_path(&self) -> Seq<char> {
        self.file_path@
    }

    /// The sensor with the given id, reading the file that the registry gives
    /// it. An id that the registry does not hold is a programming error.
    pub fn new(id: u8) -> (s: Sensor)
        requires
            find_entry(sensor_table(), id) is Some,
        ensures
            s.spec_id() == id,
            s.spec_file_path() == find_entry(sensor_table(), id)->Some_0.2,
    {
        let desc = sensor_by_id(id).unwrap();
        Sensor { id, file_path: String::from_str(desc.file) }
    }

    /// The sensor's id.
    pub fn id(&self) -> (r: u8)
        ensures
            r == self.spec_id(),
    {
        self.id
    }

    /// The environment file the sensor reads.
    pub fn file_path(&self) -> (r: &str)
        ensures
            r@ == self.spec_file_path(),
    {
        self.file_path.as_str()
    }
}

} // verus!
