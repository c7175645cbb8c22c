//! A sensor of the `componentes` family: ids 0, 1 and 2 read the temperature, the
//! humidity and the CO2 file.
use vstd::prelude::*;

verus! {

/// The environment file that the sensor with this id reads.
pub open spec fn spec_arquivo_sensor(id: u8) -> Seq<char> {
    if id == 0 {
        "src/env_vars/temp.txt"@
    } else if id == 1 {
        "src/env_vars/hum.txt"@
    } else {
        "src/env_vars/co2.txt"@
    }
}

/// A sensor and the environment file it reads.
pub struct Sensor {
    id: u8,
    file_path: String,
}

impl Sensor {
    pub closed spec fn spec_id(&self) -> u8 {
        self.id
    }

    pub closed spec fn spec_file_path(&self) -> Seq<char> {
        self.file_path@
    }

    /// The sensor with the given id (0, 1 or 2; any other id is a programming
    /// error).
    pub fn new(id: u8) -> (s: Sensor)
        requires
            id <= 2,
        ensures
            s.spec_id() == id,
            s.spec_file_path() == spec_arquivo_sensor(id),
    {
        let file_path = if id == 0 {
            String::from_str("src/env_vars/temp.txt")
        } else if id == 1 {
            String::from_str("src/env_vars/hum.txt")
        } else {
            String::from_str("src/env_vars/co2.txt")
        };
        Sensor { id, file_path }
    }

    pub fn id(&self) -> (r: u8)
        ensures
            r == self.spec_id(),
    {
        self.id
    }

    pub fn file_path(&self) -> (r: &str)
        ensures
            r@ == self.spec_file_path(),
    {
        self.file_path.as_str()
    }
}

} // verus!
