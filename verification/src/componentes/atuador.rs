//! An actuator of the `componentes` family, identified by its type rather than by
//! the registry.
use vstd::prelude::*;

verus! {

/// What an actuator does.
#[derive(PartialEq, Eq, Structural, Clone, Copy, Debug)]
pub enum AtuadorTipo {
    Aquecedor,
    Resfriador,
    Irrigador,
    InjetorCO2,
}

/// The environment file that each type of actuator acts on.
pub open spec fn spec_arquivo(tipo: AtuadorTipo) -> Seq<char> {
    match tipo {
        AtuadorTipo::Aquecedor => "src/env_vars/temp.txt"@,
        AtuadorTipo::Resfriador => "src/env_vars/temp.txt"@,
        AtuadorTipo::Irrigador => "src/env_vars/hum.txt"@,
        AtuadorTipo::InjetorCO2 => "src/env_vars/co2.txt"@,
    }
}

impl AtuadorTipo {
    /// The environment file that this type of actuator acts on: the heater and
    /// the cooler the temperature's, the irrigator the humidity's, the
    /// injector the CO2's.
    pub fn arquivo(&self) -> (f: &'static str)
        ensures
            f@ == spec_arquivo(*self),
    {
        match self {
            AtuadorTipo::Aquecedor => "src/env_vars/temp.txt",
            AtuadorTipo::Resfriador => "src/env_vars/temp.txt",
            AtuadorTipo::Irrigador => "src/env_vars/hum.txt",
            AtuadorTipo::InjetorCO2 => "src/env_vars/co2.txt",
        }
    }
}

/// An actuator: its id and its type. It starts switched off.
pub struct Atuador {
    id: u8,
    tipo: AtuadorTipo,
}

impl Atuador {
    pub closed spec fn spec_id(&self) -> u8 {
        self.id
    }

    pub closed spec fn spec_tipo(&self) -> AtuadorTipo {
        self.tipo
    }

    pub fn new(id: u8, tipo: AtuadorTipo) -> (a: Atuador)
        ensures
            a.spec_id() == id,
            a.spec_tipo() == tipo,
    {
        Atuador { id, tipo }
    }

    pub fn id(&self) -> (r: u8)
        ensures
            r == self.spec_id(),
    {
        self.id
    }

    pub fn tipo(&self) -> (r: AtuadorTipo)
        ensures
            r == self.spec_tipo(),
    {
        self.tipo
    }
}

} // verus!
