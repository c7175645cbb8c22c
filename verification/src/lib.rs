//! Greenhouse control system: the binary wire protocol spoken between the
//! manager, the sensors, the actuators and the client, the device registry,
//! and the decisions the manager takes on each message.

pub mod components;
pub mod protocol;
pub mod protocolo;
pub mod componentes;
