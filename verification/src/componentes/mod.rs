pub mod atuador;
pub mod cliente;
pub mod env_io;
pub mod gerenciador;
pub mod sensor;
