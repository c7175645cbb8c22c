pub mod client;
pub mod devices;
pub mod env_io;
pub mod manager;
pub mod sensor;
