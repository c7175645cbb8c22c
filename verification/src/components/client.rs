//! The client: it configures the manager and queries the sensors' readings.
use vstd::prelude::*;

verus! {

/// The client of the greenhouse. It holds no state of its own: it talks to
/// the manager over a connection that it opens when it runs.
pub struct Client {}

impl Client {
    pub fn new() -> (c: Client)
        ensures
            c == (Client {}),
    {
        Client {}
    }
}

impl Default for Client {
    fn default() -> (c: Client)
        ensures
            c == (Client {}),
    {
        Client::new()
    }
}

} // verus!
