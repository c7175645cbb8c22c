//! The client of the `componentes` family.
use vstd::prelude::*;

verus! {

/// The client; it holds no state of its own.
pub struct Cliente {}

impl Cliente {
    pub fn new() -> (c: Cliente)
        ensures
            c == (Cliente {}),
    {
        Cliente {}
    }
}

impl Default for Cliente {
    fn default() -> (c: Cliente)
        ensures
            c == (Cliente {}),
    {
        Cliente::new()
    }
}

} // verus!
